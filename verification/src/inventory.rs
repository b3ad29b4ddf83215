//! Inventory records and the fan-out probe aggregation.
//!
//! A probe publishes one request on an inventory subject and collects the
//! replies that arrive before the call timeout into per-host collections. A
//! host may answer with a single record or a batch, and may answer more than
//! once: repeated replies from one host are additive, concatenated in arrival
//! order, never overwriting. A host that never replies is simply absent from
//! the result; that is not an error.

use vstd::prelude::*;

use crate::assoc::{
    assoc_keys_unique, assoc_lookup, lemma_assoc_lookup_absent, lemma_assoc_lookup_found,
    lemma_assoc_lookup_push, lemma_assoc_lookup_update,
};

verus! {

/// An overview of host information.
#[derive(Debug, Clone, PartialEq, Eq)]
pub struct HostProfile {
    /// The public key (subject) of the host.
    pub id: String,
    /// The host's labels: unique-keyed exact-match pairs.
    pub labels: Vec<(String, String)>,
    /// Host uptime in milliseconds.
    pub uptime_ms: u128,
}

/// What this client reads of an actor's signed claims. The claims travel as
/// an opaque token verified elsewhere; here only the identity fields the
/// operator lists are kept, as plain values.
#[derive(Debug, Clone, PartialEq, Eq)]
pub struct ActorClaims {
    /// The public key (subject) of the actor.
    pub subject: String,
    /// The public key of the issuer that signed the claims.
    pub issuer: String,
    /// The actor's friendly name, when its claims carry one.
    pub name: Option<String>,
    /// The actor's version string, when present.
    pub version: Option<String>,
    /// The actor's revision number, when present.
    pub revision: Option<i32>,
}

/// What this client reads of a capability descriptor.
#[derive(Debug, Clone, PartialEq, Eq)]
pub struct CapabilityDescriptor {
    /// The capability contract identifier.
    pub id: String,
    /// The descriptor's friendly name.
    pub name: String,
    /// The names of the operations the provider supports.
    pub supported_operations: Vec<String>,
}

/// An instance of a capability: a binding name and the capability
/// descriptor.
#[derive(Debug, Clone, PartialEq, Eq)]
pub struct HostedCapability {
    pub binding_name: String,
    pub descriptor: CapabilityDescriptor,
}

/// A single configuration binding from an actor to a capability id and
/// binding name, with the specified configuration values.
#[derive(Debug, Clone, PartialEq, Eq)]
pub struct Binding {
    pub actor: String,
    pub capability_id: String,
    pub binding_name: String,
    pub configuration: Vec<(String, String)>,
}

/// A response to a lattice probe for inventory. Responses return through
/// regular subscriptions in a scatter-gather pattern, so the client
/// aggregates many of them.
#[derive(Debug, Clone, PartialEq, Eq)]
pub enum InventoryResponse {
    /// A single host probe response.
    Host(HostProfile),
    /// All registered actors within a host.
    Actors { host: String, actors: Vec<ActorClaims> },
    /// The configuration bindings of actors originating from the given host.
    Bindings { host: String, bindings: Vec<Binding> },
    /// The capability providers currently running within the given host.
    Capabilities { host: String, capabilities: Vec<HostedCapability> },
}

/// The host profiles among the replies, in arrival order.
pub open spec fn host_profiles_of(replies: Seq<InventoryResponse>) -> Seq<HostProfile>
    decreases replies.len(),
{
    if replies.len() == 0 {
        Seq::empty()
    } else {
        (match replies[0] {
            InventoryResponse::Host(p) => seq![p],
            _ => Seq::empty(),
        }) + host_profiles_of(replies.drop_first())
    }
}

/// The actor batch one reply contributes to the given host's group.
pub open spec fn actor_batch(reply: InventoryResponse, h: Seq<char>) -> Seq<ActorClaims> {
    match reply {
        InventoryResponse::Actors { host, actors } => if host@ == h {
            actors@
        } else {
            Seq::empty()
        },
        _ => Seq::empty(),
    }
}

/// Whether one reply is an actor batch from the given host.
pub open spec fn actor_batch_from(reply: InventoryResponse, h: Seq<char>) -> bool {
    match reply {
        InventoryResponse::Actors { host, .. } => host@ == h,
        _ => false,
    }
}

/// All actor records the given host sent, concatenated in arrival order.
pub open spec fn actor_records_for(replies: Seq<InventoryResponse>, h: Seq<char>) -> Seq<
    ActorClaims,
>
    decreases replies.len(),
{
    if replies.len() == 0 {
        Seq::empty()
    } else {
        actor_batch(replies[0], h) + actor_records_for(replies.drop_first(), h)
    }
}

/// Whether the given host sent at least one actor batch.
pub open spec fn actor_host_replied(replies: Seq<InventoryResponse>, h: Seq<char>) -> bool
    decreases replies.len(),
{
    if replies.len() == 0 {
        false
    } else {
        actor_batch_from(replies[0], h) || actor_host_replied(replies.drop_first(), h)
    }
}

/// The binding batch one reply contributes to the given host's group.
pub open spec fn binding_batch(reply: InventoryResponse, h: Seq<char>) -> Seq<Binding> {
    match reply {
        InventoryResponse::Bindings { host, bindings } => if host@ == h {
            bindings@
        } else {
            Seq::empty()
        },
        _ => Seq::empty(),
    }
}

/// Whether one reply is a binding batch from the given host.
pub open spec fn binding_batch_from(reply: InventoryResponse, h: Seq<char>) -> bool {
    match reply {
        InventoryResponse::Bindings { host, .. } => host@ == h,
        _ => false,
    }
}

/// All bindings the given host sent, concatenated in arrival order.
pub open spec fn binding_records_for(replies: Seq<InventoryResponse>, h: Seq<char>) -> Seq<Binding>
    decreases replies.len(),
{
    if replies.len() == 0 {
        Seq::empty()
    } else {
        binding_batch(replies[0], h) + binding_records_for(replies.drop_first(), h)
    }
}

/// Whether the given host sent at least one binding batch.
pub open spec fn binding_host_replied(replies: Seq<InventoryResponse>, h: Seq<char>) -> bool
    decreases replies.len(),
{
    if replies.len() == 0 {
        false
    } else {
        binding_batch_from(replies[0], h) || binding_host_replied(replies.drop_first(), h)
    }
}

/// The capability batch one reply contributes to the given host's group.
pub open spec fn capability_batch(reply: InventoryResponse, h: Seq<char>) -> Seq<HostedCapability> {
    match reply {
        InventoryResponse::Capabilities { host, capabilities } => if host@ == h {
            capabilities@
        } else {
            Seq::empty()
        },
        _ => Seq::empty(),
    }
}

/// Whether one reply is a capability batch from the given host.
pub open spec fn capability_batch_from(reply: InventoryResponse, h: Seq<char>) -> bool {
    match reply {
        InventoryResponse::Capabilities { host, .. } => host@ == h,
        _ => false,
    }
}

/// All capabilities the given host sent, concatenated in arrival order.
pub open spec fn capability_records_for(replies: Seq<InventoryResponse>, h: Seq<char>) -> Seq<
    HostedCapability,
>
    decreases replies.len(),
{
    if replies.len() == 0 {
        Seq::empty()
    } else {
        capability_batch(replies[0], h) + capability_records_for(replies.drop_first(), h)
    }
}

/// Whether the given host sent at least one capability batch.
pub open spec fn capability_host_replied(replies: Seq<InventoryResponse>, h: Seq<char>) -> bool
    decreases replies.len(),
{
    if replies.len() == 0 {
        false
    } else {
        capability_batch_from(replies[0], h) || capability_host_replied(replies.drop_first(), h)
    }
}

/// Adds one host's batch of records to its group: a new host opens a group,
/// a repeated host extends its group at the end. Nothing else changes.
fn add_records<T>(groups: &mut Vec<(String, Vec<T>)>, host: String, recs: Vec<T>)
    requires
        assoc_keys_unique(old(groups)@),
    ensures
        assoc_keys_unique(final(groups)@),
        (match assoc_lookup(final(groups)@, host@) {
            Some(v) => v@ == (match assoc_lookup(old(groups)@, host@) {
                Some(w) => w@ + recs@,
                None => recs@,
            }),
            None => false,
        }),
        forall|k: Seq<char>|
            k != host@ ==> #[trigger] assoc_lookup(final(groups)@, k) == assoc_lookup(
                old(groups)@,
                k,
            ),
{
    let ghost g0 = groups@;
    let mut i: usize = 0;
    while i < groups.len()
        invariant
            i <= g0.len(),
            groups@ == g0,
            g0 == old(groups)@,
            assoc_keys_unique(g0),
            forall|j: int| 0 <= j < i ==> (#[trigger] g0[j]).0@ != host@,
        decreases g0.len() - i,
    {
        if groups[i].0 == host {
            proof {
                lemma_assoc_lookup_found(g0, i as int, host@);
            }
            let removed = groups.remove(i);
            let (key, mut records) = removed;
            let mut batch = recs;
            records.append(&mut batch);
            let entry = (key, records);
            let ghost new_entry = entry;
            groups.insert(i, entry);
            proof {
                assert(new_entry.0 == g0[i as int].0);
                assert(new_entry.1@ == g0[i as int].1@ + recs@);
                assert(new_entry == (g0[i as int].0, new_entry.1));
                assert(groups@ =~= g0.update(i as int, (g0[i as int].0, new_entry.1)));
                assert forall|k: Seq<char>| #[trigger]
                    assoc_lookup(groups@, k) == (if k == host@ {
                        Some(new_entry.1)
                    } else {
                        assoc_lookup(g0, k)
                    }) by {
                    lemma_assoc_lookup_update(g0, i as int, new_entry.1, k);
                }
                assert forall|x: int, y: int| 0 <= x < y < groups@.len() implies (
                #[trigger] groups@[x]).0@ != (#[trigger] groups@[y]).0@ by {
                    assert(groups@[x].0 == g0[x].0);
                    assert(groups@[y].0 == g0[y].0);
                }
            }
            return ;
        }
        i += 1;
    }
    proof {
        lemma_assoc_lookup_absent(g0, host@);
        assert(assoc_lookup(g0, host@) is None);
    }
    let entry = (host, recs);
    let ghost new_entry = entry;
    groups.push(entry);
    proof {
        assert(groups@ == g0.push(new_entry));
        assert forall|k: Seq<char>| #[trigger]
            assoc_lookup(groups@, k) == (if k == new_entry.0@ {
                Some(new_entry.1)
            } else {
                assoc_lookup(g0, k)
            }) by {
            lemma_assoc_lookup_push(g0, new_entry, k);
            if k != new_entry.0@ {
            } else {
                if assoc_lookup(g0, k) is Some {
                    lemma_assoc_lookup_absent(g0, k);
                }
            }
        }
        assert forall|x: int, y: int| 0 <= x < y < groups@.len() implies (
        #[trigger] groups@[x]).0@ != (#[trigger] groups@[y]).0@ by {
            if y < g0.len() {
                assert(groups@[x] == g0[x]);
                assert(groups@[y] == g0[y]);
            } else {
                assert(groups@[x] == g0[x]);
                assert(groups@[y] == new_entry);
            }
        }
    }
}

/// A host that never sent an actor batch contributes no actor records.
proof fn lemma_actor_absent_empty(replies: Seq<InventoryResponse>, h: Seq<char>)
    requires
        !actor_host_replied(replies, h),
    ensures
        actor_records_for(replies, h) == Seq::<ActorClaims>::empty(),
    decreases replies.len(),
{
    if replies.len() == 0 {
    } else {
        lemma_actor_absent_empty(replies.drop_first(), h);
        assert(actor_batch(replies[0], h) =~= Seq::<ActorClaims>::empty());
        assert(actor_records_for(replies, h) =~= Seq::<ActorClaims>::empty());
    }
}

/// Folding one more reply extends a host's actor records by that reply's
/// batch.
proof fn lemma_actor_fold_snoc(s: Seq<InventoryResponse>, x: InventoryResponse, h: Seq<char>)
    ensures
        actor_records_for(s.push(x), h) == actor_records_for(s, h) + actor_batch(x, h),
        actor_host_replied(s.push(x), h) == (actor_host_replied(s, h) || actor_batch_from(x, h)),
    decreases s.len(),
{
    if s.len() == 0 {
        assert(s.push(x)[0] == x);
        assert(s.push(x).drop_first() =~= Seq::<InventoryResponse>::empty());
        assert(actor_records_for(Seq::<InventoryResponse>::empty(), h) == Seq::<ActorClaims>::empty());
        assert(!actor_host_replied(Seq::<InventoryResponse>::empty(), h));
        assert(actor_records_for(s.push(x), h) =~= actor_records_for(s, h) + actor_batch(x, h));
    } else {
        assert(s.push(x)[0] == s[0]);
        assert(s.push(x).drop_first() =~= s.drop_first().push(x));
        lemma_actor_fold_snoc(s.drop_first(), x, h);
        assert(actor_records_for(s.push(x), h) =~= actor_records_for(s, h) + actor_batch(x, h));
    }
}

/// A host that never sent a binding batch contributes no bindings.
proof fn lemma_binding_absent_empty(replies: Seq<InventoryResponse>, h: Seq<char>)
    requires
        !binding_host_replied(replies, h),
    ensures
        binding_records_for(replies, h) == Seq::<Binding>::empty(),
    decreases replies.len(),
{
    if replies.len() == 0 {
    } else {
        lemma_binding_absent_empty(replies.drop_first(), h);
        assert(binding_batch(replies[0], h) =~= Seq::<Binding>::empty());
        assert(binding_records_for(replies, h) =~= Seq::<Binding>::empty());
    }
}

/// Folding one more reply extends a host's bindings by that reply's batch.
proof fn lemma_binding_fold_snoc(s: Seq<InventoryResponse>, x: InventoryResponse, h: Seq<char>)
    ensures
        binding_records_for(s.push(x), h) == binding_records_for(s, h) + binding_batch(x, h),
        binding_host_replied(s.push(x), h) == (binding_host_replied(s, h) || binding_batch_from(
            x,
            h,
        )),
    decreases s.len(),
{
    if s.len() == 0 {
        assert(s.push(x)[0] == x);
        assert(s.push(x).drop_first() =~= Seq::<InventoryResponse>::empty());
        assert(binding_records_for(Seq::<InventoryResponse>::empty(), h) == Seq::<Binding>::empty());
        assert(!binding_host_replied(Seq::<InventoryResponse>::empty(), h));
        assert(binding_records_for(s.push(x), h) =~= binding_records_for(s, h) + binding_batch(
            x,
            h,
        ));
    } else {
        assert(s.push(x)[0] == s[0]);
        assert(s.push(x).drop_first() =~= s.drop_first().push(x));
        lemma_binding_fold_snoc(s.drop_first(), x, h);
        assert(binding_records_for(s.push(x), h) =~= binding_records_for(s, h) + binding_batch(
            x,
            h,
        ));
    }
}

/// A host that never sent a capability batch contributes no capabilities.
proof fn lemma_capability_absent_empty(replies: Seq<InventoryResponse>, h: Seq<char>)
    requires
        !capability_host_replied(replies, h),
    ensures
        capability_records_for(replies, h) == Seq::<HostedCapability>::empty(),
    decreases replies.len(),
{
    if replies.len() == 0 {
    } else {
        lemma_capability_absent_empty(replies.drop_first(), h);
        assert(capability_batch(replies[0], h) =~= Seq::<HostedCapability>::empty());
        assert(capability_records_for(replies, h) =~= Seq::<HostedCapability>::empty());
    }
}

/// Folding one more reply extends a host's capabilities by that reply's
/// batch.
proof fn lemma_capability_fold_snoc(s: Seq<InventoryResponse>, x: InventoryResponse, h: Seq<char>)
    ensures
        capability_records_for(s.push(x), h) == capability_records_for(s, h) + capability_batch(
            x,
            h,
        ),
        capability_host_replied(s.push(x), h) == (capability_host_replied(s, h)
            || capability_batch_from(x, h)),
    decreases s.len(),
{
    if s.len() == 0 {
        assert(s.push(x)[0] == x);
        assert(s.push(x).drop_first() =~= Seq::<InventoryResponse>::empty());
        assert(capability_records_for(Seq::<InventoryResponse>::empty(), h) == Seq::<HostedCapability>::empty());
        assert(!capability_host_replied(Seq::<InventoryResponse>::empty(), h));
        assert(capability_records_for(s.push(x), h) =~= capability_records_for(s, h)
            + capability_batch(x, h));
    } else {
        assert(s.push(x)[0] == s[0]);
        assert(s.push(x).drop_first() =~= s.drop_first().push(x));
        lemma_capability_fold_snoc(s.drop_first(), x, h);
        assert(capability_records_for(s.push(x), h) =~= capability_records_for(s, h)
            + capability_batch(x, h));
    }
}

/// Folding one more reply appends its host profile, if it carries one.
proof fn lemma_profiles_snoc(s: Seq<InventoryResponse>, x: InventoryResponse)
    ensures
        host_profiles_of(s.push(x)) == host_profiles_of(s) + (match x {
            InventoryResponse::Host(p) => seq![p],
            _ => Seq::<HostProfile>::empty(),
        }),
    decreases s.len(),
{
    let tail = (match x {
        InventoryResponse::Host(p) => seq![p],
        _ => Seq::<HostProfile>::empty(),
    });
    if s.len() == 0 {
        assert(s.push(x)[0] == x);
        assert(s.push(x).drop_first() =~= Seq::<InventoryResponse>::empty());
        assert(host_profiles_of(Seq::<InventoryResponse>::empty()) == Seq::<HostProfile>::empty());
        assert(host_profiles_of(s.push(x)) =~= host_profiles_of(s) + tail);
    } else {
        assert(s.push(x)[0] == s[0]);
        assert(s.push(x).drop_first() =~= s.drop_first().push(x));
        lemma_profiles_snoc(s.drop_first(), x);
        assert(host_profiles_of(s.push(x)) =~= host_profiles_of(s) + tail);
    }
}

/// Collects the host profiles among the probe replies, in arrival order.
/// Replies of any other kind are ignored.
pub fn collect_host_profiles(replies: Vec<InventoryResponse>) -> (r: Vec<HostProfile>)
    ensures
        r@ == host_profiles_of(replies@),
{
    let ghost orig = replies@;
    let mut rem = replies;
    let mut profiles: Vec<HostProfile> = Vec::new();
    proof {
        assert(orig.take(0) =~= Seq::<InventoryResponse>::empty());
    }
    while rem.len() > 0
        invariant
            rem@.len() <= orig.len(),
            rem@ == orig.skip(orig.len() - rem@.len()),
            profiles@ == host_profiles_of(orig.take(orig.len() - rem@.len())),
        decreases rem@.len(),
    {
        let ghost p = orig.len() - rem@.len();
        let reply = rem.remove(0);
        proof {
            assert(orig.skip(p)[0] == orig[p]);
            assert(reply == orig[p]);
            assert(rem@ =~= orig.skip(p + 1));
            assert(orig.take(p + 1) =~= orig.take(p).push(orig[p]));
            lemma_profiles_snoc(orig.take(p), orig[p]);
        }
        match reply {
            InventoryResponse::Host(profile) => {
                profiles.push(profile);
            },
            _ => {
                proof {
                    assert(profiles@ =~= host_profiles_of(orig.take(p + 1)));
                }
            },
        }
    }
    proof {
        assert(orig.take(orig.len() as int) =~= orig);
    }
    profiles
}

/// Groups the actor batches of the probe replies by replying host: repeated
/// replies from one host concatenate in arrival order; a host that never
/// replied is absent. Replies of any other kind are ignored.
pub fn aggregate_actors(replies: Vec<InventoryResponse>) -> (r: Vec<(String, Vec<ActorClaims>)>)
    ensures
        assoc_keys_unique(r@),
        forall|h: Seq<char>|
            match #[trigger] assoc_lookup(r@, h) {
                Some(v) => actor_host_replied(replies@, h) && v@ == actor_records_for(replies@, h),
                None => !actor_host_replied(replies@, h),
            },
{
    let ghost orig = replies@;
    let mut rem = replies;
    let mut groups: Vec<(String, Vec<ActorClaims>)> = Vec::new();
    proof {
        assert(orig.take(0) =~= Seq::<InventoryResponse>::empty());
    }
    while rem.len() > 0
        invariant
            rem@.len() <= orig.len(),
            rem@ == orig.skip(orig.len() - rem@.len()),
            assoc_keys_unique(groups@),
            forall|h: Seq<char>|
                match #[trigger] assoc_lookup(groups@, h) {
                    Some(v) => actor_host_replied(orig.take(orig.len() - rem@.len()), h) && v@
                        == actor_records_for(orig.take(orig.len() - rem@.len()), h),
                    None => !actor_host_replied(orig.take(orig.len() - rem@.len()), h),
                },
        decreases rem@.len(),
    {
        let ghost p = orig.len() - rem@.len();
        let reply = rem.remove(0);
        proof {
            assert(orig.skip(p)[0] == orig[p]);
            assert(reply == orig[p]);
            assert(rem@ =~= orig.skip(p + 1));
            assert(orig.take(p + 1) =~= orig.take(p).push(orig[p]));
        }
        let ghost g_before = groups@;
        match reply {
            InventoryResponse::Actors { host, actors } => {
                add_records(&mut groups, host, actors);
            },
            _ => {},
        }
        proof {
            assert forall|h: Seq<char>|
                match #[trigger] assoc_lookup(groups@, h) {
                    Some(v) => actor_host_replied(orig.take(p + 1), h) && v@ == actor_records_for(
                        orig.take(p + 1),
                        h,
                    ),
                    None => !actor_host_replied(orig.take(p + 1), h),
                } by {
                lemma_actor_fold_snoc(orig.take(p), orig[p], h);
                if !actor_batch_from(orig[p], h) {
                    assert(actor_records_for(orig.take(p), h) + actor_batch(orig[p], h)
                        =~= actor_records_for(orig.take(p), h));
                } else {
                    if assoc_lookup(g_before, h) is None {
                        lemma_actor_absent_empty(orig.take(p), h);
                        assert(Seq::<ActorClaims>::empty() + actor_batch(orig[p], h)
                            =~= actor_batch(orig[p], h));
                    }
                }
            }
        }
    }
    proof {
        assert(orig.take(orig.len() as int) =~= orig);
    }
    groups
}

/// Groups the binding batches of the probe replies by replying host, as
/// [`aggregate_actors`] does for actors.
pub fn aggregate_bindings(replies: Vec<InventoryResponse>) -> (r: Vec<(String, Vec<Binding>)>)
    ensures
        assoc_keys_unique(r@),
        forall|h: Seq<char>|
            match #[trigger] assoc_lookup(r@, h) {
                Some(v) => binding_host_replied(replies@, h) && v@ == binding_records_for(
                    replies@,
                    h,
                ),
                None => !binding_host_replied(replies@, h),
            },
{
    let ghost orig = replies@;
    let mut rem = replies;
    let mut groups: Vec<(String, Vec<Binding>)> = Vec::new();
    proof {
        assert(orig.take(0) =~= Seq::<InventoryResponse>::empty());
    }
    while rem.len() > 0
        invariant
            rem@.len() <= orig.len(),
            rem@ == orig.skip(orig.len() - rem@.len()),
            assoc_keys_unique(groups@),
            forall|h: Seq<char>|
                match #[trigger] assoc_lookup(groups@, h) {
                    Some(v) => binding_host_replied(orig.take(orig.len() - rem@.len()), h) && v@
                        == binding_records_for(orig.take(orig.len() - rem@.len()), h),
                    None => !binding_host_replied(orig.take(orig.len() - rem@.len()), h),
                },
        decreases rem@.len(),
    {
        let ghost p = orig.len() - rem@.len();
        let reply = rem.remove(0);
        proof {
            assert(orig.skip(p)[0] == orig[p]);
            assert(reply == orig[p]);
            assert(rem@ =~= orig.skip(p + 1));
            assert(orig.take(p + 1) =~= orig.take(p).push(orig[p]));
        }
        let ghost g_before = groups@;
        match reply {
            InventoryResponse::Bindings { host, bindings } => {
                add_records(&mut groups, host, bindings);
            },
            _ => {},
        }
        proof {
            assert forall|h: Seq<char>|
                match #[trigger] assoc_lookup(groups@, h) {
                    Some(v) => binding_host_replied(orig.take(p + 1), h) && v@
                        == binding_records_for(orig.take(p + 1), h),
                    None => !binding_host_replied(orig.take(p + 1), h),
                } by {
                lemma_binding_fold_snoc(orig.take(p), orig[p], h);
                if !binding_batch_from(orig[p], h) {
                    assert(binding_records_for(orig.take(p), h) + binding_batch(orig[p], h)
                        =~= binding_records_for(orig.take(p), h));
                } else {
                    if assoc_lookup(g_before, h) is None {
                        lemma_binding_absent_empty(orig.take(p), h);
                        assert(Seq::<Binding>::empty() + binding_batch(orig[p], h)
                            =~= binding_batch(orig[p], h));
                    }
                }
            }
        }
    }
    proof {
        assert(orig.take(orig.len() as int) =~= orig);
    }
    groups
}

/// Groups the capability batches of the probe replies by replying host, as
/// [`aggregate_actors`] does for actors.
pub fn aggregate_capabilities(replies: Vec<InventoryResponse>) -> (r: Vec<
    (String, Vec<HostedCapability>),
>)
    ensures
        assoc_keys_unique(r@),
        forall|h: Seq<char>|
            match #[trigger] assoc_lookup(r@, h) {
                Some(v) => capability_host_replied(replies@, h) && v@ == capability_records_for(
                    replies@,
                    h,
                ),
                None => !capability_host_replied(replies@, h),
            },
{
    let ghost orig = replies@;
    let mut rem = replies;
    let mut groups: Vec<(String, Vec<HostedCapability>)> = Vec::new();
    proof {
        assert(orig.take(0) =~= Seq::<InventoryResponse>::empty());
    }
    while rem.len() > 0
        invariant
            rem@.len() <= orig.len(),
            rem@ == orig.skip(orig.len() - rem@.len()),
            assoc_keys_unique(groups@),
            forall|h: Seq<char>|
                match #[trigger] assoc_lookup(groups@, h) {
                    Some(v) => capability_host_replied(orig.take(orig.len() - rem@.len()), h) && v@
                        == capability_records_for(orig.take(orig.len() - rem@.len()), h),
                    None => !capability_host_replied(orig.take(orig.len() - rem@.len()), h),
                },
        decreases rem@.len(),
    {
        let ghost p = orig.len() - rem@.len();
        let reply = rem.remove(0);
        proof {
            assert(orig.skip(p)[0] == orig[p]);
            assert(reply == orig[p]);
            assert(rem@ =~= orig.skip(p + 1));
            assert(orig.take(p + 1) =~= orig.take(p).push(orig[p]));
        }
        let ghost g_before = groups@;
        match reply {
            InventoryResponse::Capabilities { host, capabilities } => {
                add_records(&mut groups, host, capabilities);
            },
            _ => {},
        }
        proof {
            assert forall|h: Seq<char>|
                match #[trigger] assoc_lookup(groups@, h) {
                    Some(v) => capability_host_replied(orig.take(p + 1), h) && v@
                        == capability_records_for(orig.take(p + 1), h),
                    None => !capability_host_replied(orig.take(p + 1), h),
                } by {
                lemma_capability_fold_snoc(orig.take(p), orig[p], h);
                if !capability_batch_from(orig[p], h) {
                    assert(capability_records_for(orig.take(p), h) + capability_batch(orig[p], h)
                        =~= capability_records_for(orig.take(p), h));
                } else {
                    if assoc_lookup(g_before, h) is None {
                        lemma_capability_absent_empty(orig.take(p), h);
                        assert(Seq::<HostedCapability>::empty() + capability_batch(orig[p], h)
                            =~= capability_batch(orig[p], h));
                    }
                }
            }
        }
    }
    proof {
        assert(orig.take(orig.len() as int) =~= orig);
    }
    groups
}

} // verus!
