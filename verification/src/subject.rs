//! Subject namer: builds the hierarchical topic strings of the protocol.
//!
//! Every subject the client emits or subscribes to is a dot-joined list of
//! segments, prefixed by the fixed root `wasmbus` and, when the client is
//! configured with a namespace, by that namespace. Segments are non-empty and
//! dot-free, which makes the naming scheme injective: distinct segment lists
//! never collide on one topic.

use vstd::prelude::*;
use vstd::string::*;

verus! {

/// The view of an optional namespace string.
pub open spec fn ns_view(ns: Option<String>) -> Option<Seq<char>> {
    match ns {
        Some(n) => Some(n@),
        None => None,
    }
}

/// A dot-joined list of segments: `parts[0].parts[1]. ... .parts[n-1]`.
pub open spec fn join_dot(parts: Seq<Seq<char>>) -> Seq<char>
    decreases parts.len(),
{
    if parts.len() == 0 {
        Seq::empty()
    } else if parts.len() == 1 {
        parts[0]
    } else {
        parts[0] + seq!['.'] + join_dot(parts.drop_first())
    }
}

/// A well-formed segment is non-empty and dot-free.
pub open spec fn seg_wf(s: Seq<char>) -> bool {
    &&& s.len() > 0
    &&& forall|i: int| 0 <= i < s.len() ==> s[i] != '.'
}

/// All segments of a list are well-formed.
pub open spec fn parts_wf(parts: Seq<Seq<char>>) -> bool {
    forall|i: int| 0 <= i < parts.len() ==> seg_wf(#[trigger] parts[i])
}

/// The full subject for a namespace and a pre-joined tail: `N.wasmbus.<tail>`
/// when a namespace `N` is configured, else `wasmbus.<tail>`.
pub open spec fn subject_view(ns: Option<Seq<char>>, tail: Seq<char>) -> Seq<char> {
    match ns {
        Some(n) => n + seq!['.'] + "wasmbus."@ + tail,
        None => "wasmbus."@ + tail,
    }
}

/// Builds the subject string for the configured namespace and a pre-joined
/// tail of segments.
pub fn gen_subject(namespace: &Option<String>, tail: &str) -> (r: String)
    ensures
        r@ == subject_view(ns_view(*namespace), tail@),
{
    proof {
        reveal_strlit("wasmbus.");
        reveal_strlit(".");
    }
    match namespace {
        Some(ns) => {
            let mut s = ns.clone();
            s.append(".");
            s.append("wasmbus.");
            s.append(tail);
            proof {
                assert(s@ =~= subject_view(ns_view(*namespace), tail@));
            }
            s
        },
        None => {
            let mut s = String::from_str("wasmbus.");
            s.append(tail);
            s
        },
    }
}

/// Splits a character sequence on `'.'`. Splitting is the inverse of
/// [`join_dot`] on well-formed segment lists, which is what makes the naming
/// scheme injective.
pub open spec fn split_dot(s: Seq<char>) -> Seq<Seq<char>>
    decreases s.len(),
{
    if s.len() == 0 {
        seq![Seq::<char>::empty()]
    } else if s[0] == '.' {
        seq![Seq::<char>::empty()] + split_dot(s.drop_first())
    } else {
        let r = split_dot(s.drop_first());
        seq![seq![s[0]] + r[0]] + r.drop_first()
    }
}

/// Splitting a dot-free sequence yields that sequence alone.
proof fn lemma_split_dot_free(s: Seq<char>)
    requires
        forall|i: int| 0 <= i < s.len() ==> s[i] != '.',
    ensures
        split_dot(s) =~~= seq![s],
    decreases s.len(),
{
    if s.len() == 0 {
        assert(split_dot(s) =~~= seq![s]);
    } else {
        lemma_split_dot_free(s.drop_first());
        assert(seq![s[0]] + s.drop_first() =~= s);
    }
}

/// Splitting `x.t` for a dot-free `x` peels off exactly `x`.
proof fn lemma_split_dot_prefix(x: Seq<char>, t: Seq<char>)
    requires
        forall|i: int| 0 <= i < x.len() ==> x[i] != '.',
    ensures
        split_dot(x + seq!['.'] + t) =~~= seq![x] + split_dot(t),
    decreases x.len(),
{
    let s = x + seq!['.'] + t;
    if x.len() == 0 {
        assert(s[0] == '.');
        assert(s.drop_first() =~= t);
    } else {
        assert(s[0] == x[0]);
        assert(s[0] != '.');
        assert(s.drop_first() =~= x.drop_first() + seq!['.'] + t);
        lemma_split_dot_prefix(x.drop_first(), t);
        let r = split_dot(s.drop_first());
        assert(r =~~= seq![x.drop_first()] + split_dot(t));
        assert(seq![x[0]] + r[0] =~= x);
        assert(r.drop_first() =~~= split_dot(t));
    }
}

/// On a well-formed, non-empty segment list, splitting undoes joining.
pub proof fn lemma_split_join(parts: Seq<Seq<char>>)
    requires
        parts_wf(parts),
        parts.len() > 0,
    ensures
        split_dot(join_dot(parts)) =~~= parts,
    decreases parts.len(),
{
    if parts.len() == 1 {
        assert(seg_wf(parts[0]));
        lemma_split_dot_free(parts[0]);
        assert(split_dot(join_dot(parts)) =~~= seq![parts[0]]);
        assert(seq![parts[0]] =~~= parts);
    } else {
        assert(seg_wf(parts[0]));
        lemma_split_dot_prefix(parts[0], join_dot(parts.drop_first()));
        lemma_split_join(parts.drop_first());
        assert(seq![parts[0]] + parts.drop_first() =~~= parts);
    }
}

/// Equal concatenations with an equal left part have equal right parts.
proof fn lemma_seq_cancel_left<T>(x: Seq<T>, a: Seq<T>, b: Seq<T>)
    requires
        x + a == x + b,
    ensures
        a == b,
{
    assert((x + a).len() == (x + b).len());
    assert((x + a).len() == x.len() + a.len());
    assert((x + b).len() == x.len() + b.len());
    assert(a.len() == b.len());
    assert forall|i: int| 0 <= i < a.len() implies a[i] == b[i] by {
        assert((x + a)[x.len() + i] == a[i]);
        assert((x + b)[x.len() + i] == b[i]);
    }
    assert(a =~= b);
}

/// Joining is injective on well-formed, non-empty segment lists.
pub proof fn lemma_join_dot_injective(a: Seq<Seq<char>>, b: Seq<Seq<char>>)
    requires
        parts_wf(a),
        parts_wf(b),
        a.len() > 0,
        b.len() > 0,
        join_dot(a) == join_dot(b),
    ensures
        a == b,
{
    lemma_split_join(a);
    lemma_split_join(b);
    assert(a =~~= b);
}

/// Subject construction is injective: under one namespace setting, distinct
/// well-formed segment lists always produce distinct subjects.
pub proof fn lemma_subject_injective(
    ns: Option<Seq<char>>,
    a: Seq<Seq<char>>,
    b: Seq<Seq<char>>,
)
    requires
        parts_wf(a),
        parts_wf(b),
        a.len() > 0,
        b.len() > 0,
        subject_view(ns, join_dot(a)) == subject_view(ns, join_dot(b)),
    ensures
        a == b,
{
    match ns {
        Some(n) => {
            lemma_seq_cancel_left(n + seq!['.'] + "wasmbus."@, join_dot(a), join_dot(b));
        },
        None => {
            lemma_seq_cancel_left("wasmbus."@, join_dot(a), join_dot(b));
        },
    }
    lemma_join_dot_injective(a, b);
}


/// The views of a list of segment strings.
pub open spec fn parts_view(ps: Seq<String>) -> Seq<Seq<char>> {
    ps.map_values(|p: String| p@)
}

/// Joining distributes over appending one more segment.
proof fn lemma_join_dot_snoc(s: Seq<Seq<char>>, x: Seq<char>)
    requires
        s.len() > 0,
    ensures
        join_dot(s.push(x)) == join_dot(s) + seq!['.'] + x,
    decreases s.len(),
{
    if s.len() == 1 {
        assert(s.push(x).drop_first() =~= seq![x]);
        assert(join_dot(seq![x]) == x);
        assert(s.push(x)[0] == s[0]);
    } else {
        assert(s.push(x).drop_first() =~= s.drop_first().push(x));
        assert(s.push(x)[0] == s[0]);
        lemma_join_dot_snoc(s.drop_first(), x);
        assert(join_dot(s.push(x)) =~= join_dot(s) + seq!['.'] + x);
    }
}

/// The subject namer: builds the subject for an ordered, non-empty list of
/// path segments under the configured namespace.
pub fn subject(namespace: &Option<String>, parts: &Vec<String>) -> (r: String)
    requires
        parts@.len() > 0,
    ensures
        r@ == subject_view(ns_view(*namespace), join_dot(parts_view(parts@))),
{
    let mut tail = parts[0].clone();
    proof {
        assert(parts_view(parts@.take(1)) =~= seq![parts@[0]@]);
        assert(join_dot(parts_view(parts@.take(1))) == parts@[0]@);
    }
    let mut i: usize = 1;
    while i < parts.len()
        invariant
            1 <= i <= parts@.len(),
            tail@ == join_dot(parts_view(parts@.take(i as int))),
        decreases parts@.len() - i,
    {
        tail.append(".");
        tail.append(parts[i].as_str());
        proof {
            reveal_strlit(".");
            let pv = parts_view(parts@.take(i as int));
            assert(parts_view(parts@.take(i + 1 as int)) =~= pv.push(parts@[i as int]@));
            assert(pv.len() > 0);
            lemma_join_dot_snoc(pv, parts@[i as int]@);
            assert(tail@ =~= join_dot(pv) + seq!['.'] + parts@[i as int]@);
        }
        i += 1;
    }
    proof {
        assert(parts@.take(parts@.len() as int) =~= parts@);
    }
    gen_subject(namespace, tail.as_str())
}

/// Segments of the addressed actor-launch command for one host.
pub open spec fn launch_actor_parts(host: Seq<char>) -> Seq<Seq<char>> {
    seq!["control"@, host, "actor"@, "launch"@]
}

/// Segments of the addressed actor-terminate command for one host.
pub open spec fn terminate_actor_parts(host: Seq<char>) -> Seq<Seq<char>> {
    seq!["control"@, host, "actor"@, "terminate"@]
}

/// Segments of the addressed provider-launch command for one host.
pub open spec fn launch_provider_parts(host: Seq<char>) -> Seq<Seq<char>> {
    seq!["control"@, host, "provider"@, "launch"@]
}

/// Segments of the addressed provider-terminate command for one host.
pub open spec fn terminate_provider_parts(host: Seq<char>) -> Seq<Seq<char>> {
    seq!["control"@, host, "provider"@, "terminate"@]
}

/// Segments of the fan-out actor placement auction.
pub open spec fn auction_request_parts() -> Seq<Seq<char>> {
    seq!["control"@, "auction"@, "request"@]
}

/// Segments of the fan-out provider placement auction.
pub open spec fn provider_auction_parts() -> Seq<Seq<char>> {
    seq!["control"@, "provauction"@, "request"@]
}

/// Segments of one inventory probe kind.
pub open spec fn inventory_parts(kind: Seq<char>) -> Seq<Seq<char>> {
    seq!["inventory"@, kind]
}

/// Segments of the lifecycle-event feed.
pub open spec fn events_parts() -> Seq<Seq<char>> {
    seq!["events"@]
}

/// The addressed subject on which one host takes actor-launch commands.
pub fn gen_launch_actor_subject(namespace: &Option<String>, host: &str) -> (r: String)
    ensures
        r@ == subject_view(ns_view(*namespace), join_dot(launch_actor_parts(host@))),
{
    let mut parts: Vec<String> = Vec::new();
    parts.push(String::from_str("control"));
    parts.push(host.to_owned());
    parts.push(String::from_str("actor"));
    parts.push(String::from_str("launch"));
    proof {
        assert(parts_view(parts@) =~= launch_actor_parts(host@));
    }
    subject(namespace, &parts)
}

/// The addressed subject on which one host takes actor-terminate commands.
pub fn gen_terminate_actor_subject(namespace: &Option<String>, host: &str) -> (r: String)
    ensures
        r@ == subject_view(ns_view(*namespace), join_dot(terminate_actor_parts(host@))),
{
    let mut parts: Vec<String> = Vec::new();
    parts.push(String::from_str("control"));
    parts.push(host.to_owned());
    parts.push(String::from_str("actor"));
    parts.push(String::from_str("terminate"));
    proof {
        assert(parts_view(parts@) =~= terminate_actor_parts(host@));
    }
    subject(namespace, &parts)
}

/// The addressed subject on which one host takes provider-launch commands.
pub fn gen_launch_provider_subject(namespace: &Option<String>, host: &str) -> (r: String)
    ensures
        r@ == subject_view(ns_view(*namespace), join_dot(launch_provider_parts(host@))),
{
    let mut parts: Vec<String> = Vec::new();
    parts.push(String::from_str("control"));
    parts.push(host.to_owned());
    parts.push(String::from_str("provider"));
    parts.push(String::from_str("launch"));
    proof {
        assert(parts_view(parts@) =~= launch_provider_parts(host@));
    }
    subject(namespace, &parts)
}

/// The addressed subject on which one host takes provider-terminate commands.
pub fn gen_terminate_provider_subject(namespace: &Option<String>, host: &str) -> (r: String)
    ensures
        r@ == subject_view(ns_view(*namespace), join_dot(terminate_provider_parts(host@))),
{
    let mut parts: Vec<String> = Vec::new();
    parts.push(String::from_str("control"));
    parts.push(host.to_owned());
    parts.push(String::from_str("provider"));
    parts.push(String::from_str("terminate"));
    proof {
        assert(parts_view(parts@) =~= terminate_provider_parts(host@));
    }
    subject(namespace, &parts)
}

/// The fan-out subject of the actor placement auction.
pub fn gen_auction_subject(namespace: &Option<String>) -> (r: String)
    ensures
        r@ == subject_view(ns_view(*namespace), join_dot(auction_request_parts())),
{
    let mut parts: Vec<String> = Vec::new();
    parts.push(String::from_str("control"));
    parts.push(String::from_str("auction"));
    parts.push(String::from_str("request"));
    proof {
        assert(parts_view(parts@) =~= auction_request_parts());
    }
    subject(namespace, &parts)
}

/// The fan-out subject of the provider placement auction.
pub fn gen_provider_auction_subject(namespace: &Option<String>) -> (r: String)
    ensures
        r@ == subject_view(ns_view(*namespace), join_dot(provider_auction_parts())),
{
    let mut parts: Vec<String> = Vec::new();
    parts.push(String::from_str("control"));
    parts.push(String::from_str("provauction"));
    parts.push(String::from_str("request"));
    proof {
        assert(parts_view(parts@) =~= provider_auction_parts());
    }
    subject(namespace, &parts)
}

/// The fan-out subject of one inventory probe kind, such as `hosts` or
/// `actors`.
pub fn gen_inventory_subject(namespace: &Option<String>, kind: &str) -> (r: String)
    ensures
        r@ == subject_view(ns_view(*namespace), join_dot(inventory_parts(kind@))),
{
    let mut parts: Vec<String> = Vec::new();
    parts.push(String::from_str("inventory"));
    parts.push(kind.to_owned());
    proof {
        assert(parts_view(parts@) =~= inventory_parts(kind@));
    }
    subject(namespace, &parts)
}

/// The subject of the lifecycle-event feed.
pub fn gen_events_subject(namespace: &Option<String>) -> (r: String)
    ensures
        r@ == subject_view(ns_view(*namespace), join_dot(events_parts())),
{
    let mut parts: Vec<String> = Vec::new();
    parts.push(String::from_str("events"));
    proof {
        assert(parts_view(parts@) =~= events_parts());
    }
    subject(namespace, &parts)
}

} // verus!
