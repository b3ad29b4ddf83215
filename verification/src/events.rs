//! Lifecycle events and their payload codec.
//!
//! [`BusEvent`] is the closed set of events a host may publish about itself,
//! its actors and its providers, plus an `UnknownEvent` fallback so that a
//! subscriber can carry a payload from a newer peer without failing. Each
//! event has a stable dotted type name, a routing subject derived from its
//! identifying fields, and a framed payload encoding whose decode is proved
//! to be the exact inverse of encode.

use vstd::prelude::*;
use vstd::string::*;

use crate::codec::{
    append_enc_field, chars_to_string, enc_field, parse_field, parse_field_at, str_to_chars,
    lemma_parse_enc_field,
};
use crate::errors::LatticeError;

verus! {

/// An event that may occur on a bus of connected hosts. Timestamps,
/// identifiers and other metadata are provided by the envelope that carries
/// the event, not by the event itself.
#[derive(Debug, Clone, PartialEq, Eq)]
pub enum BusEvent {
    /// A host process has fully started and is ready for work.
    HostStarted(String),
    /// A host has stopped in a predictable manner.
    HostStopped(String),
    /// An actor has begun the loading/parsing phase.
    ActorStarting { actor: String, host: String },
    /// An actor has started and is ready to receive messages.
    ActorStarted { actor: String, host: String },
    /// An actor has stopped in a predictable manner.
    ActorStopped { actor: String, host: String },
    /// A live update/hot swap has begun on this actor.
    ActorUpdating { actor: String, host: String },
    /// A live update/hot swap has completed (or failed).
    ActorUpdateComplete { actor: String, success: bool, host: String },
    /// A capability provider has been loaded on a host.
    ProviderLoaded { capid: String, instance_name: String, host: String },
    /// A capability provider has been removed from a host.
    ProviderRemoved { capid: String, instance_name: String, host: String },
    /// A binding between an actor and a named capability provider instance
    /// was created.
    ActorBindingCreated { host: String, actor: String, capid: String, instance_name: String },
    /// A binding was removed.
    ActorBindingRemoved { host: String, actor: String, capid: String, instance_name: String },
    /// A previously unhealthy actor became healthy.
    ActorBecameHealthy { actor: String, host: String },
    /// A previously healthy actor became unhealthy.
    ActorBecameUnhealthy { actor: String, host: String },
    /// A payload whose tag this client does not know: kept raw so a newer
    /// peer's events survive the trip instead of failing the feed.
    UnknownEvent(String),
}

/// The mathematical model of a [`BusEvent`]: the same variants over
/// character sequences.
pub ghost enum EventView {
    HostStarted(Seq<char>),
    HostStopped(Seq<char>),
    ActorStarting { actor: Seq<char>, host: Seq<char> },
    ActorStarted { actor: Seq<char>, host: Seq<char> },
    ActorStopped { actor: Seq<char>, host: Seq<char> },
    ActorUpdating { actor: Seq<char>, host: Seq<char> },
    ActorUpdateComplete { actor: Seq<char>, success: bool, host: Seq<char> },
    ProviderLoaded { capid: Seq<char>, instance_name: Seq<char>, host: Seq<char> },
    ProviderRemoved { capid: Seq<char>, instance_name: Seq<char>, host: Seq<char> },
    ActorBindingCreated {
        host: Seq<char>,
        actor: Seq<char>,
        capid: Seq<char>,
        instance_name: Seq<char>,
    },
    ActorBindingRemoved {
        host: Seq<char>,
        actor: Seq<char>,
        capid: Seq<char>,
        instance_name: Seq<char>,
    },
    ActorBecameHealthy { actor: Seq<char>, host: Seq<char> },
    ActorBecameUnhealthy { actor: Seq<char>, host: Seq<char> },
    UnknownEvent(Seq<char>),
}

impl View for BusEvent {
    type V = EventView;

    open spec fn view(&self) -> EventView {
        match self {
            BusEvent::HostStarted(h) => EventView::HostStarted(h@),
            BusEvent::HostStopped(h) => EventView::HostStopped(h@),
            BusEvent::ActorStarting { actor, host } => EventView::ActorStarting {
                actor: actor@,
                host: host@,
            },
            BusEvent::ActorStarted { actor, host } => EventView::ActorStarted {
                actor: actor@,
                host: host@,
            },
            BusEvent::ActorStopped { actor, host } => EventView::ActorStopped {
                actor: actor@,
                host: host@,
            },
            BusEvent::ActorUpdating { actor, host } => EventView::ActorUpdating {
                actor: actor@,
                host: host@,
            },
            BusEvent::ActorUpdateComplete { actor, success, host } => {
                EventView::ActorUpdateComplete { actor: actor@, success: *success, host: host@ }
            },
            BusEvent::ProviderLoaded { capid, instance_name, host } => EventView::ProviderLoaded {
                capid: capid@,
                instance_name: instance_name@,
                host: host@,
            },
            BusEvent::ProviderRemoved { capid, instance_name, host } => {
                EventView::ProviderRemoved {
                    capid: capid@,
                    instance_name: instance_name@,
                    host: host@,
                }
            },
            BusEvent::ActorBindingCreated { host, actor, capid, instance_name } => {
                EventView::ActorBindingCreated {
                    host: host@,
                    actor: actor@,
                    capid: capid@,
                    instance_name: instance_name@,
                }
            },
            BusEvent::ActorBindingRemoved { host, actor, capid, instance_name } => {
                EventView::ActorBindingRemoved {
                    host: host@,
                    actor: actor@,
                    capid: capid@,
                    instance_name: instance_name@,
                }
            },
            BusEvent::ActorBecameHealthy { actor, host } => EventView::ActorBecameHealthy {
                actor: actor@,
                host: host@,
            },
            BusEvent::ActorBecameUnhealthy { actor, host } => EventView::ActorBecameUnhealthy {
                actor: actor@,
                host: host@,
            },
            BusEvent::UnknownEvent(raw) => EventView::UnknownEvent(raw@),
        }
    }
}

/// The stable tag of an event's variant, independent of the payload shape.
pub open spec fn event_tag(v: EventView) -> Seq<char> {
    match v {
        EventView::HostStarted(_) => "host_started"@,
        EventView::HostStopped(_) => "host_stopped"@,
        EventView::ActorStarting { .. } => "actor_starting"@,
        EventView::ActorStarted { .. } => "actor_started"@,
        EventView::ActorStopped { .. } => "actor_stopped"@,
        EventView::ActorUpdating { .. } => "actor_updating"@,
        EventView::ActorUpdateComplete { .. } => "actor_update_complete"@,
        EventView::ProviderLoaded { .. } => "provider_loaded"@,
        EventView::ProviderRemoved { .. } => "provider_removed"@,
        EventView::ActorBindingCreated { .. } => "actor_binding_created"@,
        EventView::ActorBindingRemoved { .. } => "actor_binding_removed"@,
        EventView::ActorBecameHealthy { .. } => "actor_became_healthy"@,
        EventView::ActorBecameUnhealthy { .. } => "actor_became_unhealthy"@,
        EventView::UnknownEvent(_) => "unknown_event"@,
    }
}

/// Whether a tag belongs to the closed set of event variants this client
/// knows.
pub open spec fn known_tag(t: Seq<char>) -> bool {
    ||| t == "host_started"@
    ||| t == "host_stopped"@
    ||| t == "actor_starting"@
    ||| t == "actor_started"@
    ||| t == "actor_stopped"@
    ||| t == "actor_updating"@
    ||| t == "actor_update_complete"@
    ||| t == "provider_loaded"@
    ||| t == "provider_removed"@
    ||| t == "actor_binding_created"@
    ||| t == "actor_binding_removed"@
    ||| t == "actor_became_healthy"@
    ||| t == "actor_became_unhealthy"@
}

/// One encoded boolean field.
pub open spec fn enc_bool(b: bool) -> Seq<char> {
    if b {
        enc_field("true"@)
    } else {
        enc_field("false"@)
    }
}

/// The framed payload of an event: its tag field followed by its identifying
/// fields, in declaration order. An unknown event is its raw payload,
/// unchanged.
pub open spec fn encode_event(v: EventView) -> Seq<char> {
    match v {
        EventView::HostStarted(h) => enc_field(event_tag(v)) + enc_field(h),
        EventView::HostStopped(h) => enc_field(event_tag(v)) + enc_field(h),
        EventView::ActorStarting { actor, host } => enc_field(event_tag(v)) + enc_field(actor)
            + enc_field(host),
        EventView::ActorStarted { actor, host } => enc_field(event_tag(v)) + enc_field(actor)
            + enc_field(host),
        EventView::ActorStopped { actor, host } => enc_field(event_tag(v)) + enc_field(actor)
            + enc_field(host),
        EventView::ActorUpdating { actor, host } => enc_field(event_tag(v)) + enc_field(actor)
            + enc_field(host),
        EventView::ActorUpdateComplete { actor, success, host } => enc_field(event_tag(v))
            + enc_field(actor) + enc_bool(success) + enc_field(host),
        EventView::ProviderLoaded { capid, instance_name, host } => enc_field(event_tag(v))
            + enc_field(capid) + enc_field(instance_name) + enc_field(host),
        EventView::ProviderRemoved { capid, instance_name, host } => enc_field(event_tag(v))
            + enc_field(capid) + enc_field(instance_name) + enc_field(host),
        EventView::ActorBindingCreated { host, actor, capid, instance_name } => enc_field(
            event_tag(v),
        ) + enc_field(host) + enc_field(actor) + enc_field(capid) + enc_field(instance_name),
        EventView::ActorBindingRemoved { host, actor, capid, instance_name } => enc_field(
            event_tag(v),
        ) + enc_field(host) + enc_field(actor) + enc_field(capid) + enc_field(instance_name),
        EventView::ActorBecameHealthy { actor, host } => enc_field(event_tag(v)) + enc_field(actor)
            + enc_field(host),
        EventView::ActorBecameUnhealthy { actor, host } => enc_field(event_tag(v)) + enc_field(
            actor,
        ) + enc_field(host),
        EventView::UnknownEvent(raw) => raw,
    }
}

/// Parses the one remaining field of a payload; nothing may follow it.
pub open spec fn parse1(s: Seq<char>) -> Option<Seq<char>> {
    match parse_field(s) {
        Some(p) => if p.1.len() == 0 {
            Some(p.0)
        } else {
            None
        },
        None => None,
    }
}

/// Parses the two remaining fields of a payload; nothing may follow them.
pub open spec fn parse2(s: Seq<char>) -> Option<(Seq<char>, Seq<char>)> {
    match parse_field(s) {
        Some(p) => match parse1(p.1) {
            Some(b) => Some((p.0, b)),
            None => None,
        },
        None => None,
    }
}

/// Parses the three remaining fields of a payload; nothing may follow them.
pub open spec fn parse3(s: Seq<char>) -> Option<(Seq<char>, Seq<char>, Seq<char>)> {
    match parse_field(s) {
        Some(p) => match parse2(p.1) {
            Some(q) => Some((p.0, q.0, q.1)),
            None => None,
        },
        None => None,
    }
}

/// Parses the four remaining fields of a payload; nothing may follow them.
pub open spec fn parse4(s: Seq<char>) -> Option<(Seq<char>, Seq<char>, Seq<char>, Seq<char>)> {
    match parse_field(s) {
        Some(p) => match parse3(p.1) {
            Some(q) => Some((p.0, q.0, q.1, q.2)),
            None => None,
        },
        None => None,
    }
}

/// Parses a boolean field off the front of a payload.
pub open spec fn parse_bool(s: Seq<char>) -> Option<(bool, Seq<char>)> {
    match parse_field(s) {
        Some(p) => if p.0 == "true"@ {
            Some((true, p.1))
        } else if p.0 == "false"@ {
            Some((false, p.1))
        } else {
            None
        },
        None => None,
    }
}

/// Parses the field, boolean, field shape of an update-complete payload.
pub open spec fn parse_fbf(s: Seq<char>) -> Option<(Seq<char>, bool, Seq<char>)> {
    match parse_field(s) {
        Some(p) => match parse_bool(p.1) {
            Some(q) => match parse1(q.1) {
                Some(h) => Some((p.0, q.0, h)),
                None => None,
            },
            None => None,
        },
        None => None,
    }
}

/// Decodes a framed payload back into an event. A payload without a leading
/// field is malformed; a payload with an unknown tag is kept whole as an
/// unknown event; a known tag whose fields do not parse exactly is malformed.
pub open spec fn decode_event(s: Seq<char>) -> Option<EventView> {
    match parse_field(s) {
        None => None,
        Some(tp) => {
            let tag = tp.0;
            let rest = tp.1;
            if tag == "host_started"@ {
                match parse1(rest) {
                    Some(h) => Some(EventView::HostStarted(h)),
                    None => None,
                }
            } else if tag == "host_stopped"@ {
                match parse1(rest) {
                    Some(h) => Some(EventView::HostStopped(h)),
                    None => None,
                }
            } else if tag == "actor_starting"@ {
                match parse2(rest) {
                    Some(p) => Some(EventView::ActorStarting { actor: p.0, host: p.1 }),
                    None => None,
                }
            } else if tag == "actor_started"@ {
                match parse2(rest) {
                    Some(p) => Some(EventView::ActorStarted { actor: p.0, host: p.1 }),
                    None => None,
                }
            } else if tag == "actor_stopped"@ {
                match parse2(rest) {
                    Some(p) => Some(EventView::ActorStopped { actor: p.0, host: p.1 }),
                    None => None,
                }
            } else if tag == "actor_updating"@ {
                match parse2(rest) {
                    Some(p) => Some(EventView::ActorUpdating { actor: p.0, host: p.1 }),
                    None => None,
                }
            } else if tag == "actor_update_complete"@ {
                match parse_fbf(rest) {
                    Some(p) => Some(EventView::ActorUpdateComplete {
                        actor: p.0,
                        success: p.1,
                        host: p.2,
                    }),
                    None => None,
                }
            } else if tag == "provider_loaded"@ {
                match parse3(rest) {
                    Some(p) => Some(EventView::ProviderLoaded {
                        capid: p.0,
                        instance_name: p.1,
                        host: p.2,
                    }),
                    None => None,
                }
            } else if tag == "provider_removed"@ {
                match parse3(rest) {
                    Some(p) => Some(EventView::ProviderRemoved {
                        capid: p.0,
                        instance_name: p.1,
                        host: p.2,
                    }),
                    None => None,
                }
            } else if tag == "actor_binding_created"@ {
                match parse4(rest) {
                    Some(p) => Some(EventView::ActorBindingCreated {
                        host: p.0,
                        actor: p.1,
                        capid: p.2,
                        instance_name: p.3,
                    }),
                    None => None,
                }
            } else if tag == "actor_binding_removed"@ {
                match parse4(rest) {
                    Some(p) => Some(EventView::ActorBindingRemoved {
                        host: p.0,
                        actor: p.1,
                        capid: p.2,
                        instance_name: p.3,
                    }),
                    None => None,
                }
            } else if tag == "actor_became_healthy"@ {
                match parse2(rest) {
                    Some(p) => Some(EventView::ActorBecameHealthy { actor: p.0, host: p.1 }),
                    None => None,
                }
            } else if tag == "actor_became_unhealthy"@ {
                match parse2(rest) {
                    Some(p) => Some(EventView::ActorBecameUnhealthy { actor: p.0, host: p.1 }),
                    None => None,
                }
            } else {
                Some(EventView::UnknownEvent(s))
            }
        },
    }
}

/// A well-formed event. Every known variant is well formed; an unknown event
/// is well formed when its raw payload is a tagged frame whose tag really is
/// unknown, which is the only shape the decoder ever produces.
pub open spec fn event_wf(v: EventView) -> bool {
    match v {
        EventView::UnknownEvent(raw) => match parse_field(raw) {
            Some(p) => !known_tag(p.0),
            None => false,
        },
        _ => true,
    }
}


/// The dotted event-type name carried in an envelope: the fixed prefix plus
/// the variant's tag.
pub open spec fn event_type_view(v: EventView) -> Seq<char> {
    "wasmbus.events."@ + event_tag(v)
}

/// The routing subject derived from an event's identifying fields: host
/// events route by host id, actor events by actor id, provider events by
/// `<capability-id>.<instance-name>`, binding events by
/// `<actor-id>.<capability-id>.<instance-name>`. An unknown event has no
/// identifying fields and routes by the empty subject.
pub open spec fn event_subject_view(v: EventView) -> Seq<char> {
    match v {
        EventView::HostStarted(h) => h,
        EventView::HostStopped(h) => h,
        EventView::ActorStarting { actor, .. } => actor,
        EventView::ActorStarted { actor, .. } => actor,
        EventView::ActorStopped { actor, .. } => actor,
        EventView::ActorUpdating { actor, .. } => actor,
        EventView::ActorUpdateComplete { actor, .. } => actor,
        EventView::ProviderLoaded { capid, instance_name, .. } => capid + "."@ + instance_name,
        EventView::ProviderRemoved { capid, instance_name, .. } => capid + "."@ + instance_name,
        EventView::ActorBindingCreated { actor, capid, instance_name, .. } => actor + "."@ + capid
            + "."@ + instance_name,
        EventView::ActorBindingRemoved { actor, capid, instance_name, .. } => actor + "."@ + capid
            + "."@ + instance_name,
        EventView::ActorBecameHealthy { actor, .. } => actor,
        EventView::ActorBecameUnhealthy { actor, .. } => actor,
        EventView::UnknownEvent(_) => Seq::empty(),
    }
}

/// Decoding is the exact inverse of encoding: every well-formed event comes
/// back unchanged from its framed payload. This holds for each known variant
/// on all field values, and for unknown events whose payload carries an
/// unknown tag.
pub proof fn lemma_event_codec_round_trip(v: EventView)
    requires
        event_wf(v),
    ensures
        decode_event(encode_event(v)) == Some(v),
{
    reveal_strlit("host_started");
    reveal_strlit("host_stopped");
    reveal_strlit("actor_starting");
    reveal_strlit("actor_started");
    reveal_strlit("actor_stopped");
    reveal_strlit("actor_updating");
    reveal_strlit("actor_update_complete");
    reveal_strlit("provider_loaded");
    reveal_strlit("provider_removed");
    reveal_strlit("actor_binding_created");
    reveal_strlit("actor_binding_removed");
    reveal_strlit("actor_became_healthy");
    reveal_strlit("actor_became_unhealthy");
    reveal_strlit("true");
    reveal_strlit("false");
    lemma_tags_distinct();
    let e = encode_event(v);
    let empty = Seq::<char>::empty();
    match v {
        EventView::HostStarted(h) => {
            lemma_parse_enc_field(event_tag(v), enc_field(h));
            lemma_parse_enc_field(h, empty);
            assert(enc_field(h) + empty =~= enc_field(h));
        },
        EventView::HostStopped(h) => {
            lemma_parse_enc_field(event_tag(v), enc_field(h));
            lemma_parse_enc_field(h, empty);
            assert(enc_field(h) + empty =~= enc_field(h));
        },
        EventView::ActorStarting { actor, host } => {
            lemma_round_trip_two(event_tag(v), actor, host, e);
        },
        EventView::ActorStarted { actor, host } => {
            lemma_round_trip_two(event_tag(v), actor, host, e);
        },
        EventView::ActorStopped { actor, host } => {
            lemma_round_trip_two(event_tag(v), actor, host, e);
        },
        EventView::ActorUpdating { actor, host } => {
            lemma_round_trip_two(event_tag(v), actor, host, e);
        },
        EventView::ActorBecameHealthy { actor, host } => {
            lemma_round_trip_two(event_tag(v), actor, host, e);
        },
        EventView::ActorBecameUnhealthy { actor, host } => {
            lemma_round_trip_two(event_tag(v), actor, host, e);
        },
        EventView::ActorUpdateComplete { actor, success, host } => {
            let flag: Seq<char> = if success {
                "true"@
            } else {
                "false"@
            };
            assert(e =~= enc_field(event_tag(v)) + (enc_field(actor) + (enc_field(flag)
                + enc_field(host))));
            lemma_parse_enc_field(event_tag(v), enc_field(actor) + (enc_field(flag) + enc_field(
                host,
            )));
            lemma_parse_enc_field(actor, enc_field(flag) + enc_field(host));
            lemma_parse_enc_field(flag, enc_field(host));
            lemma_parse_enc_field(host, empty);
            assert(enc_field(host) + empty =~= enc_field(host));
        },
        EventView::ProviderLoaded { capid, instance_name, host } => {
            lemma_round_trip_three(event_tag(v), capid, instance_name, host, e);
        },
        EventView::ProviderRemoved { capid, instance_name, host } => {
            lemma_round_trip_three(event_tag(v), capid, instance_name, host, e);
        },
        EventView::ActorBindingCreated { host, actor, capid, instance_name } => {
            lemma_round_trip_four(event_tag(v), host, actor, capid, instance_name, e);
        },
        EventView::ActorBindingRemoved { host, actor, capid, instance_name } => {
            lemma_round_trip_four(event_tag(v), host, actor, capid, instance_name, e);
        },
        EventView::UnknownEvent(_) => {},
    }
}

/// Parsing steps shared by the two-field variants.
proof fn lemma_round_trip_two(tag: Seq<char>, a: Seq<char>, b: Seq<char>, e: Seq<char>)
    requires
        e == enc_field(tag) + enc_field(a) + enc_field(b),
    ensures
        parse_field(e) == Some((tag, enc_field(a) + enc_field(b))),
        parse2(enc_field(a) + enc_field(b)) == Some((a, b)),
{
    let empty = Seq::<char>::empty();
    assert(e =~= enc_field(tag) + (enc_field(a) + enc_field(b)));
    lemma_parse_enc_field(tag, enc_field(a) + enc_field(b));
    lemma_parse_enc_field(a, enc_field(b));
    lemma_parse_enc_field(b, empty);
    assert(enc_field(b) + empty =~= enc_field(b));
}

/// Parsing steps shared by the three-field variants.
proof fn lemma_round_trip_three(
    tag: Seq<char>,
    a: Seq<char>,
    b: Seq<char>,
    c: Seq<char>,
    e: Seq<char>,
)
    requires
        e == enc_field(tag) + enc_field(a) + enc_field(b) + enc_field(c),
    ensures
        parse_field(e) == Some((tag, enc_field(a) + enc_field(b) + enc_field(c))),
        parse3(enc_field(a) + enc_field(b) + enc_field(c)) == Some((a, b, c)),
{
    let empty = Seq::<char>::empty();
    let rest = enc_field(a) + enc_field(b) + enc_field(c);
    assert(e =~= enc_field(tag) + rest);
    lemma_parse_enc_field(tag, rest);
    assert(rest =~= enc_field(a) + (enc_field(b) + enc_field(c)));
    lemma_parse_enc_field(a, enc_field(b) + enc_field(c));
    lemma_parse_enc_field(b, enc_field(c));
    lemma_parse_enc_field(c, empty);
    assert(enc_field(c) + empty =~= enc_field(c));
}

/// Parsing steps shared by the four-field variants.
proof fn lemma_round_trip_four(
    tag: Seq<char>,
    a: Seq<char>,
    b: Seq<char>,
    c: Seq<char>,
    d: Seq<char>,
    e: Seq<char>,
)
    requires
        e == enc_field(tag) + enc_field(a) + enc_field(b) + enc_field(c) + enc_field(d),
    ensures
        parse_field(e) == Some((tag, enc_field(a) + enc_field(b) + enc_field(c) + enc_field(d))),
        parse4(enc_field(a) + enc_field(b) + enc_field(c) + enc_field(d)) == Some((a, b, c, d)),
{
    let empty = Seq::<char>::empty();
    let rest = enc_field(a) + enc_field(b) + enc_field(c) + enc_field(d);
    assert(e =~= enc_field(tag) + rest);
    lemma_parse_enc_field(tag, rest);
    assert(rest =~= enc_field(a) + (enc_field(b) + enc_field(c) + enc_field(d)));
    lemma_parse_enc_field(a, enc_field(b) + enc_field(c) + enc_field(d));
    assert(enc_field(b) + enc_field(c) + enc_field(d) =~= enc_field(b) + (enc_field(c)
        + enc_field(d)));
    lemma_parse_enc_field(b, enc_field(c) + enc_field(d));
    lemma_parse_enc_field(c, enc_field(d));
    lemma_parse_enc_field(d, empty);
    assert(enc_field(d) + empty =~= enc_field(d));
}


/// The tags that share a length differ at a witness position; together with
/// their lengths this makes all variant tags pairwise distinct.
proof fn lemma_tags_distinct()
    ensures
        "host_started"@ != "host_stopped"@,
        "actor_started"@ != "actor_stopped"@,
        "actor_starting"@ != "actor_updating"@,
        "actor_update_complete"@ != "actor_binding_created"@,
        "actor_update_complete"@ != "actor_binding_removed"@,
        "actor_binding_created"@ != "actor_binding_removed"@,
{
    reveal_strlit("host_started");
    reveal_strlit("host_stopped");
    reveal_strlit("actor_started");
    reveal_strlit("actor_stopped");
    reveal_strlit("actor_starting");
    reveal_strlit("actor_updating");
    reveal_strlit("actor_update_complete");
    reveal_strlit("actor_binding_created");
    reveal_strlit("actor_binding_removed");
    assert("host_started"@[7] == 'a' && "host_stopped"@[7] == 'o');
    assert("actor_started"@[8] == 'a' && "actor_stopped"@[8] == 'o');
    assert("actor_starting"@[6] == 's' && "actor_updating"@[6] == 'u');
    assert("actor_update_complete"@[6] == 'u' && "actor_binding_created"@[6] == 'b'
        && "actor_binding_removed"@[6] == 'b');
    assert("actor_binding_created"@[14] == 'c' && "actor_binding_removed"@[14] == 'r');
}


/// Exact string comparison against a literal.
fn str_is(a: &String, lit: &str) -> (r: bool)
    ensures
        r == (a@ == lit@),
{
    let b = String::from_str(lit);
    *a == b
}

/// The decode error returned for a payload that does not fit any known shape.
fn malformed_payload() -> (r: LatticeError)
    ensures
        r matches LatticeError::Decode(_),
{
    LatticeError::Decode(String::from_str("malformed event payload"))
}

/// Takes the final field of the frame; nothing may follow it.
fn take1(v: &Vec<char>, j: usize) -> (r: Option<String>)
    requires
        j <= v.len(),
    ensures
        match r {
            Some(a) => parse1(v@.skip(j as int)) == Some(a@),
            None => parse1(v@.skip(j as int)) is None,
        },
{
    match parse_field_at(v, j) {
        Some((f, k)) => {
            if k == v.len() {
                proof {
                    assert(v@.skip(k as int) =~= Seq::<char>::empty());
                }
                Some(chars_to_string(&f))
            } else {
                proof {
                    assert(v@.skip(k as int).len() > 0);
                }
                None
            }
        },
        None => None,
    }
}

/// Takes the final two fields of the frame.
fn take2(v: &Vec<char>, j: usize) -> (r: Option<(String, String)>)
    requires
        j <= v.len(),
    ensures
        match r {
            Some(p) => parse2(v@.skip(j as int)) == Some((p.0@, p.1@)),
            None => parse2(v@.skip(j as int)) is None,
        },
{
    match parse_field_at(v, j) {
        Some((f, k)) => match take1(v, k) {
            Some(b) => Some((chars_to_string(&f), b)),
            None => None,
        },
        None => None,
    }
}

/// Takes the final three fields of the frame.
fn take3(v: &Vec<char>, j: usize) -> (r: Option<(String, String, String)>)
    requires
        j <= v.len(),
    ensures
        match r {
            Some(p) => parse3(v@.skip(j as int)) == Some((p.0@, p.1@, p.2@)),
            None => parse3(v@.skip(j as int)) is None,
        },
{
    match parse_field_at(v, j) {
        Some((f, k)) => match take2(v, k) {
            Some(p) => Some((chars_to_string(&f), p.0, p.1)),
            None => None,
        },
        None => None,
    }
}

/// Takes the final four fields of the frame.
fn take4(v: &Vec<char>, j: usize) -> (r: Option<(String, String, String, String)>)
    requires
        j <= v.len(),
    ensures
        match r {
            Some(p) => parse4(v@.skip(j as int)) == Some((p.0@, p.1@, p.2@, p.3@)),
            None => parse4(v@.skip(j as int)) is None,
        },
{
    match parse_field_at(v, j) {
        Some((f, k)) => match take3(v, k) {
            Some(p) => Some((chars_to_string(&f), p.0, p.1, p.2)),
            None => None,
        },
        None => None,
    }
}

/// Takes a boolean field off the front of the frame.
fn take_bool(v: &Vec<char>, j: usize) -> (r: Option<(bool, usize)>)
    requires
        j <= v.len(),
    ensures
        match r {
            Some(p) => {
                &&& j < p.1 <= v@.len()
                &&& parse_bool(v@.skip(j as int)) == Some((p.0, v@.skip(p.1 as int)))
            },
            None => parse_bool(v@.skip(j as int)) is None,
        },
{
    match parse_field_at(v, j) {
        Some((f, k)) => {
            let fs = chars_to_string(&f);
            if str_is(&fs, "true") {
                Some((true, k))
            } else if str_is(&fs, "false") {
                Some((false, k))
            } else {
                None
            }
        },
        None => None,
    }
}

/// Takes the final field, boolean, field run of an update-complete payload.
fn take_fbf(v: &Vec<char>, j: usize) -> (r: Option<(String, bool, String)>)
    requires
        j <= v.len(),
    ensures
        match r {
            Some(p) => parse_fbf(v@.skip(j as int)) == Some((p.0@, p.1, p.2@)),
            None => parse_fbf(v@.skip(j as int)) is None,
        },
{
    match parse_field_at(v, j) {
        Some((f, k)) => match take_bool(v, k) {
            Some((b, m)) => match take1(v, m) {
                Some(h) => Some((chars_to_string(&f), b, h)),
                None => None,
            },
            None => None,
        },
        None => None,
    }
}

impl BusEvent {
    /// The dotted type name of this event, stable across payload changes:
    /// the fixed prefix plus the variant's tag.
    pub fn event_type(&self) -> (r: String)
        ensures
            r@ == event_type_view(self@),
    {
        let mut s = String::from_str("wasmbus.events.");
        match self {
            BusEvent::HostStarted(_) => s.append("host_started"),
            BusEvent::HostStopped(_) => s.append("host_stopped"),
            BusEvent::ActorStarting { .. } => s.append("actor_starting"),
            BusEvent::ActorStarted { .. } => s.append("actor_started"),
            BusEvent::ActorStopped { .. } => s.append("actor_stopped"),
            BusEvent::ActorUpdating { .. } => s.append("actor_updating"),
            BusEvent::ActorUpdateComplete { .. } => s.append("actor_update_complete"),
            BusEvent::ProviderLoaded { .. } => s.append("provider_loaded"),
            BusEvent::ProviderRemoved { .. } => s.append("provider_removed"),
            BusEvent::ActorBindingCreated { .. } => s.append("actor_binding_created"),
            BusEvent::ActorBindingRemoved { .. } => s.append("actor_binding_removed"),
            BusEvent::ActorBecameHealthy { .. } => s.append("actor_became_healthy"),
            BusEvent::ActorBecameUnhealthy { .. } => s.append("actor_became_unhealthy"),
            BusEvent::UnknownEvent(_) => s.append("unknown_event"),
        }
        s
    }

    /// The routing subject of this event, derived from its identifying
    /// fields as the routing table of the protocol prescribes.
    pub fn subject(&self) -> (r: String)
        ensures
            r@ == event_subject_view(self@),
    {
        match self {
            BusEvent::HostStarted(h) => h.clone(),
            BusEvent::HostStopped(h) => h.clone(),
            BusEvent::ActorStarting { actor, .. } => actor.clone(),
            BusEvent::ActorStarted { actor, .. } => actor.clone(),
            BusEvent::ActorStopped { actor, .. } => actor.clone(),
            BusEvent::ActorUpdating { actor, .. } => actor.clone(),
            BusEvent::ActorUpdateComplete { actor, .. } => actor.clone(),
            BusEvent::ProviderLoaded { capid, instance_name, .. } => {
                let mut s = capid.clone();
                s.append(".");
                s.append(instance_name.as_str());
                s
            },
            BusEvent::ProviderRemoved { capid, instance_name, .. } => {
                let mut s = capid.clone();
                s.append(".");
                s.append(instance_name.as_str());
                s
            },
            BusEvent::ActorBindingCreated { actor, capid, instance_name, .. } => {
                let mut s = actor.clone();
                s.append(".");
                s.append(capid.as_str());
                s.append(".");
                s.append(instance_name.as_str());
                s
            },
            BusEvent::ActorBindingRemoved { actor, capid, instance_name, .. } => {
                let mut s = actor.clone();
                s.append(".");
                s.append(capid.as_str());
                s.append(".");
                s.append(instance_name.as_str());
                s
            },
            BusEvent::ActorBecameHealthy { actor, .. } => actor.clone(),
            BusEvent::ActorBecameUnhealthy { actor, .. } => actor.clone(),
            BusEvent::UnknownEvent(_) => String::new(),
        }
    }

    /// Encodes this event into its framed payload.
    pub fn encode(&self) -> (r: String)
        ensures
            r@ == encode_event(self@),
    {
        let mut out: Vec<char> = Vec::new();
        match self {
            BusEvent::HostStarted(h) => {
                append_enc_field(&mut out, "host_started");
                append_enc_field(&mut out, h.as_str());
            },
            BusEvent::HostStopped(h) => {
                append_enc_field(&mut out, "host_stopped");
                append_enc_field(&mut out, h.as_str());
            },
            BusEvent::ActorStarting { actor, host } => {
                append_enc_field(&mut out, "actor_starting");
                append_enc_field(&mut out, actor.as_str());
                append_enc_field(&mut out, host.as_str());
            },
            BusEvent::ActorStarted { actor, host } => {
                append_enc_field(&mut out, "actor_started");
                append_enc_field(&mut out, actor.as_str());
                append_enc_field(&mut out, host.as_str());
            },
            BusEvent::ActorStopped { actor, host } => {
                append_enc_field(&mut out, "actor_stopped");
                append_enc_field(&mut out, actor.as_str());
                append_enc_field(&mut out, host.as_str());
            },
            BusEvent::ActorUpdating { actor, host } => {
                append_enc_field(&mut out, "actor_updating");
                append_enc_field(&mut out, actor.as_str());
                append_enc_field(&mut out, host.as_str());
            },
            BusEvent::ActorUpdateComplete { actor, success, host } => {
                append_enc_field(&mut out, "actor_update_complete");
                append_enc_field(&mut out, actor.as_str());
                if *success {
                    append_enc_field(&mut out, "true");
                } else {
                    append_enc_field(&mut out, "false");
                }
                append_enc_field(&mut out, host.as_str());
            },
            BusEvent::ProviderLoaded { capid, instance_name, host } => {
                append_enc_field(&mut out, "provider_loaded");
                append_enc_field(&mut out, capid.as_str());
                append_enc_field(&mut out, instance_name.as_str());
                append_enc_field(&mut out, host.as_str());
            },
            BusEvent::ProviderRemoved { capid, instance_name, host } => {
                append_enc_field(&mut out, "provider_removed");
                append_enc_field(&mut out, capid.as_str());
                append_enc_field(&mut out, instance_name.as_str());
                append_enc_field(&mut out, host.as_str());
            },
            BusEvent::ActorBindingCreated { host, actor, capid, instance_name } => {
                append_enc_field(&mut out, "actor_binding_created");
                append_enc_field(&mut out, host.as_str());
                append_enc_field(&mut out, actor.as_str());
                append_enc_field(&mut out, capid.as_str());
                append_enc_field(&mut out, instance_name.as_str());
            },
            BusEvent::ActorBindingRemoved { host, actor, capid, instance_name } => {
                append_enc_field(&mut out, "actor_binding_removed");
                append_enc_field(&mut out, host.as_str());
                append_enc_field(&mut out, actor.as_str());
                append_enc_field(&mut out, capid.as_str());
                append_enc_field(&mut out, instance_name.as_str());
            },
            BusEvent::ActorBecameHealthy { actor, host } => {
                append_enc_field(&mut out, "actor_became_healthy");
                append_enc_field(&mut out, actor.as_str());
                append_enc_field(&mut out, host.as_str());
            },
            BusEvent::ActorBecameUnhealthy { actor, host } => {
                append_enc_field(&mut out, "actor_became_unhealthy");
                append_enc_field(&mut out, actor.as_str());
                append_enc_field(&mut out, host.as_str());
            },
            BusEvent::UnknownEvent(raw) => {
                return raw.clone();
            },
        }
        proof {
            assert(out@ =~= encode_event(self@));
        }
        chars_to_string(&out)
    }

    /// Decodes a framed payload. A payload with an unknown leading tag comes
    /// back whole as an unknown event; a payload without a leading field, or
    /// with a known tag whose fields do not parse exactly, is a decode error.
    pub fn decode(s: &str) -> (r: Result<BusEvent, LatticeError>)
        ensures
            match decode_event(s@) {
                Some(v) => r matches Ok(e) && e@ == v,
                None => r matches Err(LatticeError::Decode(_)),
            },
    {
        let chars = str_to_chars(s);
        proof {
            assert(chars@.skip(0) =~= s@);
        }
        match parse_field_at(&chars, 0) {
            None => Err(malformed_payload()),
            Some((tagv, j)) => {
                let tag = chars_to_string(&tagv);
                if str_is(&tag, "host_started") {
                    match take1(&chars, j) {
                        Some(h) => Ok(BusEvent::HostStarted(h)),
                        None => Err(malformed_payload()),
                    }
                } else if str_is(&tag, "host_stopped") {
                    match take1(&chars, j) {
                        Some(h) => Ok(BusEvent::HostStopped(h)),
                        None => Err(malformed_payload()),
                    }
                } else if str_is(&tag, "actor_starting") {
                    match take2(&chars, j) {
                        Some(p) => Ok(BusEvent::ActorStarting { actor: p.0, host: p.1 }),
                        None => Err(malformed_payload()),
                    }
                } else if str_is(&tag, "actor_started") {
                    match take2(&chars, j) {
                        Some(p) => Ok(BusEvent::ActorStarted { actor: p.0, host: p.1 }),
                        None => Err(malformed_payload()),
                    }
                } else if str_is(&tag, "actor_stopped") {
                    match take2(&chars, j) {
                        Some(p) => Ok(BusEvent::ActorStopped { actor: p.0, host: p.1 }),
                        None => Err(malformed_payload()),
                    }
                } else if str_is(&tag, "actor_updating") {
                    match take2(&chars, j) {
                        Some(p) => Ok(BusEvent::ActorUpdating { actor: p.0, host: p.1 }),
                        None => Err(malformed_payload()),
                    }
                } else if str_is(&tag, "actor_update_complete") {
                    match take_fbf(&chars, j) {
                        Some(p) => Ok(BusEvent::ActorUpdateComplete {
                            actor: p.0,
                            success: p.1,
                            host: p.2,
                        }),
                        None => Err(malformed_payload()),
                    }
                } else if str_is(&tag, "provider_loaded") {
                    match take3(&chars, j) {
                        Some(p) => Ok(BusEvent::ProviderLoaded {
                            capid: p.0,
                            instance_name: p.1,
                            host: p.2,
                        }),
                        None => Err(malformed_payload()),
                    }
                } else if str_is(&tag, "provider_removed") {
                    match take3(&chars, j) {
                        Some(p) => Ok(BusEvent::ProviderRemoved {
                            capid: p.0,
                            instance_name: p.1,
                            host: p.2,
                        }),
                        None => Err(malformed_payload()),
                    }
                } else if str_is(&tag, "actor_binding_created") {
                    match take4(&chars, j) {
                        Some(p) => Ok(BusEvent::ActorBindingCreated {
                            host: p.0,
                            actor: p.1,
                            capid: p.2,
                            instance_name: p.3,
                        }),
                        None => Err(malformed_payload()),
                    }
                } else if str_is(&tag, "actor_binding_removed") {
                    match take4(&chars, j) {
                        Some(p) => Ok(BusEvent::ActorBindingRemoved {
                            host: p.0,
                            actor: p.1,
                            capid: p.2,
                            instance_name: p.3,
                        }),
                        None => Err(malformed_payload()),
                    }
                } else if str_is(&tag, "actor_became_healthy") {
                    match take2(&chars, j) {
                        Some(p) => Ok(BusEvent::ActorBecameHealthy { actor: p.0, host: p.1 }),
                        None => Err(malformed_payload()),
                    }
                } else if str_is(&tag, "actor_became_unhealthy") {
                    match take2(&chars, j) {
                        Some(p) => Ok(BusEvent::ActorBecameUnhealthy { actor: p.0, host: p.1 }),
                        None => Err(malformed_payload()),
                    }
                } else {
                    Ok(BusEvent::UnknownEvent(s.to_owned()))
                }
            },
        }
    }
}

} // verus!
