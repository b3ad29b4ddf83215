//! The versioned, self-describing envelope that carries one lifecycle event
//! over any publish/subscribe channel.
//!
//! An envelope is constructed once, at publish time, from a [`BusEvent`]; it
//! stamps a globally unique id and the current UTC time, fixes its version
//! and content-type markers for forward-compatibility checks by subscribers,
//! and derives its routing subject and framed payload from the event. Every
//! subscriber opens envelopes independently and discards them after delivery.

use vstd::prelude::*;
use vstd::string::*;

use crate::errors::LatticeError;
use crate::events::{
    decode_event, encode_event, event_subject_view, event_type_view, BusEvent,
};

verus! {

/// The content-type marker of the framed payloads this client writes and
/// reads. An envelope with any other marker is not opened.
pub open spec fn content_type_marker() -> Seq<char> {
    "application/vnd.wasmbus.event"@
}

/// An envelope for one event: versioning, identity, timing and routing
/// metadata around a serialized [`BusEvent`].
#[derive(Debug, Clone, PartialEq, Eq)]
pub struct CloudEvent {
    pub cloud_events_version: String,
    pub event_type: String,
    pub event_type_version: String,
    pub source: String,
    pub event_id: String,
    pub event_time: String,
    pub content_type: String,
    pub subject: Option<String>,
    pub data: String,
}

/// Relies on uuid's `Uuid::new_v4`, rendered through its `hyphenated`
/// formatter: a fresh random identifier of exactly 36 characters.
#[verifier::external_body]
fn fresh_event_id() -> (r: String)
    ensures
        r@.len() == 36,
{
    uuid::Uuid::new_v4().hyphenated().to_string()
}

/// Relies on chrono's `Utc::now`, rendered through `DateTime::to_rfc3339`:
/// the current UTC time. Nothing is assumed of the clock's reading.
#[verifier::external_body]
fn now_rfc3339() -> (r: String) {
    chrono::Utc::now().to_rfc3339()
}

impl CloudEvent {
    /// Wraps one event: a one-way conversion performed at publish time. The
    /// spec version, type version, source and content type are constants; the
    /// type name, routing subject and payload are derived from the event; the
    /// id is freshly drawn and the timestamp freshly read.
    pub fn wrap(event: &BusEvent) -> (r: CloudEvent)
        ensures
            r.cloud_events_version@ == "1.0"@,
            r.event_type@ == event_type_view(event@),
            r.event_type_version@ == "0.1"@,
            r.source@ == "https://wascc.dev/lattice/events"@,
            r.event_id@.len() == 36,
            r.content_type@ == content_type_marker(),
            r.subject matches Some(s) && s@ == event_subject_view(event@),
            r.data@ == encode_event(event@),
    {
        CloudEvent {
            cloud_events_version: String::from_str("1.0"),
            event_type: event.event_type(),
            event_type_version: String::from_str("0.1"),
            source: String::from_str("https://wascc.dev/lattice/events"),
            event_id: fresh_event_id(),
            event_time: now_rfc3339(),
            content_type: String::from_str("application/vnd.wasmbus.event"),
            subject: Some(event.subject()),
            data: event.encode(),
        }
    }

    /// Opens an envelope: an unrecognized content type is a decode error;
    /// otherwise the framed payload decodes exactly as
    /// [`decode_event`] prescribes, so opening a wrapped envelope always
    /// yields the event that was wrapped.
    pub fn unwrap(&self) -> (r: Result<BusEvent, LatticeError>)
        ensures
            self.content_type@ != content_type_marker() ==> r matches Err(
                LatticeError::Decode(_),
            ),
            self.content_type@ == content_type_marker() ==> match decode_event(self.data@) {
                Some(v) => r matches Ok(e) && e@ == v,
                None => r matches Err(LatticeError::Decode(_)),
            },
    {
        let marker = String::from_str("application/vnd.wasmbus.event");
        if self.content_type == marker {
            BusEvent::decode(self.data.as_str())
        } else {
            Err(LatticeError::Decode(String::from_str("unrecognized content type")))
        }
    }
}

} // verus!
