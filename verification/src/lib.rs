//! Client-side protocol layer for a lattice of worker hosts coordinating over
//! a shared message bus.
//!
//! The crate holds the verified core of the protocol: the subject-naming
//! scheme, the control-plane request, command and acknowledgement types, the
//! lifecycle-event model with its envelope codec, and the client-side
//! aggregation rules for fan-out probes and placement auctions. Transport
//! (connecting to a broker, publishing, subscribing) is left to the caller,
//! which hands this crate plain values and gets plain values back.

pub mod assoc;
pub mod codec;
pub mod constraints;
pub mod controlplane;
pub mod envelope;
pub mod errors;
pub mod events;
pub mod inventory;
pub mod subject;
