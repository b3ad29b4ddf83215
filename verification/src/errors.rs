//! The error taxonomy of the protocol layer.

use vstd::prelude::*;

use crate::controlplane::LaunchAck;

verus! {

/// Everything that can go wrong in a client-side protocol operation.
///
/// `Transport` is a connection, publish or subscribe failure reported by the
/// transport layer; it is fatal to the calling operation. `Decode` means a
/// payload did not match the expected schema. `AckMismatch` carries an
/// acknowledgement whose identifiers did not correlate to the command that was
/// sent. `Timeout` is returned when a directly addressed command saw no reply
/// within its window; fan-out operations never produce it, they simply return
/// what accumulated before the deadline.
#[derive(Debug, Clone, PartialEq, Eq)]
pub enum LatticeError {
    Transport(String),
    Decode(String),
    AckMismatch(LaunchAck),
    Timeout,
}

} // verus!
