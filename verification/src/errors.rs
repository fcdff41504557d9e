//! The error taxonomy shared by the transport, the codec, the device
//! controller and the state broker.

use vstd::prelude::*;

verus! {

/// Every failure the engine can report.
///
/// Transport failures come from the byte link, protocol failures from
/// validating what the device sent back, and the last two from requests the
/// engine refuses before any byte is exchanged.
#[derive(Clone, Copy, Debug, PartialEq, Eq, Structural)]
pub enum AmpError {
    /// The serial link could not be opened.
    TransportOpenError,
    /// A read did not collect the requested bytes within the timeout.
    TransportTimeout,
    /// A write sent fewer bytes than the frame holds; it is not retried,
    /// since resending a partial frame would desynchronize the device.
    TransportShortWrite,
    /// A status response did not start with the magic header bytes.
    ProtocolUnexpectedHeader,
    /// An echo-acknowledged command came back with different bytes.
    ProtocolUnexpectedEcho,
    /// The operation has no known wire command (for example `mute`).
    UnsupportedOperation,
    /// The action string is outside the known action set.
    UnknownAction,
}

} // verus!
