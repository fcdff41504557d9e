//! The transport channel: byte-exact framing over one half-duplex link.
//!
//! The wire protocol carries no correlation identifier, so two interleaved
//! frames would be indistinguishable from one corrupted frame.  The
//! discipline that prevents this is part of the contract: a frame may only
//! be written while the link is ready (no response outstanding), and a read
//! always returns the link to the ready state — on timeout the accumulated
//! bytes are discarded and the stream must be considered suspect.

use vstd::prelude::*;

use crate::errors::AmpError;

verus! {

/// Byte-exact read/write over the physical link.
///
/// `ready` is true when no response is outstanding; `reply` is the byte
/// sequence the link would currently deliver to a reader.  Every operation
/// of the engine holds the link for a full write/read cycle, so `ready`
/// holds between operations.
pub trait Transport {
    /// No response is outstanding on the link.
    ///
    /// The default says the link is always ready: it fits a transport that
    /// keeps no model of its own state, such as one wrapping a raw port
    /// outside the verifier's view.
    open spec fn ready(&self) -> bool {
        true
    }

    /// The bytes the link would currently deliver to a reader.
    open spec fn reply(&self) -> Seq<u8> {
        Seq::empty()
    }

    /// The frames delivered to the device so far, in order.
    ///
    /// This is the model that lets callers state which bytes an operation
    /// put on the wire; a transport outside the verifier's view may leave
    /// the default in place.
    open spec fn sent(&self) -> Seq<Seq<u8>> {
        Seq::empty()
    }

    /// Send one frame in its entirety.
    ///
    /// A short write is reported, never retried: resending a partial frame
    /// would desynchronize the device's parser.  Writing demands a ready
    /// link — this is the single rule that makes interleaved frames
    /// impossible.
    fn write(&mut self, frame: &Vec<u8>) -> (r: Result<(), AmpError>)
        requires
            old(self).ready(),
        ensures
            r is Ok ==> final(self).sent() == old(self).sent().push(frame@),
            r matches Err(e) ==> final(self).ready() && (e == AmpError::TransportShortWrite
                || e == AmpError::TransportTimeout),
    ;

    /// Collect exactly `n` response bytes, however many underlying reads
    /// that takes.
    ///
    /// On success the result is exactly the first `n` bytes the link held;
    /// on timeout no partial data is returned.  Either way the exchange is
    /// over and the link is ready again.
    fn read_exact(&mut self, n: usize) -> (r: Result<Vec<u8>, AmpError>)
        ensures
            final(self).ready(),
            final(self).sent() == old(self).sent(),
            r matches Ok(buf) ==> buf@.len() == n && old(self).reply().len() >= n && buf@
                == old(self).reply().take(n as int),
            r matches Err(e) ==> e == AmpError::TransportTimeout,
    ;
}

} // verus!
