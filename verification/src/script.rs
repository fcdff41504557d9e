//! A scripted transport: a transport whose device side is played from a
//! list of canned replies.
//!
//! It stands in for the physical link wherever the engine is exercised
//! without hardware: each frame written consumes the next canned reply, a
//! read hands that reply out, and the transport records everything it saw —
//! including any frame that arrived while a reply was still pending, which
//! a real half-duplex link would garble.

use vstd::prelude::*;

use crate::errors::AmpError;
use crate::transport::Transport;

verus! {

/// An exact copy of one frame.
fn copy_frame(v: &Vec<u8>) -> (r: Vec<u8>)
    ensures
        r@ == v@,
{
    let mut r: Vec<u8> = Vec::new();
    let n = v.len();
    let mut i: usize = 0;
    while i < n
        invariant
            n == v@.len(),
            i <= n,
            r@ == v@.take(i as int),
        decreases n - i,
    {
        r.push(v[i]);
        proof {
            assert(r@ =~= v@.take(i + 1 as int));
        }
        i += 1;
    }
    proof {
        assert(r@ =~= v@);
    }
    r
}

/// A transport played from a script of canned replies.
pub struct ScriptedTransport {
    /// The canned replies, consumed front to back, one per frame written.
    replies: Vec<Vec<u8>>,
    /// How many canned replies have been consumed.
    next: usize,
    /// The reply to the frame written last, not yet read.
    pending: Vec<u8>,
    /// Every frame written, in order of arrival.
    writes: Vec<Vec<u8>>,
    /// How many reads were attempted.
    reads: usize,
    /// Whether a frame arrived while a reply was still pending.
    fault: bool,
}

impl ScriptedTransport {
    /// How many reads were attempted.
    pub closed spec fn spec_reads(&self) -> nat {
        self.reads as nat
    }

    /// Whether a frame ever arrived while a reply was still pending.
    pub closed spec fn spec_fault(&self) -> bool {
        self.fault
    }

    /// A fresh transport that will play the given replies.
    pub fn new(replies: Vec<Vec<u8>>) -> (t: ScriptedTransport)
        ensures
            t.ready(),
            !t.spec_fault(),
            t.sent() == Seq::<Seq<u8>>::empty(),
            t.spec_reads() == 0,
    {
        let t = ScriptedTransport {
            replies,
            next: 0,
            pending: Vec::new(),
            writes: Vec::new(),
            reads: 0,
            fault: false,
        };
        proof {
            assert(t.sent() =~= Seq::<Seq<u8>>::empty());
        }
        t
    }

    /// How many frames were written.
    pub fn frames_written(&self) -> (n: usize)
        ensures
            n == self.sent().len(),
    {
        self.writes.len()
    }

    /// The `i`-th frame written.
    pub fn frame_written(&self, i: usize) -> (f: &Vec<u8>)
        requires
            i < self.sent().len(),
        ensures
            f@ == self.sent()[i as int],
    {
        &self.writes[i]
    }

    /// How many reads were attempted.
    pub fn reads_made(&self) -> (n: usize)
        ensures
            n == self.spec_reads(),
    {
        self.reads
    }

    /// Whether a frame ever arrived while a reply was still pending.
    pub fn was_interleaved(&self) -> (b: bool)
        ensures
            b == self.spec_fault(),
    {
        self.fault
    }
}

impl Transport for ScriptedTransport {
    closed spec fn ready(&self) -> bool {
        self.pending@.len() == 0
    }

    closed spec fn reply(&self) -> Seq<u8> {
        self.pending@
    }

    closed spec fn sent(&self) -> Seq<Seq<u8>> {
        self.writes@.map_values(|v: Vec<u8>| v@)
    }

    fn write(&mut self, frame: &Vec<u8>) -> (r: Result<(), AmpError>) {
        self.writes.push(copy_frame(frame));
        proof {
            assert(self.sent() =~= old(self).sent().push(frame@));
        }
        if self.pending.len() > 0 {
            // a second frame before the pending reply was read: a real
            // half-duplex link would garble both exchanges
            self.fault = true;
            return Err(AmpError::TransportShortWrite);
        }
        if self.next < self.replies.len() {
            self.pending = copy_frame(&self.replies[self.next]);
            self.next = self.next + 1;
        }
        Ok(())
    }

    fn read_exact(&mut self, n: usize) -> (r: Result<Vec<u8>, AmpError>) {
        if self.reads < usize::MAX {
            self.reads = self.reads + 1;
        }
        if self.pending.len() >= n {
            let mut out: Vec<u8> = Vec::new();
            let mut i: usize = 0;
            while i < n
                invariant
                    i <= n,
                    n <= self.pending@.len(),
                    out@ == self.pending@.take(i as int),
                decreases n - i,
            {
                out.push(self.pending[i]);
                proof {
                    assert(out@ =~= self.pending@.take(i + 1 as int));
                }
                i += 1;
            }
            // the reply answers exactly one frame; it is consumed whole
            self.pending = Vec::new();
            Ok(out)
        } else {
            // timeout: the partial bytes are discarded, not handed out
            self.pending = Vec::new();
            Err(AmpError::TransportTimeout)
        }
    }
}

} // verus!
