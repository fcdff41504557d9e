//! The device controller: one transport, the codec, and the last-known
//! status cache.
//!
//! Every operation runs one full frame exchange and leaves the link ready.
//! Only a successful status read touches the cache; mutating commands never
//! refresh it themselves — the calling layer triggers a fresh read after
//! every mutation.

use vstd::prelude::*;

use crate::codec;
use crate::codec::Command;
use crate::errors::AmpError;
use crate::status::{Effect, Input, Status};
use crate::transport::Transport;

verus! {

/// The controller of one serial-attached device.
pub struct Serial<T: Transport> {
    /// The one physical link.
    pub transport: T,
    /// The last status decoded from the device, if any round trip has
    /// succeeded; never invalidated by a mutating command.
    pub cache: Option<Status>,
}

/// Byte-wise equality of two buffers.
fn vec_eq(a: &Vec<u8>, b: &Vec<u8>) -> (r: bool)
    ensures
        r <==> a@ == b@,
{
    if a.len() != b.len() {
        return false;
    }
    let n = a.len();
    let mut i: usize = 0;
    while i < n
        invariant
            n == a@.len(),
            n == b@.len(),
            i <= n,
            forall|j: int| 0 <= j < i ==> a@[j] == b@[j],
        decreases n - i,
    {
        if a[i] != b[i] {
            return false;
        }
        i += 1;
    }
    proof {
        assert(a@ =~= b@);
    }
    true
}

impl<T: Transport> Serial<T> {
    /// A controller over an already-opened link, with an empty cache.
    pub fn new(transport: T) -> (s: Serial<T>)
        ensures
            s.transport == transport,
            s.cache is None,
    {
        Serial { transport, cache: None }
    }

    /// Send one frame in its entirety; the cache is untouched.
    pub fn write(&mut self, buf: &Vec<u8>) -> (r: Result<(), AmpError>)
        requires
            old(self).transport.ready(),
        ensures
            final(self).cache == old(self).cache,
            r is Ok ==> final(self).transport.sent() == old(self).transport.sent().push(buf@),
            r matches Err(e) ==> final(self).transport.ready() && (e
                == AmpError::TransportShortWrite || e == AmpError::TransportTimeout),
    {
        self.transport.write(buf)
    }

    /// Collect exactly `size` response bytes; the cache is untouched.
    pub fn read(&mut self, size: usize) -> (r: Result<Vec<u8>, AmpError>)
        ensures
            final(self).transport.ready(),
            final(self).transport.sent() == old(self).transport.sent(),
            final(self).cache == old(self).cache,
            r matches Ok(buf) ==> buf@.len() == size,
            r matches Err(e) ==> e == AmpError::TransportTimeout,
    {
        self.transport.read_exact(size)
    }

    /// Run one command: send its frame, read its fixed-size response, and
    /// validate the response where the command demands one.
    fn exchange(&mut self, c: &Command) -> (r: Result<(), AmpError>)
        requires
            old(self).transport.ready(),
        ensures
            final(self).transport.ready(),
            final(self).cache == old(self).cache,
            r is Ok ==> final(self).transport.sent() == old(self).transport.sent().push(
                codec::spec_frame(*c),
            ),
            r matches Err(e) ==> (e == AmpError::TransportShortWrite || e
                == AmpError::TransportTimeout || (codec::spec_expected_reply(*c) is Some && e
                == AmpError::ProtocolUnexpectedEcho)),
    {
        let frame = codec::encode(c);
        match self.transport.write(&frame) {
            Err(e) => {
                return Err(e);
            },
            Ok(()) => {},
        }
        let buf = match self.transport.read_exact(codec::response_len(c)) {
            Err(e) => {
                return Err(e);
            },
            Ok(b) => b,
        };
        match codec::expected_reply(c) {
            None => Ok(()),
            Some(expected) => {
                if vec_eq(&buf, &expected) {
                    Ok(())
                } else {
                    Err(AmpError::ProtocolUnexpectedEcho)
                }
            },
        }
    }

    /// Raise the main volume one step.
    pub fn volume_up(&mut self) -> (r: Result<(), AmpError>)
        requires
            old(self).transport.ready(),
        ensures
            final(self).transport.ready(),
            final(self).cache == old(self).cache,
            r is Ok ==> final(self).transport.sent() == old(self).transport.sent().push(
                codec::spec_frame(codec::Command::VolumeUp),
            ),
            r matches Err(e) ==> (e == AmpError::TransportShortWrite || e
                == AmpError::TransportTimeout),
    {
        self.exchange(&Command::VolumeUp)
    }

    /// Lower the main volume one step.
    pub fn volume_down(&mut self) -> (r: Result<(), AmpError>)
        requires
            old(self).transport.ready(),
        ensures
            final(self).transport.ready(),
            final(self).cache == old(self).cache,
            r is Ok ==> final(self).transport.sent() == old(self).transport.sent().push(
                codec::spec_frame(codec::Command::VolumeDown),
            ),
            r matches Err(e) ==> (e == AmpError::TransportShortWrite || e
                == AmpError::TransportTimeout),
    {
        self.exchange(&Command::VolumeDown)
    }

    /// `mute` has no known wire command: it is an explicit unsupported
    /// operation, not a silent success, and exchanges no bytes.
    pub fn mute(&mut self) -> (r: Result<(), AmpError>)
        ensures
            *final(self) == *old(self),
            r == Err::<(), AmpError>(AmpError::UnsupportedOperation),
    {
        Err(AmpError::UnsupportedOperation)
    }

    /// Select an input; the device must echo the frame back.
    pub fn select_input(&mut self, input: Input) -> (r: Result<(), AmpError>)
        requires
            old(self).transport.ready(),
        ensures
            final(self).transport.ready(),
            final(self).cache == old(self).cache,
            r is Ok ==> final(self).transport.sent() == old(self).transport.sent().push(
                codec::spec_frame(codec::Command::SelectInput(input)),
            ),
            r matches Err(e) ==> (e == AmpError::TransportShortWrite || e
                == AmpError::TransportTimeout || e == AmpError::ProtocolUnexpectedEcho),
    {
        self.exchange(&Command::SelectInput(input))
    }

    /// Select an effect; the device must echo the frame back.
    pub fn select_effect(&mut self, effect: Effect) -> (r: Result<(), AmpError>)
        requires
            old(self).transport.ready(),
        ensures
            final(self).transport.ready(),
            final(self).cache == old(self).cache,
            r is Ok ==> final(self).transport.sent() == old(self).transport.sent().push(
                codec::spec_frame(codec::Command::SelectEffect(effect)),
            ),
            r matches Err(e) ==> (e == AmpError::TransportShortWrite || e
                == AmpError::TransportTimeout || e == AmpError::ProtocolUnexpectedEcho),
    {
        self.exchange(&Command::SelectEffect(effect))
    }

    /// Restore the device configuration; the device must answer with its
    /// fixed acknowledgement frame.
    pub fn configuration_reset(&mut self) -> (r: Result<(), AmpError>)
        requires
            old(self).transport.ready(),
        ensures
            final(self).transport.ready(),
            final(self).cache == old(self).cache,
            r is Ok ==> final(self).transport.sent() == old(self).transport.sent().push(
                codec::spec_frame(codec::Command::ConfigurationReset),
            ),
            r matches Err(e) ==> (e == AmpError::TransportShortWrite || e
                == AmpError::TransportTimeout || e == AmpError::ProtocolUnexpectedEcho),
    {
        self.exchange(&Command::ConfigurationReset)
    }

    /// Leave standby.
    pub fn turn_on(&mut self) -> (r: Result<(), AmpError>)
        requires
            old(self).transport.ready(),
        ensures
            final(self).transport.ready(),
            final(self).cache == old(self).cache,
            r is Ok ==> final(self).transport.sent() == old(self).transport.sent().push(
                codec::spec_frame(codec::Command::TurnOn),
            ),
            r matches Err(e) ==> (e == AmpError::TransportShortWrite || e
                == AmpError::TransportTimeout),
    {
        self.exchange(&Command::TurnOn)
    }

    /// Enter standby.
    pub fn turn_off(&mut self) -> (r: Result<(), AmpError>)
        requires
            old(self).transport.ready(),
        ensures
            final(self).transport.ready(),
            final(self).cache == old(self).cache,
            r is Ok ==> final(self).transport.sent() == old(self).transport.sent().push(
                codec::spec_frame(codec::Command::TurnOff),
            ),
            r matches Err(e) ==> (e == AmpError::TransportShortWrite || e
                == AmpError::TransportTimeout),
    {
        self.exchange(&Command::TurnOff)
    }

    /// Defer the device's idle auto-standby.
    ///
    /// The device enters standby on its own after prolonged inactivity;
    /// callers that want it kept awake send this at intervals under the
    /// device's idle window.  Non-silent audio resets the same timer.
    pub fn reset_idle_timeout(&mut self) -> (r: Result<(), AmpError>)
        requires
            old(self).transport.ready(),
        ensures
            final(self).transport.ready(),
            final(self).cache == old(self).cache,
            r is Ok ==> final(self).transport.sent() == old(self).transport.sent().push(
                codec::spec_frame(codec::Command::ResetIdleTimeout),
            ),
            r matches Err(e) ==> (e == AmpError::TransportShortWrite || e
                == AmpError::TransportTimeout || e == AmpError::ProtocolUnexpectedEcho),
    {
        self.exchange(&Command::ResetIdleTimeout)
    }

    /// Run one full status round trip: request, read, validate, decode.
    ///
    /// On success the new snapshot overwrites the cache; on any failure the
    /// cache is left exactly as it was.
    pub fn status(&mut self) -> (r: Result<Status, AmpError>)
        requires
            old(self).transport.ready(),
        ensures
            final(self).transport.ready(),
            r is Ok ==> final(self).transport.sent() == old(self).transport.sent().push(
                codec::spec_frame(codec::Command::StatusQuery),
            ),
            r matches Ok(s) ==> final(self).cache == Some(s) && (exists|buf: Seq<u8>|
                codec::spec_status_header_ok(buf) && s == codec::spec_decode_status(buf)),
            r matches Err(e) ==> final(self).cache == old(self).cache && (e
                == AmpError::TransportShortWrite || e == AmpError::TransportTimeout || e
                == AmpError::ProtocolUnexpectedHeader),
    {
        let c = Command::StatusQuery;
        let frame = codec::encode(&c);
        match self.transport.write(&frame) {
            Err(e) => {
                return Err(e);
            },
            Ok(()) => {},
        }
        let buf = match self.transport.read_exact(codec::response_len(&c)) {
            Err(e) => {
                return Err(e);
            },
            Ok(b) => b,
        };
        match codec::decode_status(&buf) {
            Ok(s) => {
                proof {
                    assert(codec::spec_status_header_ok(buf@) && s
                        == codec::spec_decode_status(buf@));
                }
                self.cache = Some(s);
                Ok(s)
            },
            Err(e) => Err(e),
        }
    }

    /// The cached status, or one fresh round trip if no cache exists yet.
    ///
    /// With a populated cache this touches nothing: the snapshot comes back
    /// as it is and the transport performs no work at all.
    pub fn cached_status(&mut self) -> (r: Result<Status, AmpError>)
        requires
            old(self).transport.ready(),
        ensures
            final(self).transport.ready(),
            old(self).cache matches Some(s) ==> r == Ok::<Status, AmpError>(s) && *final(self)
                == *old(self),
            old(self).cache is None && r is Ok ==> final(self).transport.sent() == old(
                self,
            ).transport.sent().push(codec::spec_frame(codec::Command::StatusQuery)),
            r matches Ok(s) ==> final(self).cache == Some(s),
            r matches Err(e) ==> final(self).cache == old(self).cache && (e
                == AmpError::TransportShortWrite || e == AmpError::TransportTimeout || e
                == AmpError::ProtocolUnexpectedHeader),
    {
        match self.cache {
            Some(status) => Ok(status),
            None => self.status(),
        }
    }
}

/// A controller for a link that may not have been found.
///
/// If a link is at hand, the controller is built around it and one initial
/// status round trip is attempted, so that the cache starts populated
/// whenever the device answers; the controller is returned either way.
pub fn get_serial<T: Transport>(transport: Option<T>) -> (r: Option<Serial<T>>)
    requires
        transport matches Some(t) ==> t.ready(),
    ensures
        r is Some <==> transport is Some,
        r matches Some(s) ==> s.transport.ready(),
{
    match transport {
        None => None,
        Some(t) => {
            let mut serial = Serial::new(t);
            let _ = serial.status();
            Some(serial)
        },
    }
}

} // verus!
