//! The state broker: the single point of truth for who talks to the device
//! when, and for fanning out status changes to any number of observers.
//!
//! The broker owns the one device controller outright, so Rust's exclusive
//! borrows are the access guard: an `apply` call holds the controller for
//! its whole command/response/status cycle and no second frame can reach
//! the link meanwhile.  Callers that share a broker across threads wrap it
//! in a lock and hold that lock for the duration of each call.

use vstd::prelude::*;

use crate::actions::{parse_action, spec_command_of, spec_parse_action, Action};
use crate::codec;
use crate::device::Serial;
use crate::errors::AmpError;
use crate::status::Status;
use crate::transport::Transport;

verus! {

/// A bounded buffer of snapshots for one subscriber, oldest first.
///
/// Delivery is best effort: when a subscriber falls behind, the oldest
/// snapshot is dropped to make room, since only the most recent one is
/// semantically meaningful.
pub struct SubscriberQueue {
    /// The buffered snapshots, oldest first.
    pub buf: Vec<Status>,
    /// The bound; at least one snapshot always fits.
    pub capacity: usize,
}

/// What a bounded drop-oldest push leaves in a queue.
pub open spec fn spec_push_bounded(q: Seq<Status>, cap: nat, s: Status) -> Seq<Status> {
    if q.len() < cap {
        q.push(s)
    } else {
        q.drop_first().push(s)
    }
}

impl SubscriberQueue {
    /// The queue bound is positive and the buffer respects it.
    pub open spec fn wf(&self) -> bool {
        self.capacity >= 1 && self.buf@.len() <= self.capacity
    }

    /// Push a snapshot, dropping the oldest one if the queue is full.
    pub fn push_bounded(&mut self, s: Status)
        requires
            old(self).wf(),
        ensures
            final(self).wf(),
            final(self).capacity == old(self).capacity,
            final(self).buf@ == spec_push_bounded(old(self).buf@, old(self).capacity as nat, s),
    {
        if self.buf.len() == self.capacity {
            self.buf.remove(0);
        }
        self.buf.push(s);
    }

    /// Take the oldest buffered snapshot, if one is waiting.
    pub fn pop_oldest(&mut self) -> (r: Option<Status>)
        requires
            old(self).wf(),
        ensures
            final(self).wf(),
            final(self).capacity == old(self).capacity,
            old(self).buf@.len() == 0 ==> r is None && final(self).buf@ == old(self).buf@,
            old(self).buf@.len() > 0 ==> r == Some(old(self).buf@[0]) && final(self).buf@
                == old(self).buf@.drop_first(),
    {
        if self.buf.len() == 0 {
            None
        } else {
            Some(self.buf.remove(0))
        }
    }
}

/// The broker over one device controller and its observers.
pub struct StateBroker<T: Transport> {
    /// The one device controller, exclusively owned.
    pub controller: Serial<T>,
    /// One bounded queue per subscriber, indexed by subscriber id.
    pub subscribers: Vec<SubscriberQueue>,
    /// The bound given to every new subscriber queue.
    pub capacity: usize,
}

impl<T: Transport> StateBroker<T> {
    /// Every subscriber queue is well formed and new ones will be.
    pub open spec fn wf(&self) -> bool {
        &&& self.capacity >= 1
        &&& forall|i: int|
            0 <= i < self.subscribers@.len() ==> (#[trigger] self.subscribers@[i]).wf()
    }

    /// A broker with no subscribers yet.
    pub fn new(controller: Serial<T>, capacity: usize) -> (b: StateBroker<T>)
        requires
            capacity >= 1,
        ensures
            b.wf(),
            b.controller == controller,
            b.subscribers@.len() == 0,
            b.capacity == capacity,
    {
        StateBroker { controller, subscribers: Vec::new(), capacity }
    }

    /// Register a new observer and deliver the current snapshot to it at
    /// once, so every observer starts synchronized.
    ///
    /// With a populated cache the snapshot is delivered without any
    /// transport work; with an empty cache one status round trip is made
    /// first, and a failure of that round trip fails the subscription and
    /// registers nothing.
    pub fn subscribe(&mut self) -> (r: Result<usize, AmpError>)
        requires
            old(self).wf(),
            old(self).controller.transport.ready(),
        ensures
            final(self).wf(),
            final(self).controller.transport.ready(),
            final(self).capacity == old(self).capacity,
            old(self).controller.cache is Some ==> r is Ok && final(self).controller
                == old(self).controller,
            old(self).controller.cache is None && r is Ok ==> final(self).controller.transport.sent() == old(self).controller.transport.sent().push(
                codec::spec_frame(codec::Command::StatusQuery),
            ),
            r matches Ok(id) ==> id == old(self).subscribers@.len(),
            r is Ok ==> final(self).subscribers@.len() == old(self).subscribers@.len() + 1,
            r is Ok ==> forall|i: int|
                0 <= i < old(self).subscribers@.len()
                    ==> final(self).subscribers@[i] == old(self).subscribers@[i],
            r matches Ok(id) ==> (final(self).controller.cache matches Some(s)
                && final(self).subscribers@[id as int].buf@ == seq![s]
                && final(self).subscribers@[id as int].capacity == old(self).capacity),
            r is Err ==> final(self).subscribers@ == old(self).subscribers@ && final(self).controller.cache == old(self).controller.cache,
            r matches Err(e) ==> (e == AmpError::TransportShortWrite || e
                == AmpError::TransportTimeout || e == AmpError::ProtocolUnexpectedHeader),
    {
        let snapshot = match self.controller.cached_status() {
            Err(e) => {
                return Err(e);
            },
            Ok(s) => s,
        };
        let id = self.subscribers.len();
        let mut buf: Vec<Status> = Vec::new();
        buf.push(snapshot);
        let queue = SubscriberQueue { buf, capacity: self.capacity };
        proof {
            assert(queue.buf@ =~= seq![snapshot]);
        }
        self.subscribers.push(queue);
        Ok(id)
    }

    /// How many observers are registered.
    pub fn subscriber_count(&self) -> (n: usize)
        ensures
            n == self.subscribers@.len(),
    {
        self.subscribers.len()
    }

    /// Take the oldest undelivered snapshot of one subscriber.
    pub fn next_notification(&mut self, id: usize) -> (r: Option<Status>)
        requires
            old(self).wf(),
            id < old(self).subscribers@.len(),
        ensures
            final(self).wf(),
            final(self).controller == old(self).controller,
            final(self).capacity == old(self).capacity,
            final(self).subscribers@.len() == old(self).subscribers@.len(),
            forall|i: int|
                0 <= i < old(self).subscribers@.len() && i != id ==> final(self).subscribers@[i]
                    == old(self).subscribers@[i],
            final(self).subscribers@[id as int].capacity == old(self).subscribers@[id as int].capacity,
            old(self).subscribers@[id as int].buf@.len() == 0 ==> r is None && final(self).subscribers@[id as int].buf@ == old(self).subscribers@[id as int].buf@,
            old(self).subscribers@[id as int].buf@.len() > 0 ==> r == Some(
                old(self).subscribers@[id as int].buf@[0],
            ) && final(self).subscribers@[id as int].buf@ == old(self).subscribers@[id as int].buf@.drop_first(),
    {
        self.subscribers[id].pop_oldest()
    }

    /// Apply one named action: run the matching device operation under the
    /// exclusive guard, re-read the status, and publish the new snapshot
    /// once to every subscriber.
    ///
    /// An unknown action is refused with no transport work and no publish;
    /// so is `mute`, which has no wire command.  On any failure nothing is
    /// published and the cached status keeps its last known-good value.
    pub fn apply(&mut self, action: &str) -> (r: Result<Status, AmpError>)
        requires
            old(self).wf(),
            old(self).controller.transport.ready(),
        ensures
            final(self).wf(),
            final(self).controller.transport.ready(),
            final(self).capacity == old(self).capacity,
            spec_parse_action(action@) == Err::<Action, AmpError>(AmpError::UnknownAction) ==> r
                == Err::<Status, AmpError>(AmpError::UnknownAction) && *final(self) == *old(self),
            spec_parse_action(action@) == Ok::<Action, AmpError>(Action::Mute) ==> r == Err::<
                Status,
                AmpError,
            >(AmpError::UnsupportedOperation) && *final(self) == *old(self),
            r matches Ok(s) ==> (spec_parse_action(action@) matches Ok(a) && spec_command_of(a)
                matches Some(c) && final(self).controller.transport.sent() == old(self).controller.transport.sent() + seq![
                codec::spec_frame(c),
                codec::spec_frame(codec::Command::StatusQuery),
            ]),
            r matches Ok(s) ==> spec_parse_action(action@) is Ok && final(self).controller.cache
                == Some(s) && (exists|buf: Seq<u8>|
                codec::spec_status_header_ok(buf) && s == codec::spec_decode_status(buf)) && final(self).subscribers@.len() == old(self).subscribers@.len() && (forall|i: int|
                0 <= i < old(self).subscribers@.len() ==> (#[trigger] final(self).subscribers@[i]).buf@ == spec_push_bounded(
                    old(self).subscribers@[i].buf@,
                    old(self).subscribers@[i].capacity as nat,
                    s,
                ) && final(self).subscribers@[i].capacity == old(self).subscribers@[i].capacity),
            r is Err ==> final(self).subscribers@ == old(self).subscribers@ && final(self).controller.cache == old(self).controller.cache,
            r matches Err(e) ==> (e == AmpError::UnknownAction || e
                == AmpError::UnsupportedOperation || e == AmpError::TransportShortWrite || e
                == AmpError::TransportTimeout || e == AmpError::ProtocolUnexpectedEcho || e
                == AmpError::ProtocolUnexpectedHeader),
    {
        let act = match parse_action(action) {
            Err(e) => {
                return Err(e);
            },
            Ok(a) => a,
        };
        let op: Result<(), AmpError> = match act {
            Action::VolumeUp => self.controller.volume_up(),
            Action::VolumeDown => self.controller.volume_down(),
            Action::TurnOn => self.controller.turn_on(),
            Action::TurnOff => self.controller.turn_off(),
            Action::Mute => self.controller.mute(),
            Action::Effect3d => self.controller.select_effect(crate::status::Effect::ThreeD),
            Action::Effect2_1 => self.controller.select_effect(crate::status::Effect::TwoOne),
            Action::Effect4_1 => self.controller.select_effect(crate::status::Effect::FourOne),
            Action::EffectDisabled => self.controller.select_effect(
                crate::status::Effect::Disabled,
            ),
            Action::SelectInput3_5mm => self.controller.select_input(
                crate::status::Input::Input3_5mm,
            ),
            Action::SelectInputRca => self.controller.select_input(crate::status::Input::InputRCA),
        };
        match op {
            Err(e) => {
                return Err(e);
            },
            Ok(()) => {},
        }
        let snapshot = match self.controller.status() {
            Err(e) => {
                return Err(e);
            },
            Ok(s) => s,
        };
        proof {
            if let Ok(a) = spec_parse_action(action@) {
                if let Some(c) = spec_command_of(a) {
                    assert(self.controller.transport.sent() =~= old(self).controller.transport.sent() + seq![
                        codec::spec_frame(c),
                        codec::spec_frame(codec::Command::StatusQuery),
                    ]);
                }
            }
        }
        let ghost prev = self.subscribers@;
        let ghost ctrl = self.controller;
        let ghost cap = self.capacity;
        let n = self.subscribers.len();
        let mut i: usize = 0;
        while i < n
            invariant
                i <= n,
                n == prev.len(),
                self.subscribers@.len() == prev.len(),
                self.controller == ctrl,
                self.capacity == cap,
                forall|j: int| 0 <= j < n ==> (#[trigger] prev[j]).wf(),
                forall|j: int|
                    0 <= j < i ==> (#[trigger] self.subscribers@[j]).wf()
                        && self.subscribers@[j].buf@ == spec_push_bounded(
                        prev[j].buf@,
                        prev[j].capacity as nat,
                        snapshot,
                    ) && self.subscribers@[j].capacity == prev[j].capacity,
                forall|j: int| i <= j < n ==> self.subscribers@[j] == prev[j],
            decreases n - i,
        {
            proof {
                assert(self.subscribers@[i as int] == prev[i as int]);
                assert(prev[i as int].wf());
            }
            self.subscribers[i].push_bounded(snapshot);
            i += 1;
        }
        Ok(snapshot)
    }
}

} // verus!
