//! Portable events, the interest they request, and how native readiness
//! records translate into them.
use vstd::prelude::*;

verus! {

/// Key reserved for the poller's own notifications (waker and timer).
pub const NOTIFY_KEY: usize = usize::MAX;

/// A readiness event, both as requested by a caller and as reported back.
#[derive(Clone, Copy, Debug, PartialEq, Eq, Structural)]
pub struct Event {
    /// Caller-chosen key of the registration.
    pub key: usize,
    /// Readiness for reading.
    pub readable: bool,
    /// Readiness for writing.
    pub writable: bool,
}

impl Event {
    /// An event with the given key and no readiness flags set.
    pub fn none(key: usize) -> (r: Event)
        ensures
            r == (Event { key, readable: false, writable: false }),
    {
        Event { key, readable: false, writable: false }
    }

    /// What a native record reports, folded into two booleans: error and
    /// hang-up conditions make both directions ready.
    pub fn from_native(n: NativeEvent) -> (r: Event)
        ensures
            r == n.translated(),
    {
        Event {
            key: n.key,
            readable: n.readable || n.read_closed || n.error || n.priority,
            writable: n.writable || n.write_closed || n.error,
        }
    }
}

/// The flags of one record as the OS reports it.
#[derive(Clone, Copy, Debug, PartialEq, Eq, Structural)]
pub struct NativeEvent {
    pub key: usize,
    pub readable: bool,
    pub writable: bool,
    pub error: bool,
    pub priority: bool,
    pub read_closed: bool,
    pub write_closed: bool,
}

impl NativeEvent {
    /// The portable event a native record stands for.
    pub open spec fn translated(self) -> Event {
        Event {
            key: self.key,
            readable: self.readable || self.read_closed || self.error || self.priority,
            writable: self.writable || self.write_closed || self.error,
        }
    }
}

/// Error flags are never lost: a record carrying the error flag reports both
/// directions as ready, whatever its other flags.
pub proof fn lemma_error_reports_both(n: NativeEvent)
    requires
        n.error,
    ensures
        n.translated().readable,
        n.translated().writable,
{
}

/// The directions of readiness a descriptor is registered for.
#[derive(Clone, Copy, Debug, PartialEq, Eq, Structural)]
pub enum InterestSet {
    Readable,
    Writable,
    Both,
}

impl InterestSet {
    /// The interest an event asks for: writability when `writable` is set,
    /// both directions when `readable` is set too, and readability otherwise
    /// (an event with no flags still needs some interest to be registered).
    pub open spec fn spec_of(ev: Event) -> InterestSet {
        if ev.writable {
            if ev.readable { InterestSet::Both } else { InterestSet::Writable }
        } else {
            InterestSet::Readable
        }
    }

    pub fn of(ev: Event) -> (r: InterestSet)
        ensures
            r == InterestSet::spec_of(ev),
    {
        if ev.writable {
            if ev.readable {
                InterestSet::Both
            } else {
                InterestSet::Writable
            }
        } else {
            InterestSet::Readable
        }
    }

    /// Whether readiness for reading is requested.
    pub open spec fn reads(self) -> bool {
        self is Readable || self is Both
    }

    /// Whether readiness for writing is requested.
    pub open spec fn writes(self) -> bool {
        self is Writable || self is Both
    }
}

/// Every flag an event requests is part of the interest registered for it.
pub proof fn lemma_interest_covers_event(ev: Event)
    ensures
        ev.readable ==> InterestSet::spec_of(ev).reads(),
        InterestSet::spec_of(ev).writes() == ev.writable,
{
}

} // verus!
