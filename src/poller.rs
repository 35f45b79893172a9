//! The poller: registrations, waiting with a timeout, and cross-thread
//! notification, over epoll through mio.
use vstd::prelude::*;
use crate::event::{Event, InterestSet, NativeEvent, NOTIFY_KEY};
use crate::native;
use crate::timeout::{native_timeout, spec_native_timeout, Timeout};
use std::time::Duration;

verus! {

/// Number of native records one `wait` call can report.
pub const EVENTS_CAPACITY: usize = 1024;

/// The events a caller sees from a list of native records, in order: each
/// record translated, and those under the reserved key left out.
pub open spec fn visible(s: Seq<NativeEvent>) -> Seq<Event>
    decreases s.len(),
{
    if s.len() == 0 {
        Seq::empty()
    } else {
        let before = visible(s.drop_last());
        if s.last().key == NOTIFY_KEY {
            before
        } else {
            before.push(s.last().translated())
        }
    }
}

/// No event a caller sees carries the reserved key.
pub proof fn lemma_visible_never_reserved(s: Seq<NativeEvent>)
    ensures
        forall|i: int| 0 <= i < visible(s).len() ==> visible(s)[i].key != NOTIFY_KEY,
    decreases s.len(),
{
    if s.len() > 0 {
        lemma_visible_never_reserved(s.drop_last());
        let before = visible(s.drop_last());
        assert forall|i: int| 0 <= i < visible(s).len() implies visible(s)[i].key != NOTIFY_KEY by {
            if i < before.len() {
                assert(visible(s)[i] == before[i]);
            }
        }
    }
}

/// A caller never sees more events than there are records, and sees one for
/// each record when none carries the reserved key.
pub proof fn lemma_visible_len(s: Seq<NativeEvent>)
    ensures
        visible(s).len() <= s.len(),
        (forall|k: int| 0 <= k < s.len() ==> s[k].key != NOTIFY_KEY) ==> visible(s).len() == s.len(),
    decreases s.len(),
{
    if s.len() > 0 {
        lemma_visible_len(s.drop_last());
    }
}

/// Where no record up to `i` carries the reserved key, the `i`-th event a
/// caller sees is the `i`-th record, translated; so a record in error there
/// is reported under its own key as readable and writable.
pub proof fn lemma_visible_same_index(s: Seq<NativeEvent>, i: int)
    requires
        0 <= i < s.len(),
        forall|k: int| 0 <= k <= i ==> s[k].key != NOTIFY_KEY,
    ensures
        i < visible(s).len(),
        visible(s)[i] == s[i].translated(),
        s[i].error ==> visible(s)[i].readable && visible(s)[i].writable && visible(s)[i].key == s[i].key,
{
    lemma_visible_len(s.take(i));
    lemma_visible_position(s, i);
}

/// The events a caller sees from a prefix of the records are the first
/// events it sees from all of them.
pub proof fn lemma_visible_prefix(s: Seq<NativeEvent>, k: int)
    requires
        0 <= k <= s.len(),
    ensures
        visible(s.take(k)).len() <= visible(s).len(),
        forall|j: int| 0 <= j < visible(s.take(k)).len() ==> visible(s.take(k))[j] == visible(s)[j],
    decreases s.len() - k,
{
    if k == s.len() {
        assert(s.take(k) == s);
    } else {
        lemma_visible_prefix(s, k + 1);
        assert(s.take(k + 1).drop_last() == s.take(k));
    }
}

/// A record that does not carry the reserved key is seen, translated, at the
/// position given by the number of events seen before it.
pub proof fn lemma_visible_position(s: Seq<NativeEvent>, i: int)
    requires
        0 <= i < s.len(),
        s[i].key != NOTIFY_KEY,
    ensures
        visible(s.take(i)).len() < visible(s).len(),
        visible(s)[visible(s.take(i)).len() as int] == s[i].translated(),
{
    lemma_visible_prefix(s, i + 1);
    assert(s.take(i + 1).drop_last() == s.take(i));
    assert(s.take(i + 1).last() == s[i]);
}

/// Error flags are never lost in what a caller sees: a record in error is
/// reported, under its own key, as both readable and writable.
pub proof fn lemma_error_record_reported(s: Seq<NativeEvent>, i: int)
    requires
        0 <= i < s.len(),
        s[i].key != NOTIFY_KEY,
        s[i].error,
    ensures
        ({
            let ev = visible(s)[visible(s.take(i)).len() as int];
            &&& ev.key == s[i].key
            &&& ev.readable
            &&& ev.writable
        }),
{
    lemma_visible_position(s, i);
}

/// A reusable list of the records reported by one `wait` call.
pub struct Events {
    inner: native::NativeList,
    /// The timeout, in whole milliseconds, that the last `wait` handed to the
    /// native call.
    handed: Ghost<Option<u64>>,
}

impl Events {
    /// The native records the last `wait` call left in the list.
    pub closed spec fn records(&self) -> Seq<NativeEvent> {
        native::native_records(self.inner)
    }

    /// The number of records the list was made to hold.
    pub closed spec fn capacity(&self) -> nat {
        native::requested_capacity(self.inner)
    }

    /// The timeout the last `wait` handed to the native call.
    pub closed spec fn native_timeout_used(&self) -> Option<u64> {
        self.handed@
    }

    /// Creates an empty list.
    pub fn new() -> (r: Events)
        ensures
            r.records().len() == 0,
            r.capacity() == EVENTS_CAPACITY,
    {
        Events { inner: native::events_with_capacity(EVENTS_CAPACITY), handed: Ghost(None) }
    }

    /// The events of the last `wait` call, translated, without those that
    /// belong to the poller itself.
    pub fn iter(&self) -> (r: Vec<Event>)
        ensures
            r@ == visible(self.records()),
            r@.len() <= self.records().len(),
            forall|i: int| 0 <= i < r@.len() ==> r@[i].key != NOTIFY_KEY,
            forall|i: int|
                0 <= i < self.records().len() && self.records()[i].key != NOTIFY_KEY ==> {
                    let j = visible(#[trigger] self.records().take(i)).len() as int;
                    j < r@.len() && r@[j] == self.records()[i].translated()
                },
    {
        proof {
            lemma_visible_never_reserved(self.records());
            lemma_visible_len(self.records());
            assert forall|i: int|
                0 <= i < self.records().len() && self.records()[i].key != NOTIFY_KEY implies {
                    let j = visible(#[trigger] self.records().take(i)).len() as int;
                    j < visible(self.records()).len() && visible(self.records())[j] == self.records()[i].translated()
                } by {
                lemma_visible_position(self.records(), i);
            }
        }
        let recs = native::native_list(&self.inner);
        let mut out: Vec<Event> = Vec::new();
        let mut i: usize = 0;
        while i < recs.len()
            invariant
                i <= recs@.len(),
                recs@ == self.records(),
                out@ == visible(recs@.subrange(0, i as int)),
            decreases recs@.len() - i,
        {
            let n = recs[i];
            assert(recs@.subrange(0, i as int + 1).drop_last() == recs@.subrange(0, i as int));
            if n.key != NOTIFY_KEY {
                out.push(Event::from_native(n));
            }
            i = i + 1;
        }
        assert(recs@.subrange(0, recs@.len() as int) == recs@);
        out
    }
}

/// Why a poller operation failed.
pub enum PollError {
    /// The event's key is the one the poller keeps for itself.
    ReservedKey,
    /// The native wait call was interrupted by a signal; waiting again is safe.
    Interrupted,
    /// The OS refused the operation.
    Os(std::io::Error),
}

impl PollError {
    /// Whether the failure is transient, so that the call can simply be repeated.
    pub fn is_transient(&self) -> (r: bool)
        ensures
            r == (*self is Interrupted),
    {
        match self {
            PollError::Interrupted => true,
            _ => false,
        }
    }
}

/// Interface to epoll.
pub struct Poller {
    poll: std::sync::Mutex<mio::Poll>,
    registry: mio::Registry,
    waker: mio::Waker,
    /// Descriptor of the kernel timer that enforces timeouts, if there is one.
    timer_fd: Option<i32>,
}

impl Poller {
    /// The kernel timer registered with this poller, if any.
    pub closed spec fn timer(&self) -> Option<i32> {
        self.timer_fd
    }

    /// Creates a poller with a waker under the reserved key. Where `timer_fd`
    /// is given, that kernel timer is registered for reading under the
    /// reserved key too, and from then on enforces every positive timeout of
    /// `wait`: its owner arms it with `timer_setting` of the same timeout
    /// before each call, and keeps it open while the poller lives.
    pub fn new(timer_fd: Option<i32>) -> (r: Result<Poller, PollError>)
        ensures
            r matches Ok(p) ==> p.timer() == timer_fd,
            r matches Err(e) ==> e is Os,
    {
        let mut poll = match native::poll_new() {
            Ok(p) => p,
            Err(e) => return Err(PollError::Os(e)),
        };
        let waker = match native::waker_new(&mut poll, NOTIFY_KEY) {
            Ok(w) => w,
            Err(e) => return Err(PollError::Os(e)),
        };
        let registry = match native::registry_clone(&poll) {
            Ok(r) => r,
            Err(e) => return Err(PollError::Os(e)),
        };
        let poller = Poller { poll: native::mutex_new(poll), registry, waker, timer_fd };
        if let Some(fd) = timer_fd {
            if let Err(e) = poller.register_key(fd, Event::none(NOTIFY_KEY)) {
                return Err(PollError::Os(e));
            }
        }
        Ok(poller)
    }

    fn register_key(&self, fd: i32, ev: Event) -> (r: Result<(), std::io::Error>) {
        native::register(&self.registry, fd, ev.key, native::native_interest(InterestSet::of(ev)))
    }

    fn reregister_key(&self, fd: i32, ev: Event) -> (r: Result<(), std::io::Error>) {
        native::reregister(&self.registry, fd, ev.key, native::native_interest(InterestSet::of(ev)))
    }

    /// Registers `fd` with the interest `ev` asks for, under `ev.key`. The
    /// reserved key is refused; otherwise the OS decides (a descriptor that
    /// is already registered, or invalid, is refused).
    pub fn add(&self, fd: i32, ev: Event) -> (r: Result<(), PollError>)
        ensures
            ev.key == NOTIFY_KEY <==> r == Err::<(), PollError>(PollError::ReservedKey),
            r matches Err(e) ==> e is ReservedKey || e is Os,
    {
        if ev.key == NOTIFY_KEY {
            return Err(PollError::ReservedKey);
        }
        match self.register_key(fd, ev) {
            Ok(()) => Ok(()),
            Err(e) => Err(PollError::Os(e)),
        }
    }

    /// Replaces the key and interest of a registered `fd`. The reserved key is
    /// refused; otherwise the OS decides (an unregistered descriptor is refused).
    pub fn modify(&self, fd: i32, ev: Event) -> (r: Result<(), PollError>)
        ensures
            ev.key == NOTIFY_KEY <==> r == Err::<(), PollError>(PollError::ReservedKey),
            r matches Err(e) ==> e is ReservedKey || e is Os,
    {
        if ev.key == NOTIFY_KEY {
            return Err(PollError::ReservedKey);
        }
        match self.reregister_key(fd, ev) {
            Ok(()) => Ok(()),
            Err(e) => Err(PollError::Os(e)),
        }
    }

    /// Removes the registration of `fd`; the OS refuses an unregistered one.
    pub fn delete(&self, fd: i32) -> (r: Result<(), PollError>)
        ensures
            r matches Err(e) ==> e is Os,
    {
        match native::deregister(&self.registry, fd) {
            Ok(()) => Ok(()),
            Err(e) => Err(PollError::Os(e)),
        }
    }

    /// Waits for readiness, a timer expiry or a `notify`, and leaves the
    /// reported records in `events`. The native call gets the timeout
    /// `native_timeout` computes: a zero timeout never blocks, and without a
    /// kernel timer a positive one is rounded up to whole milliseconds; with
    /// one, the timer (armed by its owner) ends the wait, and its read
    /// interest is renewed first. An interruption by a signal is reported as
    /// `Interrupted` and leaves `events` empty.
    pub fn wait_timeout(&self, events: &mut Events, timeout: Option<Timeout>) -> (r: Result<(), PollError>)
        ensures
            r is Ok ==> final(events).native_timeout_used() == spec_native_timeout(self.timer() is Some, timeout),
            final(events).capacity() == old(events).capacity(),
            r is Ok ==> final(events).records().len() <= final(events).capacity(),
            r matches Err(e) ==> e is Interrupted || e is Os,
            r matches Err(e) && e is Interrupted ==> final(events).records().len() == 0,
    {
        if let Some(fd) = self.timer_fd {
            let ev = Event { key: NOTIFY_KEY, readable: true, writable: false };
            if let Err(e) = self.reregister_key(fd, ev) {
                return Err(PollError::Os(e));
            }
        }
        let ms = native_timeout(self.timer_fd.is_some(), timeout);
        events.handed = Ghost(ms);
        match native::poll_wait(&self.poll, &mut events.inner, ms) {
            Ok(()) => Ok(()),
            Err(e) => {
                if native::is_interrupted(&e) {
                    Err(PollError::Interrupted)
                } else {
                    Err(PollError::Os(e))
                }
            },
        }
    }

    /// `wait_timeout` for a timeout given as a `Duration`.
    pub fn wait(&self, events: &mut Events, timeout: Option<Duration>) -> (r: Result<(), PollError>)
        ensures
            r matches Err(e) ==> e is Interrupted || e is Os,
            r matches Err(e) && e is Interrupted ==> final(events).records().len() == 0,
            r is Ok ==> final(events).native_timeout_used() == spec_native_timeout(
                self.timer() is Some,
                match timeout {
                    Some(d) => Some(Timeout::spec_from_duration(d)),
                    None => None,
                },
            ),
            final(events).capacity() == old(events).capacity(),
            r is Ok ==> final(events).records().len() <= final(events).capacity(),
    {
        let t = match timeout {
            None => None,
            Some(d) => Some(Timeout::from_duration(d)),
        };
        self.wait_timeout(events, t)
    }

    /// Wakes the current `wait` call, or the next one.
    pub fn notify(&self) -> (r: Result<(), PollError>)
        ensures
            r matches Err(e) ==> e is Os,
    {
        match native::wake(&self.waker) {
            Ok(()) => Ok(()),
            Err(e) => Err(PollError::Os(e)),
        }
    }
}

impl Drop for Poller {
    /// Takes the kernel timer out of the registry; errors are ignored.
    fn drop(&mut self)
        opens_invariants none
        no_unwind
    {
        if let Some(fd) = self.timer_fd {
            let _ = native::deregister(&self.registry, fd);
        }
    }
}

} // verus!
