//! The outside items the poller relies on: mio's polling handle, registry,
//! waker and event list, and the parts of std that vstd leaves unspecified.
//! Each contract here is taken on trust.
use vstd::prelude::*;
use crate::event::{InterestSet, NativeEvent};
use mio::unix::SourceFd;
use mio::Token;
use std::time::Duration;

verus! {

#[verifier::external_type_specification]
#[verifier::external_body]
pub struct ExIoError(std::io::Error);

#[verifier::external_type_specification]
#[verifier::external_body]
#[verifier::reject_recursive_types(T)]
pub struct ExMutex<T: ?Sized>(std::sync::Mutex<T>);

#[verifier::external_type_specification]
#[verifier::external_body]
pub struct ExPoll(mio::Poll);

#[verifier::external_type_specification]
#[verifier::external_body]
pub struct ExRegistry(mio::Registry);

#[verifier::external_type_specification]
#[verifier::external_body]
pub struct ExWaker(mio::Waker);

/// mio's list of readiness records, kept opaque; what it holds is
/// `native_records`.
#[verifier::external_body]
pub struct NativeList {
    list: mio::Events,
}

#[verifier::external_type_specification]
#[verifier::external_body]
pub struct ExInterest(mio::Interest);

/// The records a native list currently holds, in order.
pub uninterp spec fn native_records(e: NativeList) -> Seq<NativeEvent>;

/// The capacity a native list was requested with when it was made.
pub uninterp spec fn requested_capacity(e: NativeList) -> nat;

/// Whether a waker is already registered with the handle.
pub uninterp spec fn has_waker(p: mio::Poll) -> bool;

/// What `mio::Interest::is_readable` says of an interest.
pub uninterp spec fn interest_reads(i: mio::Interest) -> bool;

/// What `mio::Interest::is_writable` says of an interest.
pub uninterp spec fn interest_writes(i: mio::Interest) -> bool;

/// Whole seconds of a duration, as `Duration::as_secs` returns them.
pub uninterp spec fn secs_of(d: Duration) -> u64;

/// Sub-second nanoseconds of a duration, as `Duration::subsec_nanos` returns them.
pub uninterp spec fn subsec_of(d: Duration) -> u32;

/// Relies on `mio::Events::with_capacity`: a new list holds no records and
/// was requested with `capacity`.
#[verifier::external_body]
pub(crate) fn events_with_capacity(capacity: usize) -> (r: NativeList)
    requires
        capacity <= 65536,
    ensures
        native_records(r).len() == 0,
        requested_capacity(r) == capacity,
{
    NativeList { list: mio::Events::with_capacity(capacity) }
}

/// Relies on `mio::Events::iter` and the flag accessors of `mio::event::Event`:
/// each record, in order, with its token and flags.
#[verifier::external_body]
pub(crate) fn native_list(e: &NativeList) -> (r: Vec<NativeEvent>)
    ensures
        r@ == native_records(*e),
{
    e.list.iter().map(|ev| NativeEvent {
        key: ev.token().0,
        readable: ev.is_readable(),
        writable: ev.is_writable(),
        error: ev.is_error(),
        priority: ev.is_priority(),
        read_closed: ev.is_read_closed(),
        write_closed: ev.is_write_closed(),
    }).collect()
}

/// Relies on `mio::Poll::new`: opens a new epoll instance, with no waker yet.
#[verifier::external_body]
pub(crate) fn poll_new() -> (r: Result<mio::Poll, std::io::Error>)
    ensures
        r matches Ok(p) ==> !has_waker(p),
{
    mio::Poll::new()
}

/// Relies on `mio::Waker::new`: a waker registered under `key` with the
/// handle's registry. mio allows one waker per handle (a second one trips an
/// assertion), so the handle must have none yet; the call marks the handle
/// as having one before it tries to create it, so it has one afterwards
/// whether or not the call succeeded.
#[verifier::external_body]
pub(crate) fn waker_new(poll: &mut mio::Poll, key: usize) -> (r: Result<mio::Waker, std::io::Error>)
    requires
        !has_waker(*old(poll)),
    ensures
        has_waker(*final(poll)),
{
    mio::Waker::new(poll.registry(), Token(key))
}

/// Relies on `mio::Registry::try_clone`: a second handle to the same registry.
#[verifier::external_body]
pub(crate) fn registry_clone(poll: &mio::Poll) -> (r: Result<mio::Registry, std::io::Error>) {
    poll.registry().try_clone()
}

/// Relies on `std::sync::Mutex::new`.
#[verifier::external_body]
pub(crate) fn mutex_new(poll: mio::Poll) -> (r: std::sync::Mutex<mio::Poll>) {
    std::sync::Mutex::new(poll)
}

/// Relies on mio's `Interest::READABLE`, `Interest::WRITABLE` and
/// `Interest::add`: the native interest for each variant, readable and
/// writable exactly as the variant asks.
#[verifier::external_body]
pub(crate) fn native_interest(i: InterestSet) -> (r: mio::Interest)
    ensures
        interest_reads(r) == i.reads(),
        interest_writes(r) == i.writes(),
{
    match i {
        InterestSet::Readable => mio::Interest::READABLE,
        InterestSet::Writable => mio::Interest::WRITABLE,
        InterestSet::Both => mio::Interest::READABLE.add(mio::Interest::WRITABLE),
    }
}

/// Relies on `mio::Registry::register` for a raw descriptor.
#[verifier::external_body]
pub(crate) fn register(registry: &mio::Registry, fd: i32, key: usize, interest: mio::Interest) -> (r: Result<(), std::io::Error>) {
    registry.register(&mut SourceFd(&fd), Token(key), interest)
}

/// Relies on `mio::Registry::reregister` for a raw descriptor.
#[verifier::external_body]
pub(crate) fn reregister(registry: &mio::Registry, fd: i32, key: usize, interest: mio::Interest) -> (r: Result<(), std::io::Error>) {
    registry.reregister(&mut SourceFd(&fd), Token(key), interest)
}

/// Relies on `mio::Registry::deregister` for a raw descriptor.
#[verifier::external_body]
pub(crate) fn deregister(registry: &mio::Registry, fd: i32) -> (r: Result<(), std::io::Error>)
    opens_invariants none
    no_unwind
{
    registry.deregister(&mut SourceFd(&fd))
}

/// Relies on `mio::Waker::wake`.
#[verifier::external_body]
pub(crate) fn wake(waker: &mio::Waker) -> (r: Result<(), std::io::Error>) {
    waker.wake()
}

/// Relies on `mio::Poll::poll`, reached through the mutex (a poisoned lock is
/// taken over, as the handle holds no state a panic could break). The list is
/// cleared before the native call, so a failed call leaves it empty; the list
/// keeps the capacity it was made with, and `Events::with_capacity` documents
/// that it holds at most that many records.
#[verifier::external_body]
pub(crate) fn poll_wait(poll: &std::sync::Mutex<mio::Poll>, events: &mut NativeList, timeout_ms: Option<u64>) -> (r: Result<(), std::io::Error>)
    ensures
        r is Err ==> native_records(*final(events)).len() == 0,
        requested_capacity(*final(events)) == requested_capacity(*old(events)),
        native_records(*final(events)).len() <= requested_capacity(*old(events)),
{
    let mut guard = match poll.lock() {
        Ok(g) => g,
        Err(poisoned) => poisoned.into_inner(),
    };
    guard.poll(&mut events.list, timeout_ms.map(Duration::from_millis))
}

/// Relies on `std::io::Error::kind`: whether the call was interrupted by a signal.
#[verifier::external_body]
pub(crate) fn is_interrupted(e: &std::io::Error) -> (r: bool) {
    e.kind() == std::io::ErrorKind::Interrupted
}

/// Relies on `Duration::as_secs`.
#[verifier::external_body]
pub(crate) fn duration_secs(d: &Duration) -> (r: u64)
    ensures
        r == secs_of(*d),
{
    d.as_secs()
}

/// Relies on `Duration::subsec_nanos`: always below one second.
#[verifier::external_body]
pub(crate) fn duration_subsec_nanos(d: &Duration) -> (r: u32)
    ensures
        r == subsec_of(*d),
        r < 1_000_000_000,
{
    d.subsec_nanos()
}

} // verus!
