use polling::{Event, Events, PollError, Poller, NOTIFY_KEY};
use std::io::Write;
use std::time::{Duration, Instant};

/// The descriptor number of a pipe end, as its `Debug` output shows it.
fn fd_of<T: std::fmt::Debug>(end: &T) -> i32 {
    let text = format!("{:?}", end);
    let start = text.find("fd: ").unwrap() + 4;
    let digits: String = text[start..].chars().take_while(|c| c.is_ascii_digit()).collect();
    digits.parse().unwrap()
}

fn wait_ok(p: &Poller, events: &mut Events, timeout: Option<Duration>) {
    loop {
        match p.wait(events, timeout) {
            Ok(()) => return,
            Err(e) if e.is_transient() => continue,
            Err(_) => panic!("wait failed"),
        }
    }
}

#[test]
fn readable_fd_is_reported_with_its_key() {
    let p = Poller::new(None).ok().unwrap();
    let (mut tx, rx) = mio::unix::pipe::new().unwrap();
    p.add(fd_of(&rx), Event { key: 5, readable: true, writable: false }).ok().unwrap();
    tx.write_all(&[1]).unwrap();
    let mut events = Events::new();
    wait_ok(&p, &mut events, Some(Duration::from_secs(1)));
    let got = events.iter();
    assert!(got.iter().any(|e| e.key == 5 && e.readable));
}

#[test]
fn deleted_fd_is_not_reported() {
    let p = Poller::new(None).ok().unwrap();
    let (mut tx, rx) = mio::unix::pipe::new().unwrap();
    p.add(fd_of(&rx), Event { key: 11, readable: true, writable: false }).ok().unwrap();
    p.delete(fd_of(&rx)).ok().unwrap();
    tx.write_all(&[1]).unwrap();
    let mut events = Events::new();
    wait_ok(&p, &mut events, Some(Duration::from_millis(50)));
    assert!(events.iter().iter().all(|e| e.key != 11));
}

#[test]
fn zero_timeout_returns_at_once() {
    let p = Poller::new(None).ok().unwrap();
    let (_tx, rx) = mio::unix::pipe::new().unwrap();
    p.add(fd_of(&rx), Event { key: 2, readable: true, writable: false }).ok().unwrap();
    let mut events = Events::new();
    let start = Instant::now();
    wait_ok(&p, &mut events, Some(Duration::ZERO));
    assert!(start.elapsed() < Duration::from_millis(10));
    assert!(events.iter().is_empty());
}

#[test]
fn timeout_never_returns_early() {
    let p = Poller::new(None).ok().unwrap();
    let mut events = Events::new();
    let d = Duration::from_micros(2_500);
    let start = Instant::now();
    wait_ok(&p, &mut events, Some(d));
    assert!(start.elapsed() >= d);
}

#[test]
fn notify_wakes_the_next_wait() {
    let p = Poller::new(None).ok().unwrap();
    p.notify().ok().unwrap();
    let mut events = Events::new();
    let start = Instant::now();
    wait_ok(&p, &mut events, None);
    assert!(start.elapsed() < Duration::from_secs(1));
    assert!(events.iter().is_empty());
}

#[test]
fn reserved_key_is_refused() {
    let p = Poller::new(None).ok().unwrap();
    let (_tx, rx) = mio::unix::pipe::new().unwrap();
    let ev = Event { key: NOTIFY_KEY, readable: true, writable: false };
    assert!(matches!(p.add(fd_of(&rx), ev), Err(PollError::ReservedKey)));
    assert!(matches!(p.modify(fd_of(&rx), ev), Err(PollError::ReservedKey)));
}

#[test]
fn double_add_and_missing_registration_fail() {
    let p = Poller::new(None).ok().unwrap();
    let (_tx, rx) = mio::unix::pipe::new().unwrap();
    let ev = Event { key: 1, readable: true, writable: false };
    assert!(p.add(fd_of(&rx), ev).is_ok());
    assert!(matches!(p.add(fd_of(&rx), ev), Err(PollError::Os(_))));
    assert!(p.delete(fd_of(&rx)).is_ok());
    assert!(matches!(p.delete(fd_of(&rx)), Err(PollError::Os(_))));
    assert!(matches!(p.modify(fd_of(&rx), ev), Err(PollError::Os(_))));
}

#[test]
fn writable_interest_reports_writable_end() {
    let p = Poller::new(None).ok().unwrap();
    let (tx, _rx) = mio::unix::pipe::new().unwrap();
    p.add(fd_of(&tx), Event { key: 3, readable: false, writable: true }).ok().unwrap();
    let mut events = Events::new();
    wait_ok(&p, &mut events, Some(Duration::from_secs(1)));
    let got = events.iter();
    assert_eq!(got.len(), 1);
    assert_eq!(got[0].key, 3);
    assert!(got[0].writable);
}

#[test]
fn pipe_pair_reports_one_readable_event() {
    let p = Poller::new(None).ok().unwrap();
    let (mut tx, rx) = mio::unix::pipe::new().unwrap();
    p.add(fd_of(&rx), Event { key: 7, readable: true, writable: false }).ok().unwrap();
    tx.write_all(&[42]).unwrap();
    let mut events = Events::new();
    let start = Instant::now();
    wait_ok(&p, &mut events, Some(Duration::from_secs(1)));
    let elapsed = start.elapsed();
    let got = events.iter();
    assert_eq!(got, vec![Event { key: 7, readable: true, writable: false }]);
    assert!(elapsed < Duration::from_millis(900));
}

#[test]
fn modify_switches_interest() {
    let p = Poller::new(None).ok().unwrap();
    let (tx, _rx) = mio::unix::pipe::new().unwrap();
    p.add(fd_of(&tx), Event { key: 8, readable: true, writable: false }).ok().unwrap();
    p.modify(fd_of(&tx), Event { key: 9, readable: false, writable: true }).ok().unwrap();
    let mut events = Events::new();
    wait_ok(&p, &mut events, Some(Duration::from_secs(1)));
    let got = events.iter();
    assert!(got.iter().any(|e| e.key == 9 && e.writable));
    assert!(got.iter().all(|e| e.key != 8));
}

#[test]
fn ready_timer_ends_wait_without_visible_event() {
    let (mut tx, rx) = mio::unix::pipe::new().unwrap();
    let p = Poller::new(Some(fd_of(&rx))).ok().unwrap();
    tx.write_all(&[1]).unwrap();
    let mut events = Events::new();
    let start = Instant::now();
    wait_ok(&p, &mut events, Some(Duration::from_secs(5)));
    assert!(start.elapsed() < Duration::from_secs(1));
    assert!(events.iter().is_empty());
}

#[test]
fn zero_timeout_with_timer_returns_at_once() {
    let (_tx, rx) = mio::unix::pipe::new().unwrap();
    let p = Poller::new(Some(fd_of(&rx))).ok().unwrap();
    let mut events = Events::new();
    let start = Instant::now();
    wait_ok(&p, &mut events, Some(Duration::ZERO));
    assert!(start.elapsed() < Duration::from_millis(10));
}

#[test]
fn new_list_reports_nothing() {
    let events = Events::new();
    assert!(events.iter().is_empty());
}

#[test]
fn only_interruption_is_transient() {
    assert!(PollError::Interrupted.is_transient());
    assert!(!PollError::ReservedKey.is_transient());
    assert!(!PollError::Os(std::io::Error::from(std::io::ErrorKind::Other)).is_transient());
}

#[test]
fn wait_timeout_takes_library_timeout() {
    let p = Poller::new(None).ok().unwrap();
    let (mut tx, rx) = mio::unix::pipe::new().unwrap();
    p.add(fd_of(&rx), Event { key: 21, readable: true, writable: true }).ok().unwrap();
    tx.write_all(&[5]).unwrap();
    let mut events = Events::new();
    p.wait_timeout(&mut events, Some(polling::Timeout { secs: 1, nanos: 0 })).ok().unwrap();
    assert_eq!(events.iter(), vec![Event { key: 21, readable: true, writable: false }]);
}
