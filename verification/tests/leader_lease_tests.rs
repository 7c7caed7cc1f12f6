use raft_core::clock::{Clock, Instant};
use raft_core::components::leader_lease::LeaderLease;
use std::cell::Cell;
use std::rc::Rc;

#[derive(Clone)]
struct TestClock {
    current: Rc<Cell<Instant>>,
}

impl TestClock {
    fn new() -> Self {
        Self { current: Rc::new(Cell::new(Instant::from_millis(0))) }
    }

    fn advance(&self, millis: u64) {
        let now = self.current.get();
        self.current.set(now.plus_millis(millis));
    }
}

impl Clock for TestClock {
    fn now(&self) -> Instant {
        self.current.get()
    }
}

#[test]
fn test_lease_initially_invalid() {
    let clock = TestClock::new();
    let lease = LeaderLease::new(5000, clock);
    assert!(!lease.is_valid());
}

#[test]
fn test_lease_valid_after_grant() {
    let clock = TestClock::new();
    let mut lease = LeaderLease::new(5000, clock);
    lease.grant();
    assert!(lease.is_valid());
}

#[test]
fn test_lease_expires_after_duration() {
    let clock = TestClock::new();
    let mut lease = LeaderLease::new(5000, clock.clone());
    lease.grant();
    assert!(lease.is_valid());
    clock.advance(4999);
    assert!(lease.is_valid());
    clock.advance(1);
    assert!(!lease.is_valid());
}

#[test]
fn test_lease_can_be_renewed() {
    let clock = TestClock::new();
    let mut lease = LeaderLease::new(5000, clock.clone());
    lease.grant();
    clock.advance(3000);
    assert!(lease.is_valid());
    lease.grant();
    clock.advance(3000);
    assert!(lease.is_valid());
    clock.advance(2001);
    assert!(!lease.is_valid());
}

#[test]
fn test_lease_revocation() {
    let clock = TestClock::new();
    let mut lease = LeaderLease::new(5000, clock);
    lease.grant();
    assert!(lease.is_valid());
    lease.revoke();
    assert!(!lease.is_valid());
}

#[test]
fn test_time_remaining() {
    let clock = TestClock::new();
    let mut lease = LeaderLease::new(5000, clock.clone());
    assert_eq!(lease.time_remaining_millis(), None);
    lease.grant();
    assert_eq!(lease.time_remaining_millis(), Some(5000));
    clock.advance(2000);
    assert_eq!(lease.time_remaining_millis(), Some(3000));
    clock.advance(3000);
    assert_eq!(lease.time_remaining_millis(), None);
}

#[test]
fn lease_window_at_given_instants() {
    let clock = TestClock::new();
    let mut lease = LeaderLease::new(100, clock);
    lease.grant_at(Instant::from_millis(1000));
    assert!(!lease.is_valid_at(Instant::from_millis(1100)));
    assert!(lease.is_valid_at(Instant::from_millis(1099)));
    assert!(lease.is_valid_at(Instant::from_millis(1000)));
    assert_eq!(lease.time_remaining_at(Instant::from_millis(1040)), Some(60));
    assert_eq!(lease.time_remaining_at(Instant::from_millis(1100)), None);
}

#[test]
fn lease_expiration_saturates_at_the_last_instant() {
    let clock = TestClock::new();
    let mut lease = LeaderLease::new(10, clock);
    lease.grant_at(Instant::from_millis(u64::MAX - 3));
    assert!(lease.is_valid_at(Instant::from_millis(u64::MAX - 1)));
    assert!(!lease.is_valid_at(Instant::from_millis(u64::MAX)));
}

#[test]
fn clock_has_elapsed_measures_from_an_instant() {
    let clock = TestClock::new();
    clock.advance(500);
    assert!(clock.has_elapsed(Instant::from_millis(100), 400));
    assert!(!clock.has_elapsed(Instant::from_millis(100), 401));
    assert!(!clock.has_elapsed(Instant::from_millis(900), 1));
    assert!(clock.has_elapsed(Instant::from_millis(900), 0));
}

#[test]
fn instant_arithmetic() {
    let a = Instant::from_millis(40);
    let b = Instant::from_millis(100);
    assert_eq!(b.millis_since(a), 60);
    assert_eq!(a.millis_since(b), 0);
    assert_eq!(a.plus_millis(5).as_millis(), 45);
    assert!(a.is_before(b));
    assert!(!b.is_before(a));
}
