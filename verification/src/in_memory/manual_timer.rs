use crate::timer_service::{ExpiredTimers, TimerKind, TimerService, TimerState};
use vstd::prelude::*;

verus! {

/// Election and heartbeat timers that fire only when told to, for simulations with a
/// controlled clock.
pub struct ManualTimer {
    election_running: bool,
    heartbeat_running: bool,
    election_fired: bool,
    heartbeat_fired: bool,
    election_restarts: Ghost<nat>,
    heartbeat_restarts: Ghost<nat>,
}

impl ManualTimer {
    pub fn new() -> (r: Self)
        ensures
            !r.timers().election_running,
            !r.timers().heartbeat_running,
            r.timers().election_restarts == 0,
            r.timers().heartbeat_restarts == 0,
    {
        ManualTimer {
            election_running: false,
            heartbeat_running: false,
            election_fired: false,
            heartbeat_fired: false,
            election_restarts: Ghost(0),
            heartbeat_restarts: Ghost(0),
        }
    }

    pub fn is_election_running(&self) -> (r: bool)
        ensures
            r == self.timers().election_running,
    {
        self.election_running
    }

    pub fn is_heartbeat_running(&self) -> (r: bool)
        ensures
            r == self.timers().heartbeat_running,
    {
        self.heartbeat_running
    }

    /// The timer of `kind` has fired since it was last reset or stopped.
    pub closed spec fn fired(&self, kind: TimerKind) -> bool {
        match kind {
            TimerKind::Election => self.election_fired,
            TimerKind::Heartbeat => self.heartbeat_fired,
        }
    }

    /// The timers that `check_expired` reports: each that runs and has fired,
    /// election before heartbeat.
    pub open spec fn expired_view(&self) -> Seq<TimerKind> {
        let e = if self.timers().election_running && self.fired(TimerKind::Election) {
            seq![TimerKind::Election]
        } else {
            Seq::empty()
        };
        let h = if self.timers().heartbeat_running && self.fired(TimerKind::Heartbeat) {
            seq![TimerKind::Heartbeat]
        } else {
            Seq::empty()
        };
        e + h
    }

    /// Makes the timer of `kind` fire, if it runs; it is reported until it is reset or stopped.
    pub fn fire(&mut self, kind: TimerKind)
        ensures
            timers_same(old(self).timers(), final(self).timers()),
            final(self).fired(kind) == (old(self).fired(kind) || (match kind {
                TimerKind::Election => old(self).timers().election_running,
                TimerKind::Heartbeat => old(self).timers().heartbeat_running,
            })),
            forall|other: TimerKind| other != kind ==> #[trigger] final(self).fired(other) == old(self).fired(other),
    {
        match kind {
            TimerKind::Election => {
                if self.election_running {
                    self.election_fired = true;
                }
            },
            TimerKind::Heartbeat => {
                if self.heartbeat_running {
                    self.heartbeat_fired = true;
                }
            },
        }
    }
}

/// Both timers run as before and have not been restarted.
pub open spec fn timers_same(a: TimerState, b: TimerState) -> bool {
    &&& a.election_running == b.election_running
    &&& a.heartbeat_running == b.heartbeat_running
    &&& a.election_restarts == b.election_restarts
    &&& a.heartbeat_restarts == b.heartbeat_restarts
}

impl TimerService for ManualTimer {
    closed spec fn timers(&self) -> TimerState {
        TimerState {
            election_running: self.election_running,
            heartbeat_running: self.heartbeat_running,
            election_restarts: self.election_restarts@,
            heartbeat_restarts: self.heartbeat_restarts@,
        }
    }

    fn reset_election_timer(&mut self) {
        self.election_running = true;
        self.election_fired = false;
        self.election_restarts = Ghost(self.election_restarts@ + 1);
    }

    fn reset_heartbeat_timer(&mut self) {
        self.heartbeat_running = true;
        self.heartbeat_fired = false;
        self.heartbeat_restarts = Ghost(self.heartbeat_restarts@ + 1);
    }

    fn stop_timers(&mut self) {
        self.election_running = false;
        self.heartbeat_running = false;
        self.election_fired = false;
        self.heartbeat_fired = false;
    }

    fn check_expired(&self) -> (r: ExpiredTimers)
        ensures
            r@ == self.expired_view(),
    {
        let mut expired = ExpiredTimers::new();
        if self.election_running && self.election_fired {
            expired.push(TimerKind::Election);
        }
        if self.heartbeat_running && self.heartbeat_fired {
            expired.push(TimerKind::Heartbeat);
        }
        assert(expired@ =~= self.expired_view());
        expired
    }
}

} // verus!
