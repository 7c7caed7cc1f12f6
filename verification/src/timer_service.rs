use vstd::prelude::*;

verus! {

#[derive(Clone, Copy, Debug, PartialEq, Eq, Structural)]
pub enum TimerKind {
    Election,
    Heartbeat,
}

/// Up to two timers that have fired, in the order they were reported.
#[derive(Debug)]
pub struct ExpiredTimers {
    timers: [Option<TimerKind>; 2],
    count: usize,
}

impl View for ExpiredTimers {
    type V = Seq<TimerKind>;

    closed spec fn view(&self) -> Seq<TimerKind> {
        Seq::new(self.count as nat, |i: int| self.timers@[i]->0)
    }
}

impl ExpiredTimers {
    #[verifier::type_invariant]
    spec fn inv(&self) -> bool {
        &&& self.count <= 2
        &&& forall|i: int| 0 <= i < self.count ==> self.timers@[i] is Some
    }

    pub fn new() -> (r: Self)
        ensures
            r@ == Seq::<TimerKind>::empty(),
    {
        ExpiredTimers { timers: [None, None], count: 0 }
    }

    /// Records `kind`; a third timer is ignored.
    pub fn push(&mut self, kind: TimerKind)
        ensures
            old(self)@.len() < 2 ==> final(self)@ == old(self)@.push(kind),
            old(self)@.len() >= 2 ==> final(self)@ == old(self)@,
    {
        proof {
            use_type_invariant(&*self);
        }
        if self.count < 2 {
            let c = self.count;
            let mut timers = self.timers;
            timers[c] = Some(kind);
            self.timers = timers;
            self.count = c + 1;
            assert(self@ =~= old(self)@.push(kind));
        }
    }

    /// The expired timers, in order.
    pub fn iter(&self) -> (r: Vec<TimerKind>)
        ensures
            r@ == self@,
    {
        proof {
            use_type_invariant(self);
        }
        let mut out: Vec<TimerKind> = Vec::new();
        let mut i: usize = 0;
        while i < self.count
            invariant
                self.count <= 2,
                forall|k: int| 0 <= k < self.count ==> self.timers@[k] is Some,
                i <= self.count,
                out@ == self@.take(i as int),
            decreases self.count - i,
        {
            match self.timers[i] {
                Some(t) => out.push(t),
                None => {},
            }
            i = i + 1;
            assert(out@ =~= self@.take(i as int));
        }
        assert(out@ =~= self@);
        out
    }

    pub fn is_empty(&self) -> (r: bool)
        ensures
            r == (self@.len() == 0),
    {
        self.count == 0
    }
}

/// Which timers are running, and how often each has been restarted.
pub struct TimerState {
    pub election_running: bool,
    pub heartbeat_running: bool,
    pub election_restarts: nat,
    pub heartbeat_restarts: nat,
}

/// The election and heartbeat timers of a server.
///
/// `timers` says which of them run and counts the restarts of each. When a running
/// timer fires is up to the implementation; `check_expired` reports it.
pub trait TimerService {
    spec fn timers(&self) -> TimerState;

    fn reset_election_timer(&mut self)
        ensures
            final(self).timers().election_running,
            final(self).timers().heartbeat_running == old(self).timers().heartbeat_running,
            final(self).timers().election_restarts == old(self).timers().election_restarts + 1,
            final(self).timers().heartbeat_restarts == old(self).timers().heartbeat_restarts,
    ;

    fn reset_heartbeat_timer(&mut self)
        ensures
            final(self).timers().heartbeat_running,
            final(self).timers().election_running == old(self).timers().election_running,
            final(self).timers().heartbeat_restarts == old(self).timers().heartbeat_restarts + 1,
            final(self).timers().election_restarts == old(self).timers().election_restarts,
    ;

    fn stop_timers(&mut self)
        ensures
            !final(self).timers().election_running,
            !final(self).timers().heartbeat_running,
            final(self).timers().election_restarts == old(self).timers().election_restarts,
            final(self).timers().heartbeat_restarts == old(self).timers().heartbeat_restarts,
    ;

    fn check_expired(&self) -> (r: ExpiredTimers)
        ensures
            r@.contains(TimerKind::Election) ==> self.timers().election_running,
            r@.contains(TimerKind::Heartbeat) ==> self.timers().heartbeat_running,
    ;
}

} // verus!
