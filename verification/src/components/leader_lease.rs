use crate::clock::{millis, sat_add, sat_sub, Clock, Instant};
use vstd::prelude::*;

verus! {

/// A lease that expires at `expiration` holds at `now`.
pub open spec fn lease_holds(expiration: Option<Instant>, now: Instant) -> bool {
    expiration is Some && now.0 < millis(expiration->0)
}

/// Milliseconds from `now` until a lease that expires at `expiration` ends; `None`
/// when it does not hold at `now`.
pub open spec fn remaining_at(expiration: Option<Instant>, now: Instant) -> Option<u64> {
    if expiration is Some && now.0 < millis(expiration->0) {
        Some(sat_sub(millis(expiration->0), now.0))
    } else {
        None::<u64>
    }
}

/// A lease granted at `granted_at` for `duration` holds exactly at the instants from
/// `granted_at` until `duration` later (when that stays representable); a revoked lease
/// holds at no instant.
pub proof fn lemma_lease_window(granted_at: Instant, duration: u64, now: Instant)
    requires
        granted_at.0 + duration <= u64::MAX,
    ensures
        lease_holds(Some(Instant(sat_add(granted_at.0, duration))), now) <==> now.0 < granted_at.0 + duration,
        !lease_holds(None, now),
{
}

/// A leader's lease: while it holds, the leader may serve reads without a round of
/// messages. Granted for a fixed duration from the moment of the grant.
pub struct LeaderLease<C> {
    expiration: Option<Instant>,
    lease_duration_millis: u64,
    clock: C,
}

impl<C: Clock> LeaderLease<C> {
    pub closed spec fn expiration_view(&self) -> Option<Instant> {
        self.expiration
    }

    pub closed spec fn duration(&self) -> u64 {
        self.lease_duration_millis
    }

    pub closed spec fn clock_view(&self) -> C {
        self.clock
    }

    pub fn new(lease_duration_millis: u64, clock: C) -> (r: Self)
        ensures
            r.expiration_view() is None,
            r.duration() == lease_duration_millis,
            r.clock_view() == clock,
    {
        LeaderLease { expiration: None, lease_duration_millis, clock }
    }

    /// Grants the lease from the clock's current time.
    pub fn grant(&mut self)
        ensures
            final(self).expiration_view() is Some,
            millis(final(self).expiration_view()->0) >= final(self).duration(),
            final(self).duration() == old(self).duration(),
            final(self).clock_view() == old(self).clock_view(),
    {
        let now = self.clock.now();
        self.grant_at(now);
    }

    /// Grants the lease from `now`: it expires the lease duration later.
    pub fn grant_at(&mut self, now: Instant)
        ensures
            final(self).expiration_view() == Some(Instant(sat_add(now.0, old(self).duration()))),
            final(self).duration() == old(self).duration(),
            final(self).clock_view() == old(self).clock_view(),
    {
        self.expiration = Some(now.plus_millis(self.lease_duration_millis));
    }

    /// Whether the lease holds at the clock's current time.
    pub fn is_valid(&self) -> (r: bool)
        ensures
            self.expiration_view() is None ==> !r,
            exists|now: Instant| #[trigger] lease_holds(self.expiration_view(), now) == r,
    {
        match self.expiration {
            None => {
                assert(lease_holds(self.expiration_view(), Instant(0)) == false);
                false
            },
            Some(_) => {
                let now = self.clock.now();
                let r = self.is_valid_at(now);
                assert(lease_holds(self.expiration_view(), now) == r);
                r
            },
        }
    }

    /// Whether the lease holds at `now`: granted, and not yet expired.
    pub fn is_valid_at(&self, now: Instant) -> (r: bool)
        ensures
            r == lease_holds(self.expiration_view(), now),
    {
        match self.expiration {
            None => false,
            Some(expiration) => now.is_before(expiration),
        }
    }

    pub fn revoke(&mut self)
        ensures
            final(self).expiration_view() is None,
            final(self).duration() == old(self).duration(),
            final(self).clock_view() == old(self).clock_view(),
    {
        self.expiration = None;
    }

    /// Milliseconds until the lease expires, at the clock's current time.
    pub fn time_remaining_millis(&self) -> (r: Option<u64>)
        ensures
            self.expiration_view() is None ==> r is None,
            r is Some ==> self.expiration_view() is Some && 0 < r->0 <= millis(self.expiration_view()->0),
            exists|now: Instant| #[trigger] remaining_at(self.expiration_view(), now) == r,
    {
        match self.expiration {
            None => {
                assert(remaining_at(self.expiration_view(), Instant(0)) == None::<u64>);
                None
            },
            Some(_) => {
                let now = self.clock.now();
                let r = self.time_remaining_at(now);
                assert(remaining_at(self.expiration_view(), now) == r);
                r
            },
        }
    }

    /// Milliseconds from `now` until the lease expires; `None` when it does not hold at `now`.
    pub fn time_remaining_at(&self, now: Instant) -> (r: Option<u64>)
        ensures
            r == remaining_at(self.expiration_view(), now),
    {
        match self.expiration {
            None => None,
            Some(expiration) => {
                if now.is_before(expiration) {
                    Some(expiration.millis_since(now))
                } else {
                    None
                }
            },
        }
    }
}

} // verus!
