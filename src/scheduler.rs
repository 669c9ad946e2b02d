//! The tick scheduler as explicit state: each cadence remembers when it is
//! next due, so a driver loop only asks which passes to run at a moment.
use vstd::prelude::*;

verus! {

/// Default fast cadence: condition decay and NPC stepping, in milliseconds.
pub const DEFAULT_FAST_MS: u64 = 1000;

/// Default medium cadence: NPC wandering and environment, in milliseconds.
pub const DEFAULT_MEDIUM_MS: u64 = 5000;

/// Default slow cadence: event expiry and cleanup, in milliseconds.
pub const DEFAULT_SLOW_MS: u64 = 60000;

/// One periodic cadence. Ticks missed while the driver was late collapse
/// into a single firing, and the next one is an interval after it.
#[derive(Clone, Copy, Debug, PartialEq, Eq, Structural)]
pub struct Cadence {
    pub interval_ms: u64,
    pub next_at: u64,
}

/// `a + b`, or the largest `u64` when the sum does not fit.
pub open spec fn sat_add(a: u64, b: u64) -> u64 {
    if a + b > u64::MAX {
        u64::MAX
    } else {
        (a + b) as u64
    }
}

impl Cadence {
    pub fn new(interval_ms: u64, start: u64) -> (r: Cadence)
        ensures
            r.interval_ms == interval_ms,
            r.next_at == sat_add(start, interval_ms),
    {
        Cadence { interval_ms, next_at: start.saturating_add(interval_ms) }
    }

    pub open spec fn due(&self, now: u64) -> bool {
        now >= self.next_at
    }

    /// Whether the cadence fires at `now`; when it does, the next firing is
    /// one interval after `now`.
    pub fn poll(&mut self, now: u64) -> (fired: bool)
        ensures
            fired == old(self).due(now),
            fired ==> *final(self) == (Cadence { next_at: sat_add(now, old(self).interval_ms), ..*old(self) }),
            !fired ==> *final(self) == *old(self),
    {
        if now >= self.next_at {
            self.next_at = now.saturating_add(self.interval_ms);
            true
        } else {
            false
        }
    }
}

/// Which maintenance passes are due.
#[derive(Clone, Copy, Debug, PartialEq, Eq, Structural)]
pub struct DueTicks {
    pub fast: bool,
    pub medium: bool,
}

/// The fast and medium cadences of one region.
#[derive(Clone, Copy, Debug, PartialEq, Eq, Structural)]
pub struct RegionSchedule {
    pub region_id: u64,
    pub fast: Cadence,
    pub medium: Cadence,
}

impl RegionSchedule {
    pub open spec fn new_spec(region_id: u64, fast_ms: u64, medium_ms: u64, start: u64) -> RegionSchedule {
        RegionSchedule {
            region_id,
            fast: Cadence::new_spec(fast_ms, start),
            medium: Cadence::new_spec(medium_ms, start),
        }
    }

    pub fn new(region_id: u64, fast_ms: u64, medium_ms: u64, start: u64) -> (r: RegionSchedule)
        ensures
            r == RegionSchedule::new_spec(region_id, fast_ms, medium_ms, start),
    {
        RegionSchedule {
            region_id,
            fast: Cadence::new(fast_ms, start),
            medium: Cadence::new(medium_ms, start),
        }
    }

    /// The passes due at `now`. An inactive region is not driven: nothing
    /// is due and its schedule stays as it was.
    pub fn poll(&mut self, now: u64, region_active: bool) -> (r: DueTicks)
        ensures
            !region_active ==> !r.fast && !r.medium && *final(self) == *old(self),
            region_active ==> r.fast == old(self).fast.due(now) && r.medium == old(self).medium.due(now),
            final(self).region_id == old(self).region_id,
            final(self).fast.interval_ms == old(self).fast.interval_ms,
            final(self).medium.interval_ms == old(self).medium.interval_ms,
            r.fast ==> final(self).fast.next_at == sat_add(now, old(self).fast.interval_ms),
            !r.fast ==> final(self).fast == old(self).fast,
            r.medium ==> final(self).medium.next_at == sat_add(now, old(self).medium.interval_ms),
            !r.medium ==> final(self).medium == old(self).medium,
    {
        if !region_active {
            return DueTicks { fast: false, medium: false };
        }
        let fast = self.fast.poll(now);
        let medium = self.medium.poll(now);
        DueTicks { fast, medium }
    }
}

impl Cadence {
    pub open spec fn new_spec(interval_ms: u64, start: u64) -> Cadence {
        Cadence { interval_ms, next_at: sat_add(start, interval_ms) }
    }
}

/// Polling twice at the same moment fires a cadence at most once, provided
/// its interval is not zero.
pub proof fn lemma_poll_once_per_moment(c: Cadence, now: u64)
    requires
        c.interval_ms > 0,
        now < u64::MAX,
    ensures
        c.due(now) ==> !(Cadence { next_at: sat_add(now, c.interval_ms), ..c }).due(now),
{
}

} // verus!
