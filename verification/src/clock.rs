//! Pausable playback clock.
//!
//! The clock accumulates elapsed wall time into "playtime" and can be
//! paused and resumed.  Wall-clock readings are supplied by the caller
//! as plain millisecond instants taken from one monotonic origin; the
//! clock itself never reads a clock.  Samples handed to one clock must
//! be non-decreasing, which every method states as a precondition.

use vstd::prelude::*;

verus! {

/// Wall-clock elapsed-time accumulator that can be paused/resumed,
/// producing "playtime": total elapsed real time since creation minus
/// all paused intervals (including the currently open one if paused).
///
/// Playtime is monotonically non-decreasing while the clock runs and
/// frozen (constant) while it is paused.  `pause` while already paused
/// and `resume` while already running are no-ops: no paused interval is
/// ever double-counted.
pub struct PausableClock {
    /// Instant (ms) at which the clock was created.
    pub started_at: u64,
    /// Total length (ms) of all closed paused intervals so far.
    pub paused_accum: u64,
    /// Instant (ms) at which the currently open paused interval began,
    /// if the clock is paused.
    pub paused_since: Option<u64>,
    /// The latest instant sampled by any method of this clock.
    pub last_sample: Ghost<u64>,
}

impl PausableClock {
    /// Internal consistency: the accumulated paused time never exceeds
    /// the real time that has passed, and the open paused interval (if
    /// any) began after creation and no later than the latest sample.
    pub open spec fn wf(self) -> bool {
        &&& self.started_at <= self.last_sample@
        &&& match self.paused_since {
            Some(p) => {
                &&& self.started_at <= p <= self.last_sample@
                &&& self.paused_accum <= p - self.started_at
            },
            None => self.paused_accum <= self.last_sample@ - self.started_at,
        }
    }

    /// Whether the clock is currently paused.
    pub open spec fn is_paused(self) -> bool {
        self.paused_since is Some
    }

    /// The playtime shown at instant `now`: real time since creation
    /// minus all paused time, the open paused interval included.
    pub open spec fn spec_playtime(self, now: u64) -> int {
        match self.paused_since {
            Some(p) => p - self.started_at - self.paused_accum,
            None => now - self.started_at - self.paused_accum,
        }
    }

    /// Creates a running clock at instant `now` with zero playtime.
    pub fn new(now: u64) -> (c: PausableClock)
        ensures
            c.wf(),
            !c.is_paused(),
            c.last_sample@ == now,
            c.spec_playtime(now) == 0,
    {
        PausableClock {
            started_at: now,
            paused_accum: 0,
            paused_since: None,
            last_sample: Ghost(now),
        }
    }

    /// Freezes playtime accumulation.  Calling it while already paused
    /// changes nothing but the sample bookkeeping: playtime keeps the
    /// value it had, and no paused time is double-counted.
    pub fn pause(&mut self, now: u64)
        requires
            old(self).wf(),
            now >= old(self).last_sample@,
        ensures
            final(self).wf(),
            final(self).is_paused(),
            final(self).last_sample@ == now,
            final(self).spec_playtime(now) == old(self).spec_playtime(now),
            forall|later: u64|
                later >= now ==> final(self).spec_playtime(later) == old(
                    self,
                ).spec_playtime(now),
    {
        if self.paused_since.is_none() {
            self.paused_since = Some(now);
        }
        self.last_sample = Ghost(now);
    }

    /// Unfreezes playtime accumulation.  Calling it while already
    /// running changes nothing but the sample bookkeeping.  Playtime is
    /// continuous across the transition: immediately after resuming it
    /// equals the frozen value.
    pub fn resume(&mut self, now: u64)
        requires
            old(self).wf(),
            now >= old(self).last_sample@,
        ensures
            final(self).wf(),
            !final(self).is_paused(),
            final(self).last_sample@ == now,
            final(self).spec_playtime(now) == old(self).spec_playtime(now),
            final(self).started_at == old(self).started_at,
    {
        if let Some(p) = self.paused_since {
            self.paused_accum = self.paused_accum + (now - p);
            self.paused_since = None;
        }
        self.last_sample = Ghost(now);
    }

    /// Returns the playtime at instant `now`.  While paused the result
    /// does not depend on `now`; while running it advances with `now`.
    pub fn playtime(&self, now: u64) -> (t: u64)
        requires
            self.wf(),
            now >= self.last_sample@,
        ensures
            t == self.spec_playtime(now),
    {
        match self.paused_since {
            Some(p) => p - self.started_at - self.paused_accum,
            None => now - self.started_at - self.paused_accum,
        }
    }
}

/// Playtime never decreases when read at non-decreasing instants, and
/// is constant in the instant while the clock is paused.
pub proof fn lemma_playtime_monotone(c: PausableClock, n1: u64, n2: u64)
    requires
        c.wf(),
        c.last_sample@ <= n1 <= n2,
    ensures
        c.spec_playtime(n1) <= c.spec_playtime(n2),
        c.is_paused() ==> c.spec_playtime(n1) == c.spec_playtime(n2),
{
}

/// Paused time does not accumulate: for a running well-formed clock,
/// after the pair `pause(t_pause); resume(t_resume)` the playtime read
/// at `t_resume` equals the playtime read at `t_pause` just before
/// pausing, however long the pause lasted.  The two states written out
/// below are exactly those that `pause` and then `resume` produce.
pub proof fn lemma_pause_resume_playtime(c: PausableClock, t_pause: u64, t_resume: u64)
    requires
        c.wf(),
        !c.is_paused(),
        t_pause >= c.last_sample@,
        t_resume >= t_pause,
    ensures
        ({
            let paused = PausableClock {
                paused_since: Some(t_pause),
                last_sample: Ghost(t_pause),
                ..c
            };
            let resumed = PausableClock {
                paused_accum: (c.paused_accum + (t_resume - t_pause)) as u64,
                paused_since: None,
                last_sample: Ghost(t_resume),
                ..c
            };
            &&& paused.spec_playtime(t_pause) == c.spec_playtime(t_pause)
            &&& resumed.spec_playtime(t_resume) == c.spec_playtime(t_pause)
        }),
{
}

} // verus!
