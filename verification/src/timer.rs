//! One-shot countdown timers, measured in elapsed milliseconds since the last
//! (re)arm and checked once per tick: the drop cooldown and the game-over
//! grace timer are both of this kind.

use vstd::prelude::*;

verus! {

/// A one-shot timer: `elapsed_ms` grows with each tick and saturates at
/// `duration_ms`, at which point the timer is finished.
#[derive(Clone, Copy, Debug, PartialEq, Eq, Structural)]
pub struct Timer {
    pub elapsed_ms: u32,
    pub duration_ms: u32,
}

impl Timer {
    /// Elapsed time never exceeds the duration.
    pub open spec fn wf(self) -> bool {
        self.elapsed_ms <= self.duration_ms
    }

    /// The timer has run for its full duration.
    pub open spec fn spec_finished(self) -> bool {
        self.elapsed_ms >= self.duration_ms
    }

    /// A fresh timer that will finish after `duration_ms` of ticking.
    pub fn new(duration_ms: u32) -> (t: Timer)
        ensures
            t.wf(),
            t.duration_ms == duration_ms,
            t.elapsed_ms == 0,
    {
        Timer { elapsed_ms: 0, duration_ms }
    }

    /// Advances the timer by `dt_ms`, saturating at the duration. Returns
    /// whether the timer finished on exactly this tick.
    pub fn tick(&mut self, dt_ms: u32) -> (just_finished: bool)
        requires
            old(self).wf(),
        ensures
            final(self).wf(),
            final(self).duration_ms == old(self).duration_ms,
            final(self).elapsed_ms == if old(self).elapsed_ms + dt_ms
                >= old(self).duration_ms {
                old(self).duration_ms as int
            } else {
                old(self).elapsed_ms + dt_ms
            },
            just_finished == (!old(self).spec_finished() && final(self).spec_finished()),
            *final(self) == spec_ticked(*old(self), dt_ms),
    {
        let was_finished = self.elapsed_ms >= self.duration_ms;
        if dt_ms >= self.duration_ms - self.elapsed_ms {
            self.elapsed_ms = self.duration_ms;
        } else {
            self.elapsed_ms = self.elapsed_ms + dt_ms;
        }
        !was_finished && self.elapsed_ms >= self.duration_ms
    }

    /// Whether the timer has run for its full duration.
    pub fn finished(&self) -> (r: bool)
        ensures
            r == self.spec_finished(),
    {
        self.elapsed_ms >= self.duration_ms
    }

    /// Rewinds the timer to the start of a fresh countdown.
    pub fn reset(&mut self)
        ensures
            final(self).wf(),
            final(self).duration_ms == old(self).duration_ms,
            final(self).elapsed_ms == 0,
    {
        self.elapsed_ms = 0;
    }
}

/// The timer value after one tick of `dt_ms`: elapsed time grows and
/// saturates at the duration.
pub open spec fn spec_ticked(t: Timer, dt_ms: u32) -> Timer {
    Timer {
        elapsed_ms: if t.elapsed_ms + dt_ms >= t.duration_ms {
            t.duration_ms
        } else {
            (t.elapsed_ms + dt_ms) as u32
        },
        duration_ms: t.duration_ms,
    }
}

/// Total of a run of tick durations.
pub open spec fn spec_total(dts: Seq<u32>) -> int
    decreases dts.len(),
{
    if dts.len() == 0 {
        0
    } else {
        dts[0] + spec_total(dts.drop_first())
    }
}

/// The timer value after a whole run of ticks.
pub open spec fn spec_run(t: Timer, dts: Seq<u32>) -> Timer
    decreases dts.len(),
{
    if dts.len() == 0 {
        t
    } else {
        spec_run(spec_ticked(t, dts[0]), dts.drop_first())
    }
}

/// A run's total is never negative.
pub proof fn lemma_total_nonneg(dts: Seq<u32>)
    ensures
        spec_total(dts) >= 0,
    decreases dts.len(),
{
    if dts.len() > 0 {
        lemma_total_nonneg(dts.drop_first());
    }
}

/// A prefix of a run never totals more than the whole run.
pub proof fn lemma_total_prefix(dts: Seq<u32>, p: int)
    requires
        0 <= p <= dts.len(),
    ensures
        spec_total(dts.take(p)) <= spec_total(dts),
    decreases dts.len(),
{
    if p == 0 {
        lemma_total_nonneg(dts);
    } else {
        assert(dts.take(p).drop_first() =~= dts.drop_first().take(p - 1));
        lemma_total_prefix(dts.drop_first(), p - 1);
    }
}

/// A one-shot timer ticked for strictly less than its duration in total
/// never finishes: however the time is cut into ticks, a condition observed
/// for less than the full countdown cannot see the timer expire.
pub proof fn lemma_run_short(t: Timer, dts: Seq<u32>)
    requires
        t.wf(),
        t.elapsed_ms + spec_total(dts) < t.duration_ms,
    ensures
        spec_run(t, dts).wf(),
        spec_run(t, dts).duration_ms == t.duration_ms,
        spec_run(t, dts).elapsed_ms == t.elapsed_ms + spec_total(dts),
        !spec_run(t, dts).spec_finished(),
    decreases dts.len(),
{
    if dts.len() > 0 {
        lemma_total_nonneg(dts.drop_first());
        lemma_run_short(spec_ticked(t, dts[0]), dts.drop_first());
    }
}

/// A one-shot timer ticked for its full duration or more in total always
/// finishes: a condition sustained past the countdown always sees it
/// expire, however the time is cut into ticks.
pub proof fn lemma_run_expires(t: Timer, dts: Seq<u32>)
    requires
        t.wf(),
        t.elapsed_ms + spec_total(dts) >= t.duration_ms,
    ensures
        spec_run(t, dts).wf(),
        spec_run(t, dts).duration_ms == t.duration_ms,
        spec_run(t, dts).spec_finished(),
    decreases dts.len(),
{
    if dts.len() == 0 {
    } else {
        lemma_total_nonneg(dts.drop_first());
        lemma_run_expires(spec_ticked(t, dts[0]), dts.drop_first());
    }
}

/// The drop cooldown: gates repeated drops of the active fruit.
#[derive(Clone, Copy, Debug, PartialEq, Eq, Structural)]
pub struct CoolDown {
    pub timer: Timer,
}

} // verus!
