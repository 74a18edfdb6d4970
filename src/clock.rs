//! Fixed-timestep clock: wall-clock deltas, capped, feed an accumulator that
//! is drained in fixed steps, one simulation update per step. Times are in
//! nanoseconds.
use vstd::prelude::*;

verus! {

/// What one tick asks of the caller: run `updates` simulation updates, the
/// first with frame number `first_frame`, all at logical time `timeline`.
#[derive(Clone, Copy, Debug, PartialEq, Eq, Structural)]
pub struct Tick {
    pub updates: u64,
    pub first_frame: u64,
    pub timeline: u64,
}

/// A fixed-timestep accumulator clock.
#[derive(Clone, Copy, Debug, PartialEq, Eq, Structural)]
pub struct FixedClock {
    /// Length of one simulation step.
    pub step: u64,
    /// Largest delta one tick accounts for.
    pub max_frame_time: u64,
    /// Time received and not yet consumed by a step; always below `step`.
    pub accumulated: u64,
    /// Logical time: the sum of all capped deltas.
    pub timeline: u64,
    /// Number of updates run so far.
    pub frame: u64,
}

pub open spec fn min_nat(a: nat, b: nat) -> nat {
    if a <= b {
        a
    } else {
        b
    }
}

/// `a + b`, held at `u64::MAX` instead of overflowing.
pub open spec fn saturating_sum(a: nat, b: nat) -> nat {
    min_nat(a + b, u64::MAX as nat)
}

impl FixedClock {
    pub open spec fn wf(&self) -> bool {
        &&& self.step > 0
        &&& self.accumulated < self.step
        &&& self.step + self.max_frame_time <= u64::MAX
    }

    /// The delta a tick accounts for: `elapsed`, capped at the maximum frame time.
    pub open spec fn capped(&self, elapsed: u64) -> nat {
        min_nat(elapsed as nat, self.max_frame_time as nat)
    }

    /// Time owed to the simulation after accounting for `elapsed`.
    pub open spec fn owed(&self, elapsed: u64) -> nat {
        self.accumulated as nat + self.capped(elapsed)
    }

    /// A clock at time zero, with no update run yet.
    pub fn new(step: u64, max_frame_time: u64) -> (r: Self)
        requires
            step > 0,
            step + max_frame_time <= u64::MAX,
        ensures
            r.wf(),
            r == (FixedClock { step, max_frame_time, accumulated: 0, timeline: 0, frame: 0 }),
    {
        FixedClock { step, max_frame_time, accumulated: 0, timeline: 0, frame: 0 }
    }

    /// Accounts for `elapsed` wall-clock time. The number of updates owed is
    /// `(accumulated + capped elapsed) / step`; the remainder stays accumulated.
    pub fn tick(&mut self, elapsed: u64) -> (r: Tick)
        requires
            old(self).wf(),
        ensures
            final(self).wf(),
            final(self).step == old(self).step,
            final(self).max_frame_time == old(self).max_frame_time,
            r.updates == old(self).owed(elapsed) / (old(self).step as nat),
            final(self).accumulated == old(self).owed(elapsed) % (
            old(self).step as nat),
            final(self).timeline == saturating_sum(
                old(self).timeline as nat,
                old(self).capped(elapsed),
            ),
            final(self).frame == saturating_sum(old(self).frame as nat, r.updates as nat),
            r.first_frame == old(self).frame,
            r.timeline == final(self).timeline,
    {
        let capped = if elapsed > self.max_frame_time {
            self.max_frame_time
        } else {
            elapsed
        };
        let total = self.accumulated + capped;
        let updates = total / self.step;
        let first_frame = self.frame;
        self.accumulated = total % self.step;
        self.timeline = self.timeline.saturating_add(capped);
        self.frame = self.frame.saturating_add(updates);
        Tick { updates, first_frame, timeline: self.timeline }
    }

    /// The interpolation fraction of the partial step, as numerator and
    /// denominator; it lies in `[0, 1)`.
    pub fn blending_factor(&self) -> (r: (u64, u64))
        requires
            self.wf(),
        ensures
            r == (self.accumulated, self.step),
            r.0 < r.1,
    {
        (self.accumulated, self.step)
    }
}

/// After a tick, the updates owed and the remainder account exactly for the
/// time accumulated, and the remainder is less than one step.
pub proof fn lemma_tick_accounts_for_time(c: FixedClock, elapsed: u64, updates: nat, rest: nat)
    requires
        c.wf(),
        updates == c.owed(elapsed) / (c.step as nat),
        rest == c.owed(elapsed) % (c.step as nat),
    ensures
        updates * (c.step as nat) + rest == c.owed(elapsed),
        0 <= rest < c.step,
        updates <= 1 + (c.max_frame_time as nat) / (c.step as nat),
{
    let total = c.owed(elapsed);
    let s = c.step as nat;
    vstd::arithmetic::div_mod::lemma_fundamental_div_mod(total as int, s as int);
    assert(total < s + c.max_frame_time as nat);
    vstd::arithmetic::div_mod::lemma_div_is_ordered(total as int, (s + c.max_frame_time) as int, s as int);
    vstd::arithmetic::div_mod::lemma_div_plus_one(c.max_frame_time as int, s as int);
}

} // verus!
