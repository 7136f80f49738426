//! The transition state machine: turns a binary open/close intent plus
//! wall-clock time into a continuous visible extent, bounded by the strip
//! thickness, moving linearly at `thickness / duration` per millisecond and
//! reversing smoothly from wherever it currently stands.

use vstd::prelude::*;
use vstd::arithmetic::div_mod::{lemma_div_is_ordered, lemma_div_multiples_vanish, lemma_div_pos_is_pos};
use vstd::arithmetic::mul::lemma_mul_inequality;

verus! {

/// Animation state of one widget. `current` is the visible extent in
/// subpixels, always within `[0, thickness]`; `target_open` the recorded
/// intent; `last_ms` the clock value of the latest advance.
#[derive(Clone, Copy, Debug)]
pub struct TransitionState {
    pub thickness: u64,
    pub duration_ms: u64,
    pub current: u64,
    pub target_open: bool,
    pub last_ms: u64,
}

/// How far the extent may move, in subpixels, over `delta_ms` milliseconds:
/// the full thickness when the duration is zero (instantaneous snap) or
/// already elapsed, otherwise the linear share of the thickness.
pub open spec fn spec_step(thickness: u64, duration_ms: u64, delta_ms: int) -> int {
    if duration_ms == 0 || delta_ms >= duration_ms {
        thickness as int
    } else {
        (thickness as int * delta_ms) / (duration_ms as int)
    }
}

impl TransitionState {
    /// The one internal invariant: the visible extent never leaves
    /// `[0, thickness]`.
    pub open spec fn wf(self) -> bool {
        self.current <= self.thickness
    }

    /// The extent the animation is heading for: full thickness when opening,
    /// zero when closing.
    pub open spec fn spec_target_extent(self) -> u64 {
        if self.target_open {
            self.thickness
        } else {
            0
        }
    }

    /// Settled means the current extent equals the target exactly.
    pub open spec fn spec_settled(self) -> bool {
        self.current == self.spec_target_extent()
    }

    /// Milliseconds elapsed since the latest advance; a clock that moved
    /// backwards counts as no time passed.
    pub open spec fn spec_delta_ms(self, now_ms: u64) -> int {
        if now_ms >= self.last_ms {
            now_ms - self.last_ms
        } else {
            0
        }
    }

    /// The state after recording a new intent: only the target changes, the
    /// current extent stays where it is.
    pub open spec fn spec_with_target(self, open: bool) -> TransitionState {
        TransitionState { target_open: open, ..self }
    }

    /// The extent after advancing to clock value `now_ms`: one step toward
    /// the target, clamped at the bound.
    pub open spec fn spec_moved(self, now_ms: u64) -> int {
        let step = spec_step(self.thickness, self.duration_ms, self.spec_delta_ms(now_ms));
        if self.target_open {
            if self.current + step >= self.thickness {
                self.thickness as int
            } else {
                self.current + step
            }
        } else {
            if step >= self.current {
                0
            } else {
                self.current - step
            }
        }
    }

    /// The whole state after advancing to clock value `now_ms`.
    pub open spec fn spec_advanced(self, now_ms: u64) -> TransitionState {
        TransitionState { current: self.spec_moved(now_ms) as u64, last_ms: now_ms, ..self }
    }

    /// A fresh state: closed, settled, clock at zero.
    pub fn new(thickness: u64, duration_ms: u64) -> (ts: TransitionState)
        ensures
            ts == (TransitionState {
                thickness,
                duration_ms,
                current: 0,
                target_open: false,
                last_ms: 0,
            }),
            ts.wf(),
            ts.spec_settled(),
    {
        TransitionState { thickness, duration_ms, current: 0, target_open: false, last_ms: 0 }
    }

    /// Records the desired end state. Does not touch the current extent, so
    /// a reversal mid-animation continues smoothly from where it stands, and
    /// repeating the same intent changes nothing.
    pub fn set_target(&mut self, open: bool)
        ensures
            *final(self) == old(self).spec_with_target(open),
            final(self).current == old(self).current,
    {
        self.target_open = open;
    }

    /// True iff the current extent equals the current target exactly.
    pub fn is_settled(&self) -> (r: bool)
        ensures
            r == self.spec_settled(),
    {
        let target = if self.target_open {
            self.thickness
        } else {
            0
        };
        self.current == target
    }

    /// Moves the extent toward the target for the time elapsed since the
    /// previous advance, clamped to `[0, thickness]`, and returns it.
    pub fn advance(&mut self, now_ms: u64) -> (ext: u64)
        requires
            old(self).wf(),
        ensures
            *final(self) == old(self).spec_advanced(now_ms),
            final(self).wf(),
            ext == final(self).current,
            ext <= old(self).thickness,
    {
        let delta = if now_ms >= self.last_ms {
            now_ms - self.last_ms
        } else {
            0
        };
        let step: u64 = if self.duration_ms == 0 || delta >= self.duration_ms {
            self.thickness
        } else {
            proof {
                let t = self.thickness as int;
                let dl = delta as int;
                assert(t * dl <= 0xffff_ffff_ffff_ffff * 0xffff_ffff_ffff_ffff)
                    by (nonlinear_arith)
                    requires 0 <= t <= 0xffff_ffff_ffff_ffff, 0 <= dl <= 0xffff_ffff_ffff_ffff;
            }
            let quotient: u128 = (self.thickness as u128) * (delta as u128)
                / (self.duration_ms as u128);
            proof {
                lemma_step_bounds(self.thickness, self.duration_ms, delta as int);
            }
            quotient as u64
        };
        let ext = if self.target_open {
            if self.thickness - self.current <= step {
                self.thickness
            } else {
                self.current + step
            }
        } else {
            if step >= self.current {
                0
            } else {
                self.current - step
            }
        };
        self.current = ext;
        self.last_ms = now_ms;
        ext
    }

    /// The current visible extent, in subpixels.
    pub fn current_extent(&self) -> (ext: u64)
        ensures
            ext == self.current,
    {
        self.current
    }
}

/// A linear step is never negative and never more than the full thickness.
pub proof fn lemma_step_bounds(thickness: u64, duration_ms: u64, delta_ms: int)
    requires
        delta_ms >= 0,
    ensures
        0 <= spec_step(thickness, duration_ms, delta_ms) <= thickness,
{
    if duration_ms != 0 && delta_ms < duration_ms {
        let t = thickness as int;
        let d = duration_ms as int;
        lemma_div_pos_is_pos(t * delta_ms, d);
        lemma_mul_inequality(delta_ms, d, t);
        assert(delta_ms * t == t * delta_ms) by (nonlinear_arith);
        assert(d * t == t * d) by (nonlinear_arith);
        lemma_div_is_ordered(t * delta_ms, t * d, d);
        lemma_div_multiples_vanish(t, d);
    }
}

/// Law: repeating an identical intent is a no-op — recording the same
/// target twice leaves the same state as recording it once.
pub proof fn lemma_set_target_idempotent(ts: TransitionState, open: bool)
    ensures
        ts.spec_with_target(open).spec_with_target(open) == ts.spec_with_target(open),
{
}

/// Law: whatever clock value arrives, the advanced extent stays within
/// `[0, thickness]`.
pub proof fn lemma_advance_bounded(ts: TransitionState, now_ms: u64)
    requires
        ts.wf(),
    ensures
        0 <= ts.spec_moved(now_ms) <= ts.thickness,
{
    lemma_step_bounds(ts.thickness, ts.duration_ms, ts.spec_delta_ms(now_ms));
}

/// Law: flipping the target and then advancing moves the extent by at most
/// one step, the per-tick maximum; a reversal mid-animation cannot snap.
pub proof fn lemma_reversal_no_jump(ts: TransitionState, open: bool, now_ms: u64)
    requires
        ts.wf(),
    ensures
        ({
            let moved = ts.spec_with_target(open).spec_moved(now_ms);
            let step = spec_step(ts.thickness, ts.duration_ms, ts.spec_delta_ms(now_ms));
            moved - ts.current <= step && ts.current - moved <= step
        }),
{
    lemma_step_bounds(ts.thickness, ts.duration_ms, ts.spec_delta_ms(now_ms));
}

/// Law: once the whole transition duration has elapsed (or the duration is
/// zero), an advance lands exactly on the target.
pub proof fn lemma_advance_completes(ts: TransitionState, now_ms: u64)
    requires
        ts.wf(),
        ts.duration_ms == 0 || ts.spec_delta_ms(now_ms) >= ts.duration_ms,
    ensures
        ts.spec_advanced(now_ms).spec_settled(),
{
}

} // verus!
