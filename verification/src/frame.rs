//! The frame scheduler: a redraw-rate throttle that keeps a periodic tick
//! registered with the host event loop only while an animation is unsettled,
//! and stops itself on the first tick after the transition settles.
//!
//! The host timer itself lives outside this crate. `start` and `stop` report
//! whether the running flag actually flipped, so the caller knows when to
//! register or cancel the host callback; a caller whose registration fails
//! calls `stop` again and surfaces the error.

use vstd::prelude::*;
use crate::transition::TransitionState;

verus! {

/// Redraw throttle state of one widget: whether the periodic tick is
/// running, and the configured redraw rate in frames per second.
#[derive(Clone, Copy, Debug)]
pub struct FrameManager {
    pub running: bool,
    pub frame_rate: u64,
}

impl FrameManager {
    /// A meaningful frame rate is strictly positive.
    pub open spec fn wf(self) -> bool {
        self.frame_rate > 0
    }

    /// The state after a start: running, everything else untouched.
    pub open spec fn spec_started(self) -> FrameManager {
        FrameManager { running: true, ..self }
    }

    /// The state after a stop: not running, everything else untouched.
    pub open spec fn spec_stopped(self) -> FrameManager {
        FrameManager { running: false, ..self }
    }

    /// A fresh manager: stopped.
    pub fn new(frame_rate: u64) -> (fm: FrameManager)
        requires
            frame_rate > 0,
        ensures
            fm == (FrameManager { running: false, frame_rate }),
            fm.wf(),
    {
        FrameManager { running: false, frame_rate }
    }

    /// Milliseconds between two ticks at the configured rate.
    pub fn interval_ms(&self) -> (r: u64)
        requires
            self.wf(),
        ensures
            r == 1000 as int / self.frame_rate as int,
    {
        1000 / self.frame_rate
    }

    /// Marks the tick as running. Idempotent: a second call changes nothing.
    /// Returns true iff the flag actually flipped, in which case the caller
    /// must register the periodic host callback.
    pub fn start(&mut self) -> (flipped: bool)
        ensures
            *final(self) == old(self).spec_started(),
            flipped == !old(self).running,
    {
        let flipped = !self.running;
        self.running = true;
        flipped
    }

    /// Marks the tick as stopped. Idempotent: a second call changes nothing.
    /// Returns true iff the flag actually flipped, in which case the caller
    /// must cancel the periodic host callback. Never fails.
    pub fn stop(&mut self) -> (flipped: bool)
        ensures
            *final(self) == old(self).spec_stopped(),
            flipped == old(self).running,
    {
        let flipped = self.running;
        self.running = false;
        flipped
    }

    /// One periodic tick: advances the transition to clock value `now_ms`
    /// and, if that advance settled it, stops immediately — so the manager
    /// is left running exactly as long as the animation is unsettled, and
    /// CPU cost stays proportional to time actually spent animating.
    /// Returns the new visible extent, for redrawing, and whether this tick
    /// stopped the manager, for cancelling the host callback.
    pub fn tick(&mut self, ts: &mut TransitionState, now_ms: u64) -> (r: (u64, bool))
        requires
            old(self).running,
            old(ts).wf(),
        ensures
            *final(ts) == old(ts).spec_advanced(now_ms),
            final(ts).wf(),
            r.0 == final(ts).current,
            final(self).frame_rate == old(self).frame_rate,
            final(self).running == !final(ts).spec_settled(),
            r.1 == final(ts).spec_settled(),
    {
        let ext = ts.advance(now_ms);
        let settled = ts.is_settled();
        if settled {
            self.stop();
        }
        (ext, settled)
    }

    /// Brings the running flag in line with the transition outside a tick:
    /// running while unsettled, stopped once settled. Returns true iff the
    /// flag flipped and the host callback must be registered or cancelled.
    pub fn sync(&mut self, ts: &TransitionState) -> (flipped: bool)
        ensures
            final(self).frame_rate == old(self).frame_rate,
            final(self).running == !ts.spec_settled(),
            flipped == (old(self).running != final(self).running),
    {
        if ts.is_settled() {
            self.stop()
        } else {
            self.start()
        }
    }
}

/// Law: starting twice in a row has the same effect as starting once.
pub proof fn lemma_start_idempotent(fm: FrameManager)
    ensures
        fm.spec_started().spec_started() == fm.spec_started(),
{
}

/// Law: stopping twice in a row has the same effect as stopping once.
pub proof fn lemma_stop_idempotent(fm: FrameManager)
    ensures
        fm.spec_stopped().spec_stopped() == fm.spec_stopped(),
{
}

} // verus!
