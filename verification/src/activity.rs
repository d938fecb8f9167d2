//! The activity state machine: ON/OFF detection with a hysteresis grace
//! window.  A loud frame turns the machine on and rearms the grace counter;
//! quiet frames run the counter down; the quiet frame that finds the counter
//! exhausted while the machine is still on is the OFF transition, which
//! triggers the flush of everything recorded so far.

use vstd::prelude::*;

verus! {

/// ON/OFF state of the source, with the number of quiet frames still
/// tolerated before the machine declares OFF.
#[derive(Clone, Copy)]
pub struct ActivityState {
    pub is_active: bool,
    pub grace_remaining: usize,
}

/// What one frame made the machine do.
#[derive(Clone, Copy)]
pub struct StepResult {
    /// The frame is to be appended to the recording queue.
    pub record: bool,
    /// The recording queue is to be flushed, in order, to playback.
    pub flush: bool,
    /// The machine just turned on: the ON edge, reported once.
    pub on_edge: bool,
    /// The machine just turned off: the OFF edge, reported once.
    pub off_edge: bool,
}

impl ActivityState {
    /// The state the machine starts in: inactive, no grace left.
    pub open spec fn initial() -> ActivityState {
        ActivityState { is_active: false, grace_remaining: 0 }
    }

    /// Well-formed for hysteresis `h`: the grace counter never exceeds `h`,
    /// and a positive counter is only ever held by an active machine.
    pub open spec fn wf(self, h: usize) -> bool {
        &&& self.grace_remaining <= h
        &&& self.grace_remaining > 0 ==> self.is_active
    }
}

/// The state after one frame whose loudness verdict is `loud` (level strictly
/// above the threshold), for hysteresis window `h`.
pub open spec fn step_state(st: ActivityState, loud: bool, h: usize) -> ActivityState {
    if loud {
        ActivityState { is_active: true, grace_remaining: h }
    } else if st.grace_remaining == 0 {
        ActivityState { is_active: false, grace_remaining: 0 }
    } else {
        ActivityState { is_active: st.is_active, grace_remaining: (st.grace_remaining - 1) as usize }
    }
}

/// Whether the frame is recorded: exactly when the machine is active once the
/// frame has been accounted for.  The OFF frame itself is never recorded.
pub open spec fn step_records(st: ActivityState, loud: bool, h: usize) -> bool {
    step_state(st, loud, h).is_active
}

/// Whether the frame is the OFF transition: a quiet frame that finds the
/// grace counter exhausted while the machine is still on.
pub open spec fn step_flushes(st: ActivityState, loud: bool) -> bool {
    !loud && st.grace_remaining == 0 && st.is_active
}

/// Whether the frame is the ON transition: a loud frame while inactive.
pub open spec fn step_turns_on(st: ActivityState, loud: bool) -> bool {
    loud && !st.is_active
}

impl ActivityState {
    /// A machine in its initial state.
    pub fn new() -> (st: ActivityState)
        ensures
            st == ActivityState::initial(),
    {
        ActivityState { is_active: false, grace_remaining: 0 }
    }

    /// Advance the machine by one frame of peak level `level`, against
    /// threshold `threshold` and hysteresis window `hysteresis`.
    pub fn step(&mut self, level: i16, threshold: i16, hysteresis: usize) -> (r: StepResult)
        ensures
            *final(self) == step_state(*old(self), level > threshold, hysteresis),
            r.record == step_records(*old(self), level > threshold, hysteresis),
            r.flush == step_flushes(*old(self), level > threshold),
            r.off_edge == step_flushes(*old(self), level > threshold),
            r.on_edge == step_turns_on(*old(self), level > threshold),
            old(self).wf(hysteresis) ==> final(self).wf(hysteresis),
    {
        if level > threshold {
            let r = StepResult {
                record: true,
                flush: false,
                on_edge: !self.is_active,
                off_edge: false,
            };
            self.is_active = true;
            self.grace_remaining = hysteresis;
            r
        } else if self.grace_remaining == 0 {
            let was_active = self.is_active;
            self.is_active = false;
            StepResult { record: false, flush: was_active, on_edge: false, off_edge: was_active }
        } else {
            self.grace_remaining = self.grace_remaining - 1;
            StepResult { record: self.is_active, flush: false, on_edge: false, off_edge: false }
        }
    }
}

/// The machine after `k` consecutive quiet frames.
pub open spec fn quiet_steps(st: ActivityState, k: nat, h: usize) -> ActivityState
    decreases k,
{
    if k == 0 {
        st
    } else {
        step_state(quiet_steps(st, (k - 1) as nat, h), false, h)
    }
}

/// How many OFF transitions occur over `k` consecutive quiet frames.
pub open spec fn off_edges_in_quiet(st: ActivityState, k: nat, h: usize) -> nat
    decreases k,
{
    if k == 0 {
        0
    } else {
        off_edges_in_quiet(st, (k - 1) as nat, h) + (if step_flushes(
            quiet_steps(st, (k - 1) as nat, h),
            false,
        ) {
            1nat
        } else {
            0nat
        })
    }
}

/// Hysteresis, quiet side: starting right after a loud frame (active, grace
/// counter at `h`), `k <= h` consecutive quiet frames produce no OFF
/// transition and leave the machine active with `h - k` grace left.
pub proof fn lemma_hysteresis_no_off(st: ActivityState, h: usize, k: nat)
    requires
        st.is_active,
        st.grace_remaining == h,
        k <= h,
    ensures
        quiet_steps(st, k, h) == (ActivityState {
            is_active: true,
            grace_remaining: (h - k) as usize,
        }),
        off_edges_in_quiet(st, k, h) == 0,
    decreases k,
{
    if k > 0 {
        lemma_hysteresis_no_off(st, h, (k - 1) as nat);
    }
}

/// Hysteresis, OFF side: starting right after a loud frame (active, grace
/// counter at `h`), the quiet frame after the grace window — the `h + 1`-th —
/// produces exactly one OFF transition and leaves the machine inactive.
pub proof fn lemma_hysteresis_off_after_window(st: ActivityState, h: usize)
    requires
        st.is_active,
        st.grace_remaining == h,
    ensures
        off_edges_in_quiet(st, h as nat + 1, h) == 1,
        !quiet_steps(st, h as nat + 1, h).is_active,
    decreases h,
{
    lemma_hysteresis_no_off(st, h, h as nat);
}

} // verus!
