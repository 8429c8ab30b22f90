use vstd::prelude::*;

verus! {

/// Maximum backward branch distance (in bytes) considered a potential
/// polling loop.
pub const IDLE_LOOP_MAX_SIZE: u32 = 10 * 4;
/// Number of consecutive loop iterations before skipping to the next event.
pub const IDLE_LOOP_THRESHOLD: u32 = 10;

/// Detects guest code that spins waiting for an event: a branch to itself,
/// or a short backward loop taken many times in a row.
pub struct IdleDetector {
    enabled: bool,
    loop_pc: Option<u32>,
    loop_end: u32,
    loop_count: u32,
}

/// Abstract detector state.
pub struct IdleView {
    pub enabled: bool,
    pub loop_pc: Option<u32>,
    pub loop_end: u32,
    pub loop_count: u32,
}

impl View for IdleDetector {
    type V = IdleView;

    closed spec fn view(&self) -> IdleView {
        IdleView {
            enabled: self.enabled,
            loop_pc: self.loop_pc,
            loop_end: self.loop_end,
            loop_count: self.loop_count,
        }
    }
}

impl IdleView {
    /// The count stays below the threshold between calls.
    pub open spec fn wf(self) -> bool {
        self.loop_count < IDLE_LOOP_THRESHOLD
    }

    /// State and verdict after a backward branch from `branch_pc` to `target`.
    pub open spec fn after_backward(self, target: u32, branch_pc: u32) -> (IdleView, bool) {
        if self.loop_pc == Some(target) {
            if self.loop_count + 1 >= IDLE_LOOP_THRESHOLD {
                (IdleView { loop_count: 0, ..self }, true)
            } else {
                (IdleView { loop_count: (self.loop_count + 1) as u32, ..self }, false)
            }
        } else {
            (IdleView { loop_pc: Some(target), loop_end: branch_pc, loop_count: 1, ..self }, false)
        }
    }

    /// Leaving the tracked loop's range forgets it.
    pub open spec fn after_reset(self, cia: u32) -> IdleView {
        match self.loop_pc {
            Some(start) => if cia < start || cia > self.loop_end {
                IdleView { loop_pc: None, loop_count: 0, ..self }
            } else {
                self
            },
            None => self,
        }
    }

    /// State and verdict after executing the instruction at `cia` whose
    /// successor is `nia`.
    pub open spec fn after_check(self, cia: u32, nia: u32) -> (IdleView, bool) {
        if !self.enabled {
            (self, false)
        } else if nia == cia {
            (self, true)
        } else if nia < cia && cia - nia <= IDLE_LOOP_MAX_SIZE {
            self.after_backward(nia, cia)
        } else {
            (self.after_reset(cia), false)
        }
    }
}

impl IdleDetector {
    pub fn new(enabled: bool) -> (r: Self)
        ensures
            r@ == (IdleView { enabled, loop_pc: None, loop_end: 0, loop_count: 0 }),
            r@.wf(),
    {
        Self { enabled, loop_pc: None, loop_end: 0, loop_count: 0 }
    }

    /// Whether the instruction at `cia`, continuing at `nia`, completes an
    /// idle loop.
    pub fn check(&mut self, cia: u32, nia: u32) -> (idle: bool)
        requires
            old(self)@.wf(),
        ensures
            final(self)@.wf(),
            (final(self)@, idle) == old(self)@.after_check(cia, nia),
    {
        if !self.enabled {
            return false;
        }
        if nia == cia {
            return true;
        }
        if nia < cia && cia.wrapping_sub(nia) <= IDLE_LOOP_MAX_SIZE {
            return self.track_backward_branch(nia, cia);
        }
        self.try_reset(cia);
        false
    }

    fn track_backward_branch(&mut self, target: u32, branch_pc: u32) -> (idle: bool)
        requires
            old(self)@.wf(),
        ensures
            final(self)@.wf(),
            (final(self)@, idle) == old(self)@.after_backward(target, branch_pc),
    {
        if self.loop_pc == Some(target) {
            self.loop_count += 1;
            if self.loop_count >= IDLE_LOOP_THRESHOLD {
                self.loop_count = 0;
                return true;
            }
        } else {
            self.loop_pc = Some(target);
            self.loop_end = branch_pc;
            self.loop_count = 1;
        }
        false
    }

    fn try_reset(&mut self, cia: u32)
        ensures
            final(self)@ == old(self)@.after_reset(cia),
    {
        if let Some(start) = self.loop_pc {
            if cia < start || cia > self.loop_end {
                self.loop_pc = None;
                self.loop_count = 0;
            }
        }
    }
}

/// State after `n` checks of the same instruction pair.
pub open spec fn repeated_checks(v: IdleView, cia: u32, nia: u32, n: nat) -> IdleView
    decreases n,
{
    if n == 0 {
        v
    } else {
        repeated_checks(v, cia, nia, (n - 1) as nat).after_check(cia, nia).0
    }
}

proof fn lemma_repeated_state(v: IdleView, cia: u32, nia: u32, n: nat)
    requires
        v.enabled,
        v.loop_pc is None,
        nia < cia,
        cia - nia <= IDLE_LOOP_MAX_SIZE,
        n <= 9,
    ensures
        repeated_checks(v, cia, nia, n).enabled,
        n > 0 ==> repeated_checks(v, cia, nia, n).loop_count == n,
        n == 0 ==> repeated_checks(v, cia, nia, n).loop_pc is None,
        n > 0 ==> repeated_checks(v, cia, nia, n).loop_pc == Some(nia),
    decreases n,
{
    if n > 0 {
        lemma_repeated_state(v, cia, nia, (n - 1) as nat);
    }
}

/// A short backward branch taken over and over is reported idle on its
/// tenth execution, and not before, starting from a detector that tracks
/// no loop.
pub proof fn lemma_polling_loop_detected(v: IdleView, cia: u32, nia: u32)
    requires
        v.enabled,
        v.loop_pc is None,
        nia < cia,
        cia - nia <= IDLE_LOOP_MAX_SIZE,
    ensures
        forall|n: nat|
            n < 9 ==> !(#[trigger] repeated_checks(v, cia, nia, n)).after_check(cia, nia).1,
        repeated_checks(v, cia, nia, 9).after_check(cia, nia).1,
{
    assert forall|n: nat| n < 9 implies !(#[trigger] repeated_checks(v, cia, nia, n)).after_check(cia, nia).1 by {
        lemma_repeated_state(v, cia, nia, n);
    }
    lemma_repeated_state(v, cia, nia, 9);
}


/// Leaving the tracked loop forgets it: a check at an address outside the
/// tracked loop's range that is neither a branch to itself nor a short
/// backward branch leaves the detector tracking no loop, with its count at
/// zero, and reports no idle loop; anything else it kept stays as it was.
pub proof fn lemma_leaving_loop_forgets_it(v: IdleView, cia: u32, nia: u32)
    requires
        v.enabled,
        v.loop_pc is Some,
        cia < v.loop_pc->0 || cia > v.loop_end,
        nia != cia,
        !(nia < cia && cia - nia <= IDLE_LOOP_MAX_SIZE),
    ensures
        v.after_check(cia, nia).0.loop_pc is None,
        v.after_check(cia, nia).0.loop_count == 0,
        !v.after_check(cia, nia).1,
        v.after_check(cia, nia).0.enabled == v.enabled,
        v.after_check(cia, nia).0.loop_end == v.loop_end,
{
}

/// Inside the tracked loop's range, a check that is neither a branch to
/// itself nor a short backward branch changes nothing and reports no idle
/// loop; a branch to itself is always idle and changes nothing.
pub proof fn lemma_staying_in_loop_keeps_it(v: IdleView, cia: u32, nia: u32)
    requires
        v.enabled,
    ensures
        nia == cia ==> v.after_check(cia, nia) == (v, true),
        v.loop_pc is Some && v.loop_pc->0 <= cia <= v.loop_end && nia != cia && !(nia < cia && cia - nia
            <= IDLE_LOOP_MAX_SIZE) ==> v.after_check(cia, nia) == (v, false),
{
}

/// After the tracked loop is left, re-entering it counts from the start
/// again: from any state, leaving the loop and then taking a short
/// backward branch over and over reports idle on its tenth execution and
/// not before.
pub proof fn lemma_reentered_loop_counts_again(v: IdleView, leave_cia: u32, leave_nia: u32, cia: u32, nia: u32)
    requires
        v.enabled,
        v.loop_pc is Some,
        leave_cia < v.loop_pc->0 || leave_cia > v.loop_end,
        leave_nia != leave_cia,
        !(leave_nia < leave_cia && leave_cia - leave_nia <= IDLE_LOOP_MAX_SIZE),
        nia < cia,
        cia - nia <= IDLE_LOOP_MAX_SIZE,
    ensures
        forall|n: nat|
            n < 9 ==> !(#[trigger] repeated_checks(v.after_check(leave_cia, leave_nia).0, cia, nia, n)).after_check(
                cia,
                nia,
            ).1,
        repeated_checks(v.after_check(leave_cia, leave_nia).0, cia, nia, 9).after_check(cia, nia).1,
{
    lemma_leaving_loop_forgets_it(v, leave_cia, leave_nia);
    lemma_polling_loop_detected(v.after_check(leave_cia, leave_nia).0, cia, nia);
}

} // verus!
