//! The shared motion state: the current directive and the cyclic half-step
//! index, and the read-modify-write operations the stepping loop and the
//! switch monitor perform on it.

use vstd::prelude::*;

use crate::directive::State;
use crate::step_table::{HalfStepRow, spec_row, spec_all_off, row_for, all_off};

verus! {

/// The motor intent and the current position in the half-step cycle.
///
/// Exactly one task may mutate a `MotionState` at a time; a caller that
/// shares one between tasks arbitrates access exclusively and holds the
/// guard only for the duration of one operation, never across a wait.
#[derive(Clone, Copy, PartialEq, Eq, Structural, Debug)]
pub struct MotionState {
    pub directive: State,
    pub index: u8,
}

impl MotionState {
    /// The step index is always a valid table index, however many
    /// increments and decrements have been applied.
    pub open spec fn wf(self) -> bool {
        self.index < 8
    }

    /// The same state with the directive replaced and the index kept.
    pub open spec fn spec_with_directive(self, d: State) -> MotionState {
        MotionState { directive: d, index: self.index }
    }

    /// The index after one advance under the current directive: up one
    /// (mod 8) for Forward, down one (mod 8, wrapping 0 to 7, never a
    /// negative remainder) for Backward, unchanged for Stop.
    pub open spec fn spec_advanced_index(self) -> int {
        match self.directive {
            State::Forward => (self.index + 1) % 8,
            State::Backward => (self.index - 1) % 8,
            State::Stop => self.index as int,
        }
    }

    /// The state after one `read_and_advance`.
    pub open spec fn spec_step(self) -> MotionState {
        MotionState { directive: self.directive, index: self.spec_advanced_index() as u8 }
    }

    /// The row that `read_and_advance` returns from this (pre-call) state:
    /// the table row at the advanced index, or the all-off row under Stop.
    pub open spec fn spec_output(self) -> HalfStepRow {
        if self.directive == State::Stop {
            spec_all_off()
        } else {
            spec_row(self.spec_advanced_index())
        }
    }

    /// A fresh motion state: stopped, at index 0.
    pub fn new() -> (s: Self)
        ensures
            s == (MotionState { directive: State::Stop, index: 0 }),
            s.wf(),
    {
        MotionState { directive: State::Stop, index: 0 }
    }

    /// Replace the directive; the index is untouched.  Never fails; the
    /// change is visible to the next operation on this state.
    pub fn set_directive(&mut self, d: State)
        ensures
            *final(self) == old(self).spec_with_directive(d),
    {
        self.directive = d;
    }

    /// One stepping cycle's read-modify-write: advance the index per the
    /// current directive and return the row to write to both output pairs.
    /// Under Stop the index is untouched and the all-off row is returned,
    /// so resuming later continues from where the motor left off.
    pub fn read_and_advance(&mut self) -> (row: HalfStepRow)
        requires
            old(self).wf(),
        ensures
            final(self).wf(),
            *final(self) == old(self).spec_step(),
            row == old(self).spec_output(),
            old(self).directive == State::Stop ==> row == spec_all_off()
                && final(self).index == old(self).index,
    {
        match self.directive {
            State::Forward => {
                self.index = (self.index + 1) % 8;
                row_for(self.index)
            },
            State::Backward => {
                self.index = if self.index == 0 { 7 } else { self.index - 1 };
                row_for(self.index)
            },
            State::Stop => all_off(),
        }
    }
}

/// The state after `n` consecutive `read_and_advance` calls from `s`.
pub open spec fn spec_step_n(s: MotionState, n: nat) -> MotionState
    decreases n,
{
    if n == 0 {
        s
    } else {
        spec_step_n(s, (n - 1) as nat).spec_step()
    }
}

/// Law: under Forward, any number of advances moves the index to
/// `(start + n) mod 8` — the returned index sequence is `(start + 1) mod 8,
/// (start + 2) mod 8, ...`, never negative and never outside `[0, 7]` —
/// and leaves the directive alone.
pub proof fn lemma_forward_advances(s: MotionState, n: nat)
    requires
        s.wf(),
        s.directive == State::Forward,
    ensures
        spec_step_n(s, n).wf(),
        spec_step_n(s, n).directive == State::Forward,
        spec_step_n(s, n).index == (s.index + n) % 8,
    decreases n,
{
    if n > 0 {
        lemma_forward_advances(s, (n - 1) as nat);
        vstd::arithmetic::div_mod::lemma_add_mod_noop(s.index + (n - 1), 1, 8);
    }
}

/// Law: under Backward, any number of advances moves the index to
/// `(start - n) mod 8` with a non-negative modulus — from index 0 the next
/// index is 7, never -1 — and leaves the directive alone.
pub proof fn lemma_backward_advances(s: MotionState, n: nat)
    requires
        s.wf(),
        s.directive == State::Backward,
    ensures
        spec_step_n(s, n).wf(),
        spec_step_n(s, n).directive == State::Backward,
        spec_step_n(s, n).index == (s.index - n) % 8,
    decreases n,
{
    if n > 0 {
        lemma_backward_advances(s, (n - 1) as nat);
        vstd::arithmetic::div_mod::lemma_sub_mod_noop(s.index - (n - 1), 1, 8);
    }
}

/// Law: under Stop, an advance neither moves the index nor changes the
/// row: the all-off row comes back however many times the loop ticks, and
/// the stored index stays where motion left it.
pub proof fn lemma_stop_holds_position(s: MotionState, n: nat)
    requires
        s.wf(),
        s.directive == State::Stop,
    ensures
        spec_step_n(s, n) == s,
        s.spec_output() == spec_all_off(),
    decreases n,
{
    if n > 0 {
        lemma_stop_holds_position(s, (n - 1) as nat);
    }
}

/// Law: setting the same directive twice in a row has exactly the effect
/// of setting it once.
pub proof fn lemma_set_directive_idempotent(s: MotionState, d: State)
    ensures
        s.spec_with_directive(d).spec_with_directive(d) == s.spec_with_directive(d),
{
}

/// Handle on the motor: owns the shared motion state that the stepping
/// loop reads and the switch monitor writes.
#[derive(Clone, Copy, PartialEq, Eq, Structural, Debug)]
pub struct StepperMotor {
    pub state: MotionState,
}

impl StepperMotor {
    /// A motor handle over a fresh, stopped motion state.
    pub fn new() -> (m: Self)
        ensures
            m.state == (MotionState { directive: State::Stop, index: 0 }),
            m.state.wf(),
    {
        StepperMotor { state: MotionState::new() }
    }

    /// Set the motor's directive.  Never fails; the stored index is kept.
    pub fn set_state(&mut self, state: State)
        ensures
            final(self).state == old(self).state.spec_with_directive(state),
    {
        self.state.set_directive(state);
    }
}

} // verus!
