//! Concurrent direction-control engine for a bipolar stepper motor driven
//! through two digital output pairs.
//!
//! The verified core owns the motor intent (forward / backward / stop) and a
//! cyclic half-step index, advances the index per the current directive, and
//! classifies switch edge events into directive updates.  Opening hardware
//! chips, requesting lines, timers and task plumbing live outside this crate;
//! they hand the core plain values and take plain values back.

use vstd::prelude::*;

mod directive;
mod step_table;
mod motion;
mod monitor;

pub use directive::State;
pub use motion::{MotionState, StepperMotor, spec_step_n, lemma_forward_advances,
    lemma_backward_advances, lemma_stop_holds_position, lemma_set_directive_idempotent};
pub use monitor::{SwitchLine, EdgePolarity, EdgeEvent, EdgeOutcome, LineAction,
    spec_directive_for_edge, directive_for_edge, monitor_react};
pub use step_table::{LinePair, HalfStepRow, row_for, all_off, spec_row, spec_all_off,
    row_is_bits, row_distance, lemma_half_step_adjacent};

verus! {

/// Identifies which of the two GPIO chips a configuration fault concerns.
/// The core never opens a chip itself; the apparatus layer reports setup
/// failures keyed by this value.
#[derive(Clone, Copy, PartialEq, Eq, Structural, Debug)]
pub enum ChipNumber {
    Chip1,
    Chip3,
}

} // verus!
