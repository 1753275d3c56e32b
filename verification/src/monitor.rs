//! The switch monitor's decision logic: classifying edge events from the
//! two input switches into directive updates, and choosing what to do with
//! a line after each wait.
//!
//! The waiting itself (suspending on the hardware edge sources) happens
//! outside this crate; each wait's outcome is handed in as a plain value
//! and every decision taken on it is verified here.

use vstd::prelude::*;

use crate::directive::State;
use crate::motion::StepperMotor;

verus! {

/// Which monitored input line an edge event came from.  `LineA` is the
/// forward switch, `LineB` the backward switch.
#[derive(Clone, Copy, PartialEq, Eq, Structural, Debug)]
pub enum SwitchLine {
    LineA,
    LineB,
}

/// The direction of a digital input transition.
#[derive(Clone, Copy, PartialEq, Eq, Structural, Debug)]
pub enum EdgePolarity {
    Rising,
    Falling,
}

/// One edge event: which line transitioned and in which direction.
/// Produced by an edge source, consumed exactly once, not retained.
#[derive(Clone, Copy, PartialEq, Eq, Structural, Debug)]
pub struct EdgeEvent {
    pub line: SwitchLine,
    pub polarity: EdgePolarity,
}

/// What one wait on an edge source came back with.
#[derive(Clone, Copy, PartialEq, Eq, Structural, Debug)]
pub enum EdgeOutcome {
    /// The line yielded an edge event.
    Edge(EdgeEvent),
    /// The read failed transiently; the switch may come back.
    TransientError,
    /// The source is permanently closed.
    SourceClosed,
}

/// What the monitor does with a line after reacting to one outcome.
#[derive(Clone, Copy, PartialEq, Eq, Structural, Debug)]
pub enum LineAction {
    /// Wait on this line again.
    Rearm,
    /// Stop monitoring this line and report upward.
    Terminate,
}

/// The fixed switch policy.  The switches are normally open: pressed is a
/// falling edge, released a rising edge.  Pressing the forward switch
/// drives forward, pressing the backward switch drives backward, and
/// releasing either switch halts the motor.
pub open spec fn spec_directive_for_edge(e: EdgeEvent) -> State {
    match e.polarity {
        EdgePolarity::Rising => State::Stop,
        EdgePolarity::Falling => match e.line {
            SwitchLine::LineA => State::Forward,
            SwitchLine::LineB => State::Backward,
        },
    }
}

/// Classify one edge event into the directive it commands.
pub fn directive_for_edge(e: EdgeEvent) -> (d: State)
    ensures
        d == spec_directive_for_edge(e),
{
    match e.polarity {
        EdgePolarity::Rising => State::Stop,
        EdgePolarity::Falling => match e.line {
            SwitchLine::LineA => State::Forward,
            SwitchLine::LineB => State::Backward,
        },
    }
}

/// React to the outcome of one wait on an edge source: an edge event sets
/// the directive it commands (the index is untouched) and the line is
/// re-armed; a transient read failure changes nothing and the line is
/// re-armed; a closed source changes nothing and that line's monitoring
/// terminates.
pub fn monitor_react(motor: &mut StepperMotor, outcome: EdgeOutcome) -> (a: LineAction)
    ensures
        match outcome {
            EdgeOutcome::Edge(e) => final(motor).state
                == old(motor).state.spec_with_directive(spec_directive_for_edge(e))
                && a == LineAction::Rearm,
            EdgeOutcome::TransientError => *final(motor) == *old(motor) && a == LineAction::Rearm,
            EdgeOutcome::SourceClosed => *final(motor) == *old(motor) && a == LineAction::Terminate,
        },
{
    match outcome {
        EdgeOutcome::Edge(e) => {
            let d = directive_for_edge(e);
            motor.set_state(d);
            LineAction::Rearm
        },
        EdgeOutcome::TransientError => LineAction::Rearm,
        EdgeOutcome::SourceClosed => LineAction::Terminate,
    }
}

} // verus!
