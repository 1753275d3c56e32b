//! The motor directive: the externally-set intended motion.

use vstd::prelude::*;

verus! {

/// Intended motion of the motor.  A closed three-variant enumeration: no
/// other representation of intent exists, so invalid directives are
/// impossible by construction.
#[derive(Clone, Copy, PartialEq, Eq, Structural, Debug)]
pub enum State {
    Forward,
    Backward,
    Stop,
}

impl Default for State {
    /// A motor starts out stopped.
    fn default() -> (s: Self)
        ensures
            s == State::Stop,
    {
        State::Stop
    }
}

} // verus!
