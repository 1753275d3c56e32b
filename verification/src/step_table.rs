//! The fixed half-step table: eight rows of output-line values, one row per
//! step index, plus the all-off row written while the motor is stopped.

use vstd::prelude::*;

verus! {

/// The values (0 or 1) for the two lines of one motor output pair.
#[derive(Clone, Copy, PartialEq, Eq, Structural, Debug)]
pub struct LinePair {
    pub first: u8,
    pub second: u8,
}

/// One half-step row: a line pair for each of the two motor output pairs.
/// `motor1` feeds the first output pair, `motor3` the second.
#[derive(Clone, Copy, PartialEq, Eq, Structural, Debug)]
pub struct HalfStepRow {
    pub motor1: LinePair,
    pub motor3: LinePair,
}

/// The row written for step index `i` (for `0 <= i < 8`): a classic
/// two-phase half-step drive sequence.
pub open spec fn spec_row(i: int) -> HalfStepRow {
    if i == 0 {
        HalfStepRow { motor1: LinePair { first: 0, second: 1 }, motor3: LinePair { first: 1, second: 0 } }
    } else if i == 1 {
        HalfStepRow { motor1: LinePair { first: 0, second: 1 }, motor3: LinePair { first: 0, second: 0 } }
    } else if i == 2 {
        HalfStepRow { motor1: LinePair { first: 0, second: 1 }, motor3: LinePair { first: 0, second: 1 } }
    } else if i == 3 {
        HalfStepRow { motor1: LinePair { first: 0, second: 0 }, motor3: LinePair { first: 0, second: 1 } }
    } else if i == 4 {
        HalfStepRow { motor1: LinePair { first: 1, second: 0 }, motor3: LinePair { first: 0, second: 1 } }
    } else if i == 5 {
        HalfStepRow { motor1: LinePair { first: 1, second: 0 }, motor3: LinePair { first: 0, second: 0 } }
    } else if i == 6 {
        HalfStepRow { motor1: LinePair { first: 1, second: 0 }, motor3: LinePair { first: 1, second: 0 } }
    } else {
        HalfStepRow { motor1: LinePair { first: 0, second: 0 }, motor3: LinePair { first: 1, second: 0 } }
    }
}

/// The row with every output line de-energized.
pub open spec fn spec_all_off() -> HalfStepRow {
    HalfStepRow { motor1: LinePair { first: 0, second: 0 }, motor3: LinePair { first: 0, second: 0 } }
}

/// Every line value in a row is a single bit.
pub open spec fn row_is_bits(r: HalfStepRow) -> bool {
    r.motor1.first <= 1 && r.motor1.second <= 1 && r.motor3.first <= 1 && r.motor3.second <= 1
}

/// Look up the half-step row for a step index.  Pure and total on the
/// index range; no failure mode.
pub fn row_for(index: u8) -> (r: HalfStepRow)
    requires
        index < 8,
    ensures
        r == spec_row(index as int),
{
    if index == 0 {
        HalfStepRow { motor1: LinePair { first: 0, second: 1 }, motor3: LinePair { first: 1, second: 0 } }
    } else if index == 1 {
        HalfStepRow { motor1: LinePair { first: 0, second: 1 }, motor3: LinePair { first: 0, second: 0 } }
    } else if index == 2 {
        HalfStepRow { motor1: LinePair { first: 0, second: 1 }, motor3: LinePair { first: 0, second: 1 } }
    } else if index == 3 {
        HalfStepRow { motor1: LinePair { first: 0, second: 0 }, motor3: LinePair { first: 0, second: 1 } }
    } else if index == 4 {
        HalfStepRow { motor1: LinePair { first: 1, second: 0 }, motor3: LinePair { first: 0, second: 1 } }
    } else if index == 5 {
        HalfStepRow { motor1: LinePair { first: 1, second: 0 }, motor3: LinePair { first: 0, second: 0 } }
    } else if index == 6 {
        HalfStepRow { motor1: LinePair { first: 1, second: 0 }, motor3: LinePair { first: 1, second: 0 } }
    } else {
        HalfStepRow { motor1: LinePair { first: 0, second: 0 }, motor3: LinePair { first: 1, second: 0 } }
    }
}

/// The all-off row, written while the directive is Stop and as the last
/// action before a stepping loop exits.
pub fn all_off() -> (r: HalfStepRow)
    ensures
        r == spec_all_off(),
{
    HalfStepRow { motor1: LinePair { first: 0, second: 0 }, motor3: LinePair { first: 0, second: 0 } }
}

/// How many of the four output lines differ between two rows.
pub open spec fn row_distance(a: HalfStepRow, b: HalfStepRow) -> int {
    (if a.motor1.first == b.motor1.first { 0int } else { 1int })
        + (if a.motor1.second == b.motor1.second { 0int } else { 1int })
        + (if a.motor3.first == b.motor3.first { 0int } else { 1int })
        + (if a.motor3.second == b.motor3.second { 0int } else { 1int })
}

/// Law: every table row drives each line with a single bit, and consecutive
/// indices (cyclically) differ in exactly one of the four output lines, so a
/// motor stepped by one index at a time never sees a skip-phase pattern.
pub proof fn lemma_half_step_adjacent(i: int)
    requires
        0 <= i < 8,
    ensures
        row_is_bits(spec_row(i)),
        row_distance(spec_row(i), spec_row((i + 1) % 8)) == 1,
{
}

} // verus!
