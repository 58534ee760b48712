//! Codes of the two kinds of window-duration constraint.

use vstd::prelude::*;

verus! {

/// A constraint that lists the permitted durations.
pub const ENUMERATED: i32 = 1;

/// A constraint that gives a range of permitted durations.
pub const RANGE: i32 = 2;

} // verus!
