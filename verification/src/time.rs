//! `SNTimeDurationConstraint` support: the two kinds of window-duration
//! constraint and the checks on building one.

use vstd::prelude::*;

use crate::codes::constraint_type;
use crate::error::{is_outcome, SAError};

verus! {

/// The kind of a window-duration constraint.
#[derive(Debug, Clone, Copy, PartialEq, Eq, Structural)]
pub enum TimeDurationConstraintType {
    /// The permitted durations are listed.
    Enumerated,
    /// The permitted durations form a range.
    Range,
}

/// The kind that the bridge's code stands for, if any.
pub open spec fn constraint_type_from_code(kind: i32) -> Option<TimeDurationConstraintType> {
    if kind == constraint_type::ENUMERATED {
        Some(TimeDurationConstraintType::Enumerated)
    } else if kind == constraint_type::RANGE {
        Some(TimeDurationConstraintType::Range)
    } else {
        None
    }
}

/// The kind of a constraint that the bridge reports with code `kind`, or
/// `None` for a code the bridge does not define.
pub fn constraint_type_from_raw(kind: i32) -> (t: Option<TimeDurationConstraintType>)
    ensures
        t == constraint_type_from_code(kind),
{
    if kind == constraint_type::ENUMERATED {
        Some(TimeDurationConstraintType::Enumerated)
    } else if kind == constraint_type::RANGE {
        Some(TimeDurationConstraintType::Range)
    } else {
        None
    }
}

/// Checks the number of durations of a new enumerated constraint: there
/// must be at least one.
pub fn check_enumerated_count(count: usize) -> (r: Result<(), SAError>)
    ensures
        is_outcome(
            r,
            if count == 0 {
                Err("enumerated constraints need at least one duration"@)
            } else {
                Ok(())
            },
        ),
{
    if count == 0 {
        return Err(
            SAError::InvalidArgument(
                String::from_str("enumerated constraints need at least one duration"),
            ),
        );
    }
    Ok(())
}

} // verus!
