//! Codes of Apple's built-in classifiers.

use vstd::prelude::*;

verus! {

/// The `version1` classifier.
pub const VERSION1: i32 = 1;

} // verus!
