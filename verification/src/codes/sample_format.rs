//! Codes of the PCM sample formats.

use vstd::prelude::*;

verus! {

/// 32-bit floating-point samples.
pub const FLOAT32: i32 = 1;

/// 64-bit floating-point samples.
pub const FLOAT64: i32 = 2;

/// 16-bit signed integer samples.
pub const INT16: i32 = 3;

/// 32-bit signed integer samples.
pub const INT32: i32 = 4;

} // verus!
