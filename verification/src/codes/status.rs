//! Status codes returned by every fallible bridge call.

use vstd::prelude::*;

verus! {

/// The call succeeded.
pub const OK: i32 = 0;

/// The bridge rejected an argument.
pub const INVALID_ARGUMENT: i32 = -1;

/// The audio file could not be opened or decoded.
pub const AUDIO_LOAD_FAILED: i32 = -2;

/// The classification request could not be created.
pub const REQUEST_CREATE_FAILED: i32 = -3;

/// The analyzer reported a failure while running.
pub const ANALYSIS_FAILED: i32 = -4;

/// A failure the bridge could not classify.
pub const UNKNOWN: i32 = -99;

} // verus!
