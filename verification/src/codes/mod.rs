//! Integer codes shared with the native bridge.

pub mod classifier_identifier;
pub mod constraint_type;
pub mod sample_format;
pub mod status;
