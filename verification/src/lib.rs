//! The verified core of the Rust bindings to Apple's SoundAnalysis
//! framework (on-device sound classification).
//!
//! This crate holds the decisions that the bindings make around each bridge
//! call, each with its contract: error codes and the errors that bridge
//! statuses stand for, the checks on paths, stream formats and PCM buffers,
//! the book-keeping of the requests an analyzer observes, and the decoding
//! of what the bridge reports.

pub mod classifier;
pub mod codes;
pub mod error;
pub mod live;
pub mod observer;
pub mod paths;
pub mod request;
pub mod streaming;
pub mod text;
pub mod time;

pub use error::{ErrorCode, ErrorCode as SNErrorCode, SAError};
pub use observer::{AnalysisResult, ObserverMap, SNResult};
pub use request::{
    AnalysisRequest, AnalysisRequest as SNRequest, ClassifierIdentifier,
    ClassifierIdentifier as SNClassifierIdentifier,
};
pub use streaming::{
    interleaved_frame_length, planar_frame_length, BufferHeader, PcmSampleFormat, PcmSamples,
    StreamLayout,
};
pub use time::TimeDurationConstraintType;
