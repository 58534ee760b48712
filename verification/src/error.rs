//! Errors returned by the SoundAnalysis bridge.

use vstd::prelude::*;

use crate::codes::status;
use crate::text::{append_signed_decimal, signed_decimal};

verus! {

/// Mirror of SoundAnalysis's `SNErrorCode` enum.
#[derive(Debug, Clone, Copy, PartialEq, Eq, Hash, Structural)]
#[non_exhaustive]
pub enum ErrorCode {
    UnknownError,
    OperationFailed,
    InvalidFormat,
    InvalidModel,
    InvalidFile,
}

/// The framework's raw value of each error code.
pub open spec fn error_code_raw(code: ErrorCode) -> i32 {
    match code {
        ErrorCode::UnknownError => 1,
        ErrorCode::OperationFailed => 2,
        ErrorCode::InvalidFormat => 3,
        ErrorCode::InvalidModel => 4,
        ErrorCode::InvalidFile => 5,
    }
}

/// The error code whose raw value is `raw`, if there is one.
pub open spec fn error_code_from_raw(raw: i32) -> Option<ErrorCode> {
    if raw == 1 {
        Some(ErrorCode::UnknownError)
    } else if raw == 2 {
        Some(ErrorCode::OperationFailed)
    } else if raw == 3 {
        Some(ErrorCode::InvalidFormat)
    } else if raw == 4 {
        Some(ErrorCode::InvalidModel)
    } else if raw == 5 {
        Some(ErrorCode::InvalidFile)
    } else {
        None
    }
}

impl ErrorCode {
    /// The error code with the framework's raw value `raw`, or `None` for a
    /// value the framework does not define.
    pub fn from_raw(raw: i32) -> (code: Option<Self>)
        ensures
            code == error_code_from_raw(raw),
    {
        match raw {
            1 => Some(Self::UnknownError),
            2 => Some(Self::OperationFailed),
            3 => Some(Self::InvalidFormat),
            4 => Some(Self::InvalidModel),
            5 => Some(Self::InvalidFile),
            _ => None,
        }
    }

    /// The framework's raw value of this error code.
    pub fn as_raw(self) -> (raw: i32)
        ensures
            raw == error_code_raw(self),
    {
        match self {
            Self::UnknownError => 1,
            Self::OperationFailed => 2,
            Self::InvalidFormat => 3,
            Self::InvalidModel => 4,
            Self::InvalidFile => 5,
        }
    }
}

/// Converting an error code to its raw value and back gives the same code,
/// and a raw value that names a code is that code's raw value.
pub proof fn lemma_error_code_round_trip(code: ErrorCode, raw: i32)
    ensures
        error_code_from_raw(error_code_raw(code)) == Some(code),
        error_code_from_raw(raw) == Some(code) ==> error_code_raw(code) == raw,
        error_code_from_raw(raw) is None <==> !(1 <= raw <= 5),
{
}

impl From<ErrorCode> for i32 {
    fn from(value: ErrorCode) -> (raw: i32) {
        value.as_raw()
    }
}

impl vstd::std_specs::convert::FromSpecImpl<ErrorCode> for i32 {
    open spec fn obeys_from_spec() -> bool {
        true
    }

    open spec fn from_spec(v: ErrorCode) -> i32 {
        error_code_raw(v)
    }
}

impl TryFrom<i32> for ErrorCode {
    type Error = i32;

    fn try_from(value: i32) -> (code: Result<Self, i32>) {
        match Self::from_raw(value) {
            Some(code) => Ok(code),
            None => Err(value),
        }
    }
}

impl vstd::std_specs::convert::TryFromSpecImpl<i32> for ErrorCode {
    open spec fn obeys_try_from_spec() -> bool {
        true
    }

    open spec fn try_from_spec(v: i32) -> Result<Self, i32> {
        match error_code_from_raw(v) {
            Some(code) => Ok(code),
            None => Err(v),
        }
    }
}

/// Errors surfaced by the bindings.
#[derive(Debug, Clone, PartialEq, Eq)]
#[non_exhaustive]
pub enum SAError {
    InvalidArgument(String),
    AudioLoadFailed(String),
    RequestCreateFailed(String),
    AnalysisFailed(String),
    Unknown { code: i32, message: String },
}

/// Whether `e` is the error that the bridge reports with `status` and
/// `message`: the status codes of the four known failures map to their
/// variants, every other status to `Unknown` with that status as its code.
pub open spec fn is_status_error(e: SAError, status: i32, message: Seq<char>) -> bool {
    if status == status::AUDIO_LOAD_FAILED {
        e matches SAError::AudioLoadFailed(m) && m@ == message
    } else if status == status::REQUEST_CREATE_FAILED {
        e matches SAError::RequestCreateFailed(m) && m@ == message
    } else if status == status::ANALYSIS_FAILED {
        e matches SAError::AnalysisFailed(m) && m@ == message
    } else if status == status::INVALID_ARGUMENT {
        e matches SAError::InvalidArgument(m) && m@ == message
    } else {
        e matches SAError::Unknown { code, message: m } && code == status && m@ == message
    }
}

/// The text that `Display` writes for an error.
pub open spec fn error_text(e: SAError) -> Seq<char> {
    match e {
        SAError::InvalidArgument(m) => "invalid argument: "@ + m@,
        SAError::AudioLoadFailed(m) => "audio file load failed: "@ + m@,
        SAError::RequestCreateFailed(m) => "classifier init failed: "@ + m@,
        SAError::AnalysisFailed(m) => "sound analysis failed: "@ + m@,
        SAError::Unknown { code, message } => "soundanalysis error "@ + signed_decimal(
            code as int,
        ) + ": "@ + message@,
    }
}

impl SAError {
    /// The error that the bridge reports with a failing `status` and its
    /// `message`.
    pub fn from_status(status: i32, message: String) -> (e: SAError)
        ensures
            is_status_error(e, status, message@),
    {
        if status == status::AUDIO_LOAD_FAILED {
            SAError::AudioLoadFailed(message)
        } else if status == status::REQUEST_CREATE_FAILED {
            SAError::RequestCreateFailed(message)
        } else if status == status::ANALYSIS_FAILED {
            SAError::AnalysisFailed(message)
        } else if status == status::INVALID_ARGUMENT {
            SAError::InvalidArgument(message)
        } else {
            SAError::Unknown { code: status, message }
        }
    }

    /// The human-readable text of the error, as `Display` would write it.
    pub fn to_string(&self) -> (text: String)
        ensures
            text@ == error_text(*self),
    {
        match self {
            SAError::InvalidArgument(m) => {
                let mut out = String::from_str("invalid argument: ");
                out.append(m.as_str());
                out
            },
            SAError::AudioLoadFailed(m) => {
                let mut out = String::from_str("audio file load failed: ");
                out.append(m.as_str());
                out
            },
            SAError::RequestCreateFailed(m) => {
                let mut out = String::from_str("classifier init failed: ");
                out.append(m.as_str());
                out
            },
            SAError::AnalysisFailed(m) => {
                let mut out = String::from_str("sound analysis failed: ");
                out.append(m.as_str());
                out
            },
            SAError::Unknown { code, message } => {
                let mut out = String::from_str("soundanalysis error ");
                append_signed_decimal(&mut out, *code as i64);
                out.append(": ");
                out.append(message.as_str());
                out
            },
        }
    }
}

/// Whether `r` is what `expected` describes: the same value, or the error
/// `InvalidArgument` with the described message.
pub open spec fn is_outcome<T>(r: Result<T, SAError>, expected: Result<T, Seq<char>>) -> bool {
    match expected {
        Ok(v) => r == Ok::<T, SAError>(v),
        Err(m) => r matches Err(SAError::InvalidArgument(e)) && e@ == m,
    }
}

} // verus!
