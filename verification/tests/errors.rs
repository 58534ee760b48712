use soundanalysis::codes::status;
use soundanalysis::live::start_failure;
use soundanalysis::text::{append_decimal, append_signed_decimal};
use soundanalysis::{ErrorCode, SAError, SNErrorCode};

#[test]
fn error_code_raw_values_round_trip() {
    let all = [
        (ErrorCode::UnknownError, 1),
        (ErrorCode::OperationFailed, 2),
        (ErrorCode::InvalidFormat, 3),
        (ErrorCode::InvalidModel, 4),
        (ErrorCode::InvalidFile, 5),
    ];
    for (code, raw) in all {
        assert_eq!(code.as_raw(), raw);
        assert_eq!(ErrorCode::from_raw(raw), Some(code));
        assert_eq!(i32::from(code), raw);
        assert_eq!(ErrorCode::try_from(raw), Ok(code));
    }
}

#[test]
fn error_code_rejects_undefined_raw_values() {
    for raw in [0, 6, -1, 100, i32::MIN, i32::MAX] {
        assert_eq!(ErrorCode::from_raw(raw), None);
        assert_eq!(ErrorCode::try_from(raw), Err(raw));
    }
}

#[test]
fn apple_error_code_alias_is_the_same_type() {
    let code: SNErrorCode = ErrorCode::InvalidModel;
    assert_eq!(code.as_raw(), 4);
}

#[test]
fn bridge_statuses_map_to_their_variants() {
    assert_eq!(
        SAError::from_status(status::INVALID_ARGUMENT, "bad".into()),
        SAError::InvalidArgument("bad".into())
    );
    assert_eq!(
        SAError::from_status(status::AUDIO_LOAD_FAILED, "no file".into()),
        SAError::AudioLoadFailed("no file".into())
    );
    assert_eq!(
        SAError::from_status(status::REQUEST_CREATE_FAILED, "model".into()),
        SAError::RequestCreateFailed("model".into())
    );
    assert_eq!(
        SAError::from_status(status::ANALYSIS_FAILED, "mid-run".into()),
        SAError::AnalysisFailed("mid-run".into())
    );
    assert_eq!(
        SAError::from_status(status::UNKNOWN, "odd".into()),
        SAError::Unknown {
            code: -99,
            message: "odd".into()
        }
    );
    assert_eq!(
        SAError::from_status(7, String::new()),
        SAError::Unknown {
            code: 7,
            message: String::new()
        }
    );
}

#[test]
fn error_text_matches_display_wording() {
    assert_eq!(
        SAError::InvalidArgument("x".into()).to_string(),
        "invalid argument: x"
    );
    assert_eq!(
        SAError::AudioLoadFailed("y".into()).to_string(),
        "audio file load failed: y"
    );
    assert_eq!(
        SAError::RequestCreateFailed("z".into()).to_string(),
        "classifier init failed: z"
    );
    assert_eq!(
        SAError::AnalysisFailed("w".into()).to_string(),
        "sound analysis failed: w"
    );
    assert_eq!(
        SAError::Unknown {
            code: -99,
            message: "boom".into()
        }
        .to_string(),
        "soundanalysis error -99: boom"
    );
    assert_eq!(
        SAError::Unknown {
            code: i32::MIN,
            message: String::new()
        }
        .to_string(),
        "soundanalysis error -2147483648: "
    );
    assert_eq!(
        SAError::Unknown {
            code: 0,
            message: "m".into()
        }
        .to_string(),
        "soundanalysis error 0: m"
    );
}

#[test]
fn decimal_text_matches_std_formatting() {
    for n in [0u64, 7, 10, 99, 100, 12345, u64::MAX] {
        let mut out = String::from("n=");
        append_decimal(&mut out, n);
        assert_eq!(out, format!("n={n}"));
    }
    for n in [0i64, -1, 42, -1000, i64::MIN, i64::MAX] {
        let mut out = String::new();
        append_signed_decimal(&mut out, n);
        assert_eq!(out, n.to_string());
    }
}

#[test]
fn live_start_failure_uses_bridge_message_or_default() {
    assert_eq!(
        start_failure(Some("mic permission denied".into())),
        SAError::AnalysisFailed("mic permission denied".into())
    );
    assert_eq!(
        start_failure(None),
        SAError::AnalysisFailed("stream start failed".into())
    );
}

#[test]
fn live_start_failure_never_reports_a_blank_message() {
    for blank in ["", " ", "\t\n", "\u{a0}\u{3000} "] {
        assert_eq!(
            start_failure(Some(blank.into())),
            SAError::AnalysisFailed("stream start failed".into())
        );
    }
    assert_eq!(
        start_failure(Some("  engine refused  ".into())),
        SAError::AnalysisFailed("  engine refused  ".into())
    );
    for message in [None, Some(String::new()), Some("x".to_string())] {
        match start_failure(message) {
            SAError::AnalysisFailed(m) => assert!(!m.trim().is_empty()),
            other => panic!("unexpected error {other:?}"),
        }
    }
}
