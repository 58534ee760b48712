use soundanalysis::classifier::{check_builtin_status, first_index_of};
use soundanalysis::paths::{
    check_nul_free, checked_audio_and_model_paths, checked_path, first_nul_byte, NulWording,
    PathSubject,
};
use soundanalysis::request::labels_from_entries;
use soundanalysis::time::{check_enumerated_count, constraint_type_from_raw};
use soundanalysis::{ClassifierIdentifier, SAError, SNClassifierIdentifier, TimeDurationConstraintType};

fn invalid(message: &str) -> SAError {
    SAError::InvalidArgument(message.into())
}

#[test]
fn first_nul_byte_reports_byte_positions() {
    assert_eq!(first_nul_byte("plain/path.wav"), None);
    assert_eq!(first_nul_byte(""), None);
    assert_eq!(first_nul_byte("\0"), Some(0));
    assert_eq!(first_nul_byte("path\0with\0nul"), Some(4));
    // "é" takes two bytes, so the NUL after it is at byte 3.
    assert_eq!(first_nul_byte("aé\0"), Some(3));
}

#[test]
fn checked_path_accepts_clean_utf8_paths() {
    assert_eq!(
        checked_path(Some("/tmp/test.wav"), PathSubject::AudioPath, NulWording::NulByte),
        Ok("/tmp/test.wav")
    );
    assert_eq!(
        checked_path(
            Some("/nonexistent/audio.mp3"),
            PathSubject::AudioPath,
            NulWording::NulByte
        ),
        Ok("/nonexistent/audio.mp3")
    );
}

#[test]
fn checked_path_rejects_non_utf8_paths() {
    assert_eq!(
        checked_path(None, PathSubject::Path, NulWording::NulByte),
        Err(invalid("non-UTF-8 path"))
    );
    assert_eq!(
        checked_path(None, PathSubject::AudioPath, NulWording::NulByte),
        Err(invalid("non-UTF-8 audio path"))
    );
    assert_eq!(
        checked_path(None, PathSubject::ModelPath, NulWording::NulByte),
        Err(invalid("non-UTF-8 model path"))
    );
}

#[test]
fn checked_path_rejects_nul_bytes_like_cstring() {
    assert_eq!(
        checked_path(Some("path\0with\0nul"), PathSubject::AudioPath, NulWording::NulByte),
        Err(invalid(
            "audio path NUL byte: nul byte found in provided data at position: 4"
        ))
    );
    assert_eq!(
        checked_path(Some("model\0"), PathSubject::ModelPath, NulWording::NulByte),
        Err(invalid(
            "model path NUL byte: nul byte found in provided data at position: 5"
        ))
    );
    assert_eq!(
        check_nul_free("x\0", PathSubject::Path, NulWording::NulByte),
        Err(invalid("path NUL byte: nul byte found in provided data at position: 1"))
    );
    assert_eq!(check_nul_free("fine", PathSubject::Path, NulWording::Nul), Ok(()));
}

#[test]
fn audio_and_model_paths_check_utf8_before_nul_bytes() {
    assert_eq!(
        checked_audio_and_model_paths(Some("a.wav"), Some("m.mlmodelc")),
        Ok(("a.wav", "m.mlmodelc"))
    );
    assert_eq!(
        checked_audio_and_model_paths(None, None),
        Err(invalid("non-UTF-8 audio path"))
    );
    // A NUL in the audio path does not hide a model path that is not UTF-8.
    assert_eq!(
        checked_audio_and_model_paths(Some("a\0"), None),
        Err(invalid("non-UTF-8 model path"))
    );
    assert_eq!(
        checked_audio_and_model_paths(Some("a\0"), Some("m\0")),
        Err(invalid(
            "audio path NUL: nul byte found in provided data at position: 1"
        ))
    );
    assert_eq!(
        checked_audio_and_model_paths(Some("a"), Some("mm\0")),
        Err(invalid(
            "model path NUL: nul byte found in provided data at position: 2"
        ))
    );
}

#[test]
fn classifier_identifier_codes() {
    assert_eq!(ClassifierIdentifier::Version1.as_ffi(), 1);
    let classifier: SNClassifierIdentifier = ClassifierIdentifier::Version1;
    assert_eq!(classifier, SNClassifierIdentifier::Version1);
}

#[test]
fn labels_skip_absent_entries_and_keep_order() {
    let labels = labels_from_entries(vec![
        Some("speech".to_string()),
        None,
        Some("music".to_string()),
        None,
        Some("dog_bark".to_string()),
    ]);
    assert_eq!(labels, vec!["speech", "music", "dog_bark"]);
    assert!(labels_from_entries(Vec::new()).is_empty());
    assert!(labels_from_entries(vec![None, None]).is_empty());
}

#[test]
fn builtin_label_failure_is_request_create_failed() {
    assert_eq!(check_builtin_status(0), Ok(()));
    assert_eq!(
        check_builtin_status(-3),
        Err(SAError::RequestCreateFailed(
            "built-in classifier unavailable".into()
        ))
    );
    assert_eq!(
        check_builtin_status(-99),
        Err(SAError::RequestCreateFailed(
            "built-in classifier unavailable".into()
        ))
    );
}

#[test]
fn lookup_by_identifier_finds_the_first_match() {
    let ids = ["speech", "music", "speech"];
    assert_eq!(first_index_of(&ids, "speech"), Some(0));
    assert_eq!(first_index_of(&ids, "music"), Some(1));
    assert_eq!(first_index_of(&ids, "applause"), None);
    assert_eq!(first_index_of(&[], "speech"), None);
    assert_eq!(first_index_of(&["Speech"], "speech"), None);
}

#[test]
fn constraint_kinds_decode_from_bridge_codes() {
    assert_eq!(
        constraint_type_from_raw(1),
        Some(TimeDurationConstraintType::Enumerated)
    );
    assert_eq!(
        constraint_type_from_raw(2),
        Some(TimeDurationConstraintType::Range)
    );
    assert_eq!(constraint_type_from_raw(0), None);
    assert_eq!(constraint_type_from_raw(3), None);
}

#[test]
fn enumerated_constraints_need_a_duration() {
    assert_eq!(check_enumerated_count(1), Ok(()));
    assert_eq!(check_enumerated_count(4), Ok(()));
    assert_eq!(
        check_enumerated_count(0),
        Err(invalid("enumerated constraints need at least one duration"))
    );
}
