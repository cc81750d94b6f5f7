use scrysynth::session_file::{check_schema_version, temporary_file_name, SessionFileError};

#[test]
fn v1_session_is_rejected_with_friendly_message() {
    let error = check_schema_version(1).expect_err("v1 is rejected");
    assert!(
        matches!(error, SessionFileError::LegacyV1Session),
        "expected LegacyV1Session, got {error:?}"
    );
    assert!(error.message().contains("v1 session"));
}

#[test]
fn unknown_future_schema_version_is_rejected() {
    let error = check_schema_version(99).expect_err("unknown version rejected");
    assert!(matches!(
        error,
        SessionFileError::UnsupportedSchemaVersion { expected: 2, found: 99 }
    ));
    assert_eq!(error.message(), "unsupported schemaVersion 99; expected 2");
}

#[test]
fn current_schema_version_is_accepted() {
    assert_eq!(check_schema_version(2), Ok(()));
}

#[test]
fn temporary_file_name_hides_next_to_target() {
    assert_eq!(temporary_file_name(Some("ok.json")), ".ok.json.tmp");
    assert_eq!(temporary_file_name(None), ".session.tmp");
}

#[test]
fn file_errors_name_path_and_cause() {
    let e = SessionFileError::Read { path: "/tmp/x.json".to_string(), message: "denied".to_string() };
    assert_eq!(e.message(), "failed to read session file /tmp/x.json: denied");
}
