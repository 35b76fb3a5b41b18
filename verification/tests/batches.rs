use wheel_upload::batch::{
    decide, describe_failure, failure_message, warn_after_deletion, warn_after_storing, Action,
    Batch, Phase, SecretStoreError, Verdict,
};
use wheel_upload::response::{classify, UploadError};

fn file_exists() -> Result<(), UploadError> {
    classify(409, "there").into_result()
}

#[test]
fn batch_stops_at_existing_file_without_skip() {
    let mut batch = Batch::new(3, false);
    assert_eq!(batch.next_action(), Action::Upload(0));
    batch.record(&Ok(()));
    assert_eq!(batch.next_action(), Action::Upload(1));
    batch.record(&file_exists());
    assert_eq!(batch.phase, Phase::Failed);
    assert_eq!(batch.next_action(), Action::ReportFailure(1));
    batch.record(&Ok(()));
    assert_eq!(batch.next_action(), Action::ReportFailure(1));
    assert_eq!(batch.position, 1);
    assert!(batch.skipped.is_empty());
}

#[test]
fn batch_skips_existing_file_with_skip() {
    let mut batch = Batch::new(3, true);
    batch.record(&Ok(()));
    batch.record(&file_exists());
    assert_eq!(batch.skipped, vec![1]);
    assert_eq!(batch.next_action(), Action::Upload(2));
    batch.record(&Ok(()));
    assert_eq!(batch.phase, Phase::Succeeded);
    assert_eq!(batch.next_action(), Action::StorePassword);
    assert_eq!(batch.skipped, vec![1]);
    assert_eq!(batch.position, 3);
}

#[test]
fn batch_bad_credentials_delete_then_report() {
    for deletion in [
        Ok(()),
        Err(SecretStoreError::NoStorageAccess),
        Err(SecretStoreError::NoEntry),
        Err(SecretStoreError::PlatformFailure),
        Err(SecretStoreError::Other),
    ] {
        let mut batch = Batch::new(2, true);
        batch.record(&classify(403, "nope").into_result());
        assert_eq!(batch.phase, Phase::BadCredentials);
        assert_eq!(batch.next_action(), Action::DeleteStoredPassword);
        batch.record_deletion(&deletion);
        assert_eq!(batch.phase, Phase::Rejected);
        assert_eq!(batch.next_action(), Action::ReportBadCredentials);
        batch.record(&Ok(()));
        assert_eq!(batch.next_action(), Action::ReportBadCredentials);
    }
}

#[test]
fn batch_deletion_report_out_of_turn_changes_nothing() {
    let mut batch = Batch::new(1, false);
    batch.record_deletion(&Ok(()));
    assert_eq!(batch, Batch::new(1, false));
}

#[test]
fn batch_of_nothing_succeeds_at_once() {
    let batch = Batch::new(0, false);
    assert_eq!(batch.phase, Phase::Succeeded);
    assert_eq!(batch.next_action(), Action::StorePassword);
}

#[test]
fn batch_stops_at_server_and_transport_errors() {
    for error in [
        UploadError::StatusCodeError(500, "boom".to_string()),
        UploadError::UreqError("dns".to_string()),
        UploadError::IoError("gone".to_string()),
        UploadError::PkgInfoError("a.whl".to_string(), "bad".to_string()),
        UploadError::TlsError("tls".to_string()),
    ] {
        let mut batch = Batch::new(2, true);
        batch.record(&Err(error));
        assert_eq!(batch.next_action(), Action::ReportFailure(0));
    }
}

#[test]
fn decide_each_verdict() {
    assert_eq!(decide(&Ok(()), false), Verdict::Continue);
    assert_eq!(decide(&Err(UploadError::AuthenticationError), true), Verdict::AbortBadCredentials);
    assert_eq!(decide(&Err(UploadError::FileExistsError("x".to_string())), true), Verdict::Skip);
    assert_eq!(decide(&Err(UploadError::FileExistsError("x".to_string())), false), Verdict::Abort);
    assert_eq!(decide(&Err(UploadError::StatusCodeError(500, "x".to_string())), true), Verdict::Abort);
}

#[test]
fn warnings_after_deletion() {
    assert!(!warn_after_deletion(&Ok(())));
    assert!(!warn_after_deletion(&Err(SecretStoreError::NoEntry)));
    assert!(!warn_after_deletion(&Err(SecretStoreError::NoStorageAccess)));
    assert!(warn_after_deletion(&Err(SecretStoreError::PlatformFailure)));
    assert!(warn_after_deletion(&Err(SecretStoreError::Other)));
}

#[test]
fn warnings_after_storing() {
    assert!(!warn_after_storing(&Ok(())));
    assert!(!warn_after_storing(&Err(SecretStoreError::NoStorageAccess)));
    assert!(warn_after_storing(&Err(SecretStoreError::PlatformFailure)));
    assert!(warn_after_storing(&Err(SecretStoreError::NoEntry)));
    assert!(warn_after_storing(&Err(SecretStoreError::Other)));
}

#[test]
fn failure_message_exact() {
    assert_eq!(
        failure_message("\"pkg-1.0.whl\"", "1.5 MB"),
        "💥 Failed to upload \"pkg-1.0.whl\" (1.5 MB)"
    );
}

#[test]
fn describe_failure_formats_the_size() {
    assert_eq!(describe_failure("\"a.whl\"", 500), "💥 Failed to upload \"a.whl\" (500 B)");
    assert_eq!(describe_failure("\"a.whl\"", 0), "💥 Failed to upload \"a.whl\" (0 B)");
}
