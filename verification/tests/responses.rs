use wheel_upload::response::{classify, UploadError, UploadOutcome};

#[test]
fn classify_forbidden_with_overwrite_text_is_already_exists() {
    let body = "denied: not allowed to overwrite artifact x";
    assert_eq!(classify(403, body), UploadOutcome::AlreadyExists(body.to_string()));
}

#[test]
fn classify_forbidden_otherwise_is_authentication_failure() {
    assert_eq!(classify(403, "nope"), UploadOutcome::AuthenticationFailed);
    assert_eq!(classify(403, ""), UploadOutcome::AuthenticationFailed);
    assert_eq!(classify(403, "already exists"), UploadOutcome::AuthenticationFailed);
}

#[test]
fn classify_conflict_is_already_exists() {
    assert_eq!(classify(409, ""), UploadOutcome::AlreadyExists(String::new()));
    assert_eq!(classify(409, "x"), UploadOutcome::AlreadyExists("x".to_string()));
}

#[test]
fn classify_bad_request_by_wording() {
    assert_eq!(classify(400, "already exists"), UploadOutcome::AlreadyExists("already exists".to_string()));
    let nexus = "error updating asset foo";
    assert_eq!(classify(400, nexus), UploadOutcome::AlreadyExists(nexus.to_string()));
    let gitlab = "File name has already been taken";
    assert_eq!(classify(400, gitlab), UploadOutcome::AlreadyExists(gitlab.to_string()));
    assert_eq!(classify(400, "unrelated"), UploadOutcome::ServerError(400, "unrelated".to_string()));
}

#[test]
fn classify_wording_is_case_sensitive() {
    assert_eq!(classify(400, "Already Exists"), UploadOutcome::ServerError(400, "Already Exists".to_string()));
    assert_eq!(classify(403, "Overwrite Artifact"), UploadOutcome::AuthenticationFailed);
}

#[test]
fn classify_wording_counts_only_under_its_status() {
    assert_eq!(classify(400, "overwrite artifact"), UploadOutcome::ServerError(400, "overwrite artifact".to_string()));
    assert_eq!(classify(500, "already exists"), UploadOutcome::ServerError(500, "already exists".to_string()));
}

#[test]
fn classify_success_range() {
    assert_eq!(classify(200, ""), UploadOutcome::Success);
    assert_eq!(classify(201, ""), UploadOutcome::Success);
    assert_eq!(classify(299, "already exists"), UploadOutcome::Success);
    assert_eq!(classify(199, ""), UploadOutcome::ServerError(199, String::new()));
    assert_eq!(classify(300, "moved"), UploadOutcome::ServerError(300, "moved".to_string()));
}

#[test]
fn into_result_maps_each_outcome() {
    assert_eq!(UploadOutcome::Success.into_result(), Ok(()));
    assert_eq!(UploadOutcome::AuthenticationFailed.into_result(), Err(UploadError::AuthenticationError));
    assert_eq!(
        UploadOutcome::AlreadyExists("t".to_string()).into_result(),
        Err(UploadError::FileExistsError("t".to_string()))
    );
    assert_eq!(
        UploadOutcome::TransportFailed("dns".to_string()).into_result(),
        Err(UploadError::UreqError("dns".to_string()))
    );
    assert_eq!(
        UploadOutcome::ServerError(502, "bad".to_string()).into_result(),
        Err(UploadError::StatusCodeError(502, "bad".to_string()))
    );
}
