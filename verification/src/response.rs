//! Reading the index's answer to one upload.
//!
//! Indexes do not agree on how to say that a file was published before, so
//! the answer is read by status first and by wording second.

use vstd::prelude::*;
use crate::text::{is_substring, str_contains};

verus! {

/// What became of one upload.
#[derive(Debug, Clone, PartialEq, Eq)]
pub enum UploadOutcome {
    /// The index accepted the file.
    Success,
    /// The index refused the credentials.
    AuthenticationFailed,
    /// The index holds this file already; carries the index's text.
    AlreadyExists(String),
    /// No answer arrived; carries the cause.
    TransportFailed(String),
    /// Any other answer; carries the status and the index's text.
    ServerError(u16, String),
}

/// The mathematical value of an [`UploadOutcome`].
pub enum OutcomeModel {
    Success,
    AuthenticationFailed,
    AlreadyExists(Seq<char>),
    TransportFailed(Seq<char>),
    ServerError(u16, Seq<char>),
}

impl View for UploadOutcome {
    type V = OutcomeModel;

    open spec fn view(&self) -> OutcomeModel {
        match self {
            UploadOutcome::Success => OutcomeModel::Success,
            UploadOutcome::AuthenticationFailed => OutcomeModel::AuthenticationFailed,
            UploadOutcome::AlreadyExists(text) => OutcomeModel::AlreadyExists(text@),
            UploadOutcome::TransportFailed(cause) => OutcomeModel::TransportFailed(cause@),
            UploadOutcome::ServerError(status, text) => OutcomeModel::ServerError(*status, text@),
        }
    }
}

/// The wording by which an index says, under the given status, that the
/// file was published before.
pub open spec fn says_already_exists(status: u16, body: Seq<char>) -> bool {
    ||| status == 403 && is_substring("overwrite artifact"@, body)
    ||| status == 409
    ||| status == 400 && is_substring("already exists"@, body)
    ||| status == 400 && is_substring("updating asset"@, body)
    ||| status == 400 && is_substring("already been taken"@, body)
}

/// The outcome that a status and a body stand for.
pub open spec fn classification(status: u16, body: Seq<char>) -> OutcomeModel {
    if 200 <= status && status <= 299 {
        OutcomeModel::Success
    } else if says_already_exists(status, body) {
        OutcomeModel::AlreadyExists(body)
    } else if status == 403 {
        OutcomeModel::AuthenticationFailed
    } else {
        OutcomeModel::ServerError(status, body)
    }
}

/// Classifies the answer of an index by its status and the text of its body.
pub fn classify(status: u16, body: &str) -> (outcome: UploadOutcome)
    ensures
        outcome@ == classification(status, body@),
{
    if 200 <= status && status <= 299 {
        UploadOutcome::Success
    } else if status == 403 {
        if str_contains(body, "overwrite artifact") {
            UploadOutcome::AlreadyExists(body.to_owned())
        } else {
            UploadOutcome::AuthenticationFailed
        }
    } else if status == 409 || (status == 400 && (str_contains(body, "already exists")
        || str_contains(body, "updating asset") || str_contains(body, "already been taken"))) {
        UploadOutcome::AlreadyExists(body.to_owned())
    } else {
        UploadOutcome::ServerError(status, body.to_owned())
    }
}

/// Why an upload did not go through.
#[derive(Debug, Clone, PartialEq, Eq)]
pub enum UploadError {
    /// The request failed below the level of statuses; carries the cause.
    UreqError(String),
    /// The index refused the credentials.
    AuthenticationError,
    /// Reading the artifact failed; carries the cause.
    IoError(String),
    /// The index answered with an unexpected status; carries it and the text.
    StatusCodeError(u16, String),
    /// The file exists already; carries the index's text.
    FileExistsError(String),
    /// The artifact's metadata could not be read; carries the path and the cause.
    PkgInfoError(String, String),
    /// The secure channel could not be set up; carries the cause.
    TlsError(String),
}

/// The mathematical value of an [`UploadError`].
pub enum ErrorModel {
    UreqError(Seq<char>),
    AuthenticationError,
    IoError(Seq<char>),
    StatusCodeError(u16, Seq<char>),
    FileExistsError(Seq<char>),
    PkgInfoError(Seq<char>, Seq<char>),
    TlsError(Seq<char>),
}

impl View for UploadError {
    type V = ErrorModel;

    open spec fn view(&self) -> ErrorModel {
        match self {
            UploadError::UreqError(cause) => ErrorModel::UreqError(cause@),
            UploadError::AuthenticationError => ErrorModel::AuthenticationError,
            UploadError::IoError(cause) => ErrorModel::IoError(cause@),
            UploadError::StatusCodeError(status, text) => ErrorModel::StatusCodeError(
                *status,
                text@,
            ),
            UploadError::FileExistsError(text) => ErrorModel::FileExistsError(text@),
            UploadError::PkgInfoError(path, cause) => ErrorModel::PkgInfoError(path@, cause@),
            UploadError::TlsError(cause) => ErrorModel::TlsError(cause@),
        }
    }
}

/// The result that an outcome amounts to: success is `Ok`, every other
/// outcome the error of the same meaning.
pub open spec fn outcome_result(outcome: OutcomeModel) -> Result<(), ErrorModel> {
    match outcome {
        OutcomeModel::Success => Ok(()),
        OutcomeModel::AuthenticationFailed => Err(ErrorModel::AuthenticationError),
        OutcomeModel::AlreadyExists(text) => Err(ErrorModel::FileExistsError(text)),
        OutcomeModel::TransportFailed(cause) => Err(ErrorModel::UreqError(cause)),
        OutcomeModel::ServerError(status, text) => Err(ErrorModel::StatusCodeError(status, text)),
    }
}

/// The view of the result of an upload.
pub open spec fn result_view(r: Result<(), UploadError>) -> Result<(), ErrorModel> {
    match r {
        Ok(()) => Ok(()),
        Err(e) => Err(e@),
    }
}

impl UploadOutcome {
    /// Turns the outcome into a result.
    pub fn into_result(self) -> (r: Result<(), UploadError>)
        ensures
            result_view(r) == outcome_result(self@),
    {
        match self {
            UploadOutcome::Success => Ok(()),
            UploadOutcome::AuthenticationFailed => Err(UploadError::AuthenticationError),
            UploadOutcome::AlreadyExists(text) => Err(UploadError::FileExistsError(text)),
            UploadOutcome::TransportFailed(cause) => Err(UploadError::UreqError(cause)),
            UploadOutcome::ServerError(status, text) => Err(
                UploadError::StatusCodeError(status, text),
            ),
        }
    }
}

} // verus!
