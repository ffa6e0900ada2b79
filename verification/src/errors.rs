//! The failures of the endpoints and the JSON envelope that reports them.

use vstd::prelude::*;
use vstd::string::*;
use crate::json::{all_plain, decimal_text, json_string_text, number, quote, quoted};
use crate::status::Status;

verus! {

/// What went wrong, whichever endpoint it happened in.
#[derive(Clone, Copy, Debug, PartialEq, Eq, Structural)]
pub enum ErrorKind {
    /// The storage layer reported a fault.
    RepoError,
    /// The request body could not be decoded.
    InvalidInput,
    /// The email is unknown or the password does not match.
    InvalidCredentials,
}

impl ErrorKind {
    /// The short code that the envelope carries for this kind.
    pub open spec fn shortcode_text(self) -> Seq<char> {
        match self {
            ErrorKind::RepoError => "repo_error"@,
            ErrorKind::InvalidInput => "invalid_input"@,
            ErrorKind::InvalidCredentials => "invalid_credentials"@,
        }
    }

    /// The public type name that the envelope carries for this kind. Invalid
    /// input and invalid credentials share one name.
    pub open spec fn error_type_text(self) -> Seq<char> {
        match self {
            ErrorKind::RepoError => "RepoError"@,
            ErrorKind::InvalidInput => "IncompleteOrInvalidParameterException"@,
            ErrorKind::InvalidCredentials => "IncompleteOrInvalidParameterException"@,
        }
    }

    /// The short code that the envelope carries for this kind.
    pub fn shortcode(self) -> (code: &'static str)
        ensures
            code@ == self.shortcode_text(),
    {
        match self {
            ErrorKind::RepoError => "repo_error",
            ErrorKind::InvalidInput => "invalid_input",
            ErrorKind::InvalidCredentials => "invalid_credentials",
        }
    }

    /// The public type name that the envelope carries for this kind.
    pub fn error_type(self) -> (name: &'static str)
        ensures
            name@ == self.error_type_text(),
    {
        match self {
            ErrorKind::RepoError => "RepoError",
            ErrorKind::InvalidInput => "IncompleteOrInvalidParameterException",
            ErrorKind::InvalidCredentials => "IncompleteOrInvalidParameterException",
        }
    }
}

/// The short codes and the type names hold plain characters only, so the
/// envelope carries each of them between double quotes as it is.
pub proof fn lemma_codes_are_plain(kind: ErrorKind)
    ensures
        all_plain(kind.shortcode_text()),
        all_plain(kind.error_type_text()),
        json_string_text(kind.shortcode_text()) == quoted(kind.shortcode_text()),
        json_string_text(kind.error_type_text()) == quoted(kind.error_type_text()),
{
    reveal_strlit("repo_error");
    reveal_strlit("invalid_input");
    reveal_strlit("invalid_credentials");
    reveal_strlit("RepoError");
    reveal_strlit("IncompleteOrInvalidParameterException");
}

/// The text that a failed login for bad credentials reports.
pub open spec fn invalid_credentials_text() -> Seq<char> {
    "Invalid credentials"@
}

/// A failure reduced to what the envelope needs: its kind and its text.
#[derive(Debug, PartialEq, Eq)]
pub struct Failure {
    pub kind: ErrorKind,
    pub message: String,
}

/// The mathematical value of a [`Failure`].
pub struct FailureView {
    pub kind: ErrorKind,
    pub message: Seq<char>,
}

impl View for Failure {
    type V = FailureView;

    open spec fn view(&self) -> FailureView {
        FailureView { kind: self.kind, message: self.message@ }
    }
}

/// How fetching the current user can fail.
#[derive(Debug, PartialEq, Eq)]
pub enum CurrentUserError {
    RepoError(String),
    InvalidInput(String),
}

/// How registering a user can fail.
#[derive(Debug, PartialEq, Eq)]
pub enum RegisterUserError {
    RepoError(String),
    InvalidInput(String),
}

/// How logging in can fail.
#[derive(Debug, PartialEq, Eq)]
pub enum LoginUserError {
    RepoError(String),
    InvalidInput(String),
    InvalidCredentials,
}

/// How updating a user can fail.
#[derive(Debug, PartialEq, Eq)]
pub enum UpdateUserError {
    RepoError(String),
    InvalidInput(String),
}

impl CurrentUserError {
    /// The failure that this error stands for.
    pub open spec fn failure(self) -> FailureView {
        match self {
            CurrentUserError::RepoError(message) => FailureView {
                kind: ErrorKind::RepoError,
                message: message@,
            },
            CurrentUserError::InvalidInput(message) => FailureView {
                kind: ErrorKind::InvalidInput,
                message: message@,
            },
        }
    }

    /// Reduces the error to its kind and its text.
    pub fn into_failure(self) -> (failure: Failure)
        ensures
            failure@ == self.failure(),
    {
        match self {
            CurrentUserError::RepoError(message) => Failure {
                kind: ErrorKind::RepoError,
                message,
            },
            CurrentUserError::InvalidInput(message) => Failure {
                kind: ErrorKind::InvalidInput,
                message,
            },
        }
    }
}

impl RegisterUserError {
    /// The failure that this error stands for.
    pub open spec fn failure(self) -> FailureView {
        match self {
            RegisterUserError::RepoError(message) => FailureView {
                kind: ErrorKind::RepoError,
                message: message@,
            },
            RegisterUserError::InvalidInput(message) => FailureView {
                kind: ErrorKind::InvalidInput,
                message: message@,
            },
        }
    }

    /// Reduces the error to its kind and its text.
    pub fn into_failure(self) -> (failure: Failure)
        ensures
            failure@ == self.failure(),
    {
        match self {
            RegisterUserError::RepoError(message) => Failure {
                kind: ErrorKind::RepoError,
                message,
            },
            RegisterUserError::InvalidInput(message) => Failure {
                kind: ErrorKind::InvalidInput,
                message,
            },
        }
    }
}

impl LoginUserError {
    /// The failure that this error stands for. Bad credentials always report
    /// the same text.
    pub open spec fn failure(self) -> FailureView {
        match self {
            LoginUserError::RepoError(message) => FailureView {
                kind: ErrorKind::RepoError,
                message: message@,
            },
            LoginUserError::InvalidInput(message) => FailureView {
                kind: ErrorKind::InvalidInput,
                message: message@,
            },
            LoginUserError::InvalidCredentials => FailureView {
                kind: ErrorKind::InvalidCredentials,
                message: invalid_credentials_text(),
            },
        }
    }

    /// Reduces the error to its kind and its text.
    pub fn into_failure(self) -> (failure: Failure)
        ensures
            failure@ == self.failure(),
    {
        match self {
            LoginUserError::RepoError(message) => Failure {
                kind: ErrorKind::RepoError,
                message,
            },
            LoginUserError::InvalidInput(message) => Failure {
                kind: ErrorKind::InvalidInput,
                message,
            },
            LoginUserError::InvalidCredentials => Failure {
                kind: ErrorKind::InvalidCredentials,
                message: String::from_str("Invalid credentials"),
            },
        }
    }
}

impl UpdateUserError {
    /// The failure that this error stands for.
    pub open spec fn failure(self) -> FailureView {
        match self {
            UpdateUserError::RepoError(message) => FailureView {
                kind: ErrorKind::RepoError,
                message: message@,
            },
            UpdateUserError::InvalidInput(message) => FailureView {
                kind: ErrorKind::InvalidInput,
                message: message@,
            },
        }
    }

    /// Reduces the error to its kind and its text.
    pub fn into_failure(self) -> (failure: Failure)
        ensures
            failure@ == self.failure(),
    {
        match self {
            UpdateUserError::RepoError(message) => Failure {
                kind: ErrorKind::RepoError,
                message,
            },
            UpdateUserError::InvalidInput(message) => Failure {
                kind: ErrorKind::InvalidInput,
                message,
            },
        }
    }
}

/// The fields of the error envelope.
#[derive(Debug, PartialEq, Eq)]
pub struct ErrorDetails {
    pub status: u16,
    pub message: String,
    pub message_shortcode: String,
    pub datetime: String,
    pub url: String,
    pub error_type: String,
}

/// The error envelope: the details under the single key `error`.
#[derive(Debug, PartialEq, Eq)]
pub struct ErrorWrapper {
    pub error: ErrorDetails,
}

/// The mathematical value of [`ErrorDetails`].
pub struct ErrorDetailsView {
    pub status: u16,
    pub message: Seq<char>,
    pub message_shortcode: Seq<char>,
    pub datetime: Seq<char>,
    pub url: Seq<char>,
    pub error_type: Seq<char>,
}

/// The mathematical value of an [`ErrorWrapper`].
pub struct ErrorWrapperView {
    pub error: ErrorDetailsView,
}

impl View for ErrorDetails {
    type V = ErrorDetailsView;

    open spec fn view(&self) -> ErrorDetailsView {
        ErrorDetailsView {
            status: self.status,
            message: self.message@,
            message_shortcode: self.message_shortcode@,
            datetime: self.datetime@,
            url: self.url@,
            error_type: self.error_type@,
        }
    }
}

impl View for ErrorWrapper {
    type V = ErrorWrapperView;

    open spec fn view(&self) -> ErrorWrapperView {
        ErrorWrapperView { error: self.error@ }
    }
}

/// The JSON object of the details, given the JSON text of each member in
/// the order in which the object lists them.
pub open spec fn details_frame(
    status: Seq<char>,
    message: Seq<char>,
    message_shortcode: Seq<char>,
    datetime: Seq<char>,
    url: Seq<char>,
    error_type: Seq<char>,
) -> Seq<char> {
    "{\"status\":"@ + status + ",\"message\":"@ + message + ",\"message_shortcode\":"@
        + message_shortcode + ",\"datetime\":"@ + datetime + ",\"url\":"@ + url
        + ",\"error_type\":"@ + error_type + "}"@
}

/// The JSON object of the envelope, given the JSON text of the details.
pub open spec fn wrapper_frame(details: Seq<char>) -> Seq<char> {
    "{\"error\":"@ + details + "}"@
}

impl ErrorDetailsView {
    /// The JSON text of the details.
    pub open spec fn json_text(self) -> Seq<char> {
        details_frame(
            decimal_text(self.status as nat),
            json_string_text(self.message),
            json_string_text(self.message_shortcode),
            json_string_text(self.datetime),
            json_string_text(self.url),
            json_string_text(self.error_type),
        )
    }
}

impl ErrorWrapperView {
    /// The envelope that reports `failure` for a request to `url` handled at
    /// `datetime`. The status is 400 whatever the kind of the failure.
    pub open spec fn report(failure: FailureView, datetime: Seq<char>, url: Seq<char>) -> Self {
        ErrorWrapperView {
            error: ErrorDetailsView {
                status: 400,
                message: failure.message,
                message_shortcode: failure.kind.shortcode_text(),
                datetime,
                url,
                error_type: failure.kind.error_type_text(),
            },
        }
    }

    /// The JSON text of the envelope.
    pub open spec fn json_text(self) -> Seq<char> {
        wrapper_frame(self.error.json_text())
    }
}

/// Writes the JSON object of the details from the JSON text of each member.
pub fn frame_details(
    status: &str,
    message: &str,
    message_shortcode: &str,
    datetime: &str,
    url: &str,
    error_type: &str,
) -> (text: String)
    ensures
        text@ == details_frame(
            status@,
            message@,
            message_shortcode@,
            datetime@,
            url@,
            error_type@,
        ),
{
    let mut text = String::from_str("{\"status\":");
    text.append(status);
    text.append(",\"message\":");
    text.append(message);
    text.append(",\"message_shortcode\":");
    text.append(message_shortcode);
    text.append(",\"datetime\":");
    text.append(datetime);
    text.append(",\"url\":");
    text.append(url);
    text.append(",\"error_type\":");
    text.append(error_type);
    text.append("}");
    text
}

/// Writes the JSON object of the envelope from the JSON text of the details.
pub fn frame_wrapper(details: &str) -> (text: String)
    ensures
        text@ == wrapper_frame(details@),
{
    let mut text = String::from_str("{\"error\":");
    text.append(details);
    text.append("}");
    text
}

impl ErrorDetails {
    /// Serializes the details as a JSON object.
    pub fn to_json(&self) -> (text: String)
        ensures
            text@ == self@.json_text(),
    {
        let status = number(self.status);
        let message = quote(self.message.as_str());
        let message_shortcode = quote(self.message_shortcode.as_str());
        let datetime = quote(self.datetime.as_str());
        let url = quote(self.url.as_str());
        let error_type = quote(self.error_type.as_str());
        frame_details(
            status.as_str(),
            message.as_str(),
            message_shortcode.as_str(),
            datetime.as_str(),
            url.as_str(),
            error_type.as_str(),
        )
    }
}

impl ErrorWrapper {
    /// Builds the envelope that reports `failure` for a request to `url`
    /// handled at `datetime`.
    pub fn report(failure: Failure, datetime: &str, url: &str) -> (wrapper: ErrorWrapper)
        ensures
            wrapper@ == ErrorWrapperView::report(failure@, datetime@, url@),
    {
        let kind = failure.kind;
        ErrorWrapper {
            error: ErrorDetails {
                status: Status::BadRequest.code(),
                message: failure.message,
                message_shortcode: String::from_str(kind.shortcode()),
                datetime: String::from_str(datetime),
                url: String::from_str(url),
                error_type: String::from_str(kind.error_type()),
            },
        }
    }

    /// Serializes the envelope as a JSON object.
    pub fn to_json(&self) -> (text: String)
        ensures
            text@ == self@.json_text(),
    {
        let details = self.error.to_json();
        frame_wrapper(details.as_str())
    }
}

} // verus!
