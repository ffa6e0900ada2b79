//! From the outcome of an endpoint to the HTTP response.

use vstd::prelude::*;
use vstd::string::*;
use crate::clock::{is_stamp, lemma_stamp_is_plain, timestamp};
use crate::errors::{
    lemma_codes_are_plain, CurrentUserError, ErrorKind, ErrorWrapper, ErrorWrapperView, Failure,
    FailureView, LoginUserError, RegisterUserError, UpdateUserError,
};
use crate::json::{decimal_text, json_string_text, quoted};
use crate::payloads::{CurrentUserOutput, LoginUserOutput, RegisterUserOutput, UpdateUserOutput};
use crate::status::Status;

verus! {

/// What the response mapping reads of a request: the path as received.
#[derive(Debug, PartialEq, Eq)]
pub struct Request {
    pub uri: String,
}

/// A response: its status and its JSON body.
#[derive(Debug, PartialEq, Eq)]
pub struct Response {
    pub status: Status,
    pub body: String,
}

/// The mathematical value of a [`Response`].
pub struct ResponseView {
    pub status: Status,
    pub body: Seq<char>,
}

impl View for Response {
    type V = ResponseView;

    open spec fn view(&self) -> ResponseView {
        ResponseView { status: self.status, body: self.body@ }
    }
}

/// The outcome of an endpoint, on its way to becoming a response.
pub struct ApiResult<R, E>(pub Result<R, E>);

/// The response to a success: status 200 and the serialized output as it is.
pub open spec fn success_response(output: Seq<char>) -> ResponseView {
    ResponseView { status: Status::Success, body: output }
}

/// The response to a failure: status 400, whatever the kind, and the
/// serialized envelope for a request to `url` handled at `datetime`.
pub open spec fn failure_response(
    failure: FailureView,
    url: Seq<char>,
    datetime: Seq<char>,
) -> ResponseView {
    ResponseView {
        status: Status::BadRequest,
        body: ErrorWrapperView::report(failure, datetime, url).json_text(),
    }
}

/// Answers a success with its serialized output.
pub fn respond_success(output: String) -> (response: Response)
    ensures
        response@ == success_response(output@),
{
    Response { status: Status::Success, body: output }
}

/// Answers a failure of the request `req`, handled at `datetime`.
pub fn respond_failure(failure: Failure, req: &Request, datetime: &str) -> (response: Response)
    ensures
        response@ == failure_response(failure@, req.uri@, datetime@),
{
    let wrapper = ErrorWrapper::report(failure, datetime, req.uri.as_str());
    Response { status: Status::BadRequest, body: wrapper.to_json() }
}

/// Every success is answered with status 200 and with the serialized output
/// as the whole body, with nothing wrapped around it.
pub proof fn lemma_success_is_200_with_bare_output(output: Seq<char>)
    ensures
        success_response(output).status.code_value() == 200,
        success_response(output).body == output,
{
}

/// Every failure is answered with status 400, also a storage fault, and with
/// the envelope as the body: one object under the key `error` that lists the
/// status 400, the text of the failure, its short code, the time, the path of
/// the request and the public type name, in this order. The short code and
/// the type name stand between double quotes as they are, and so does the
/// time when it is a timestamp. Short code and type name go together in
/// exactly three ways.
pub proof fn lemma_failure_is_400_with_envelope(
    failure: FailureView,
    url: Seq<char>,
    datetime: Seq<char>,
)
    ensures
        failure_response(failure, url, datetime).status.code_value() == 400,
        failure_response(failure, url, datetime).body == "{\"error\":{\"status\":400,\"message\":"@
            + json_string_text(failure.message) + ",\"message_shortcode\":"@ + quoted(
            failure.kind.shortcode_text(),
        ) + ",\"datetime\":"@ + json_string_text(datetime) + ",\"url\":"@ + json_string_text(url)
            + ",\"error_type\":"@ + quoted(failure.kind.error_type_text()) + "}}"@,
        match failure.kind {
            ErrorKind::RepoError => failure.kind.shortcode_text() == "repo_error"@
                && failure.kind.error_type_text() == "RepoError"@,
            ErrorKind::InvalidInput => failure.kind.shortcode_text() == "invalid_input"@
                && failure.kind.error_type_text() == "IncompleteOrInvalidParameterException"@,
            ErrorKind::InvalidCredentials => failure.kind.shortcode_text()
                == "invalid_credentials"@ && failure.kind.error_type_text()
                == "IncompleteOrInvalidParameterException"@,
        },
        is_stamp(datetime) ==> json_string_text(datetime) == quoted(datetime),
{
    lemma_codes_are_plain(failure.kind);
    if is_stamp(datetime) {
        lemma_stamp_is_plain(datetime);
    }
    reveal_strlit("{\"error\":{\"status\":400,\"message\":");
    reveal_strlit("{\"error\":");
    reveal_strlit("{\"status\":");
    reveal_strlit(",\"message\":");
    reveal_strlit("}}");
    reveal_strlit("}");
    assert(decimal_text(400) =~= seq!['4', '0', '0']) by {
        reveal_with_fuel(decimal_text, 3);
    }
    let head = "{\"error\":"@ + "{\"status\":"@ + decimal_text(400) + ",\"message\":"@;
    assert(head =~= "{\"error\":{\"status\":400,\"message\":"@);
    assert("}}"@ =~= "}"@ + "}"@);
    let body = head + json_string_text(failure.message) + ",\"message_shortcode\":"@ + quoted(
        failure.kind.shortcode_text(),
    ) + ",\"datetime\":"@ + json_string_text(datetime) + ",\"url\":"@ + json_string_text(url)
        + ",\"error_type\":"@ + quoted(failure.kind.error_type_text()) + "}}"@;
    assert(failure_response(failure, url, datetime).body =~= body);
}

impl ApiResult<CurrentUserOutput, CurrentUserError> {
    /// Answers the request `req`, handled at `datetime`, with this outcome.
    pub fn respond_at(self, req: &Request, datetime: &str) -> (response: Response)
        ensures
            response@ == match self.0 {
                Ok(output) => success_response(output.json_text()),
                Err(error) => failure_response(error.failure(), req.uri@, datetime@),
            },
    {
        match self.0 {
            Ok(output) => respond_success(output.to_json()),
            Err(error) => respond_failure(error.into_failure(), req, datetime),
        }
    }

    /// Answers the request `req` with this outcome. A failure is stamped with
    /// the local time of the call.
    pub fn respond_to(self, req: &Request) -> (response: Response)
        ensures
            match self.0 {
                Ok(output) => response@ == success_response(output.json_text()),
                Err(error) => exists|datetime: Seq<char>|
                    is_stamp(datetime) && response@ == #[trigger] failure_response(
                        error.failure(),
                        req.uri@,
                        datetime,
                    ),
            },
    {
        let datetime = timestamp();
        self.respond_at(req, datetime.as_str())
    }
}

impl ApiResult<RegisterUserOutput, RegisterUserError> {
    /// Answers the request `req`, handled at `datetime`, with this outcome.
    pub fn respond_at(self, req: &Request, datetime: &str) -> (response: Response)
        ensures
            response@ == match self.0 {
                Ok(output) => success_response(output.json_text()),
                Err(error) => failure_response(error.failure(), req.uri@, datetime@),
            },
    {
        match self.0 {
            Ok(output) => respond_success(output.to_json()),
            Err(error) => respond_failure(error.into_failure(), req, datetime),
        }
    }

    /// Answers the request `req` with this outcome. A failure is stamped with
    /// the local time of the call.
    pub fn respond_to(self, req: &Request) -> (response: Response)
        ensures
            match self.0 {
                Ok(output) => response@ == success_response(output.json_text()),
                Err(error) => exists|datetime: Seq<char>|
                    is_stamp(datetime) && response@ == #[trigger] failure_response(
                        error.failure(),
                        req.uri@,
                        datetime,
                    ),
            },
    {
        let datetime = timestamp();
        self.respond_at(req, datetime.as_str())
    }
}

impl ApiResult<LoginUserOutput, LoginUserError> {
    /// Answers the request `req`, handled at `datetime`, with this outcome.
    pub fn respond_at(self, req: &Request, datetime: &str) -> (response: Response)
        ensures
            response@ == match self.0 {
                Ok(output) => success_response(output.json_text()),
                Err(error) => failure_response(error.failure(), req.uri@, datetime@),
            },
    {
        match self.0 {
            Ok(output) => respond_success(output.to_json()),
            Err(error) => respond_failure(error.into_failure(), req, datetime),
        }
    }

    /// Answers the request `req` with this outcome. A failure is stamped with
    /// the local time of the call.
    pub fn respond_to(self, req: &Request) -> (response: Response)
        ensures
            match self.0 {
                Ok(output) => response@ == success_response(output.json_text()),
                Err(error) => exists|datetime: Seq<char>|
                    is_stamp(datetime) && response@ == #[trigger] failure_response(
                        error.failure(),
                        req.uri@,
                        datetime,
                    ),
            },
    {
        let datetime = timestamp();
        self.respond_at(req, datetime.as_str())
    }
}

impl ApiResult<UpdateUserOutput, UpdateUserError> {
    /// Answers the request `req`, handled at `datetime`, with this outcome.
    pub fn respond_at(self, req: &Request, datetime: &str) -> (response: Response)
        ensures
            response@ == match self.0 {
                Ok(output) => success_response(output.json_text()),
                Err(error) => failure_response(error.failure(), req.uri@, datetime@),
            },
    {
        match self.0 {
            Ok(output) => respond_success(output.to_json()),
            Err(error) => respond_failure(error.into_failure(), req, datetime),
        }
    }

    /// Answers the request `req` with this outcome. A failure is stamped with
    /// the local time of the call.
    pub fn respond_to(self, req: &Request) -> (response: Response)
        ensures
            match self.0 {
                Ok(output) => response@ == success_response(output.json_text()),
                Err(error) => exists|datetime: Seq<char>|
                    is_stamp(datetime) && response@ == #[trigger] failure_response(
                        error.failure(),
                        req.uri@,
                        datetime,
                    ),
            },
    {
        let datetime = timestamp();
        self.respond_at(req, datetime.as_str())
    }
}

} // verus!
