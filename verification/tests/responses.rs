use realworld_api::errors::{
    CurrentUserError, LoginUserError, RegisterUserError, UpdateUserError,
};
use realworld_api::payloads::{
    CurrentUserOutput, LoginUserOutput, RegisterUserOutput, UpdateUserOutput,
};
use realworld_api::response::{respond_failure, respond_success, ApiResult, Request, Response};
use realworld_api::errors::{ErrorKind, Failure};
use realworld_api::status::Status;
use realworld_api::user::User;

const USER_JSON: &str = "{\"user\":{\"username\":\"jake\",\"email\":\"jake@jake.jake\",\"token\":\"jwt.token.here\",\"bio\":\"\",\"image\":\"\"}}";

fn jake() -> User {
    User {
        username: String::from("jake"),
        email: String::from("jake@jake.jake"),
        token: String::from("jwt.token.here"),
        bio: String::new(),
        image: String::new(),
    }
}

fn request(uri: &str) -> Request {
    Request { uri: String::from(uri) }
}

fn envelope(message: &str, shortcode: &str, datetime: &str, url: &str, error_type: &str) -> String {
    format!(
        "{{\"error\":{{\"status\":400,\"message\":\"{}\",\"message_shortcode\":\"{}\",\"datetime\":\"{}\",\"url\":\"{}\",\"error_type\":\"{}\"}}}}",
        message, shortcode, datetime, url, error_type
    )
}

fn assert_stamped_envelope(response: &Response, message: &str, shortcode: &str, url: &str, error_type: &str) {
    assert_eq!(response.status, Status::BadRequest);
    let parsed: serde_json::Value = serde_json::from_str(&response.body).unwrap();
    let error = parsed["error"].as_object().unwrap();
    assert_eq!(error.len(), 6);
    assert_eq!(error["status"].as_u64(), Some(400));
    assert_eq!(error["message"].as_str(), Some(message));
    assert_eq!(error["message_shortcode"].as_str(), Some(shortcode));
    assert_eq!(error["url"].as_str(), Some(url));
    assert_eq!(error["error_type"].as_str(), Some(error_type));
    let datetime = error["datetime"].as_str().unwrap();
    assert_eq!(datetime.len(), 14);
    assert!(datetime.chars().all(|c| c.is_ascii_digit()));
    assert_eq!(response.body, envelope(message, shortcode, datetime, url, error_type));
}

#[test]
fn status_codes_are_the_standard_ones() {
    assert_eq!(Status::Success.code(), 200);
    assert_eq!(Status::BadRequest.code(), 400);
    assert_eq!(Status::Unauthorized.code(), 401);
    assert_eq!(Status::Forbidden.code(), 403);
    assert_eq!(Status::NotFound.code(), 404);
    assert_eq!(Status::UnprocessableEntity.code(), 422);
    assert_eq!(Status::InternalServerError.code(), 500);
}

#[test]
fn outputs_serialize_the_user_under_user() {
    assert_eq!(CurrentUserOutput { user: jake() }.to_json(), USER_JSON);
    assert_eq!(RegisterUserOutput { user: jake() }.to_json(), USER_JSON);
    assert_eq!(LoginUserOutput { user: jake() }.to_json(), USER_JSON);
    assert_eq!(UpdateUserOutput { user: jake() }.to_json(), USER_JSON);
}

#[test]
fn respond_success_keeps_the_body_as_it_is() {
    let response = respond_success(String::from("{\"anything\":1}"));
    assert_eq!(response, Response { status: Status::Success, body: String::from("{\"anything\":1}") });
    assert_eq!(response.status.code(), 200);
}

#[test]
fn respond_failure_is_400_with_the_envelope() {
    let response = respond_failure(
        Failure { kind: ErrorKind::RepoError, message: String::from("db down") },
        &request("/api/users"),
        "20180314153000",
    );
    assert_eq!(response.status.code(), 400);
    assert_eq!(
        response.body,
        envelope("db down", "repo_error", "20180314153000", "/api/users", "RepoError")
    );
}

#[test]
fn current_user_success_is_200_with_bare_output() {
    let output = CurrentUserOutput { user: jake() };
    let expected = output.to_json();
    let response = ApiResult::<CurrentUserOutput, CurrentUserError>(Ok(output))
        .respond_at(&request("/api/users"), "20180314153000");
    assert_eq!(response.status, Status::Success);
    assert_eq!(response.status.code(), 200);
    assert_eq!(response.body, expected);
    assert_eq!(response.body, USER_JSON);
}

#[test]
fn register_success_is_200_with_bare_output() {
    let response = ApiResult::<RegisterUserOutput, RegisterUserError>(Ok(RegisterUserOutput {
        user: jake(),
    }))
    .respond_at(&request("/api/users/register"), "20180314153000");
    assert_eq!(response, Response { status: Status::Success, body: String::from(USER_JSON) });
}

#[test]
fn login_success_is_200_with_bare_output() {
    let response = ApiResult::<LoginUserOutput, LoginUserError>(Ok(LoginUserOutput { user: jake() }))
        .respond_at(&request("/api/users/login"), "20180314153000");
    assert_eq!(response, Response { status: Status::Success, body: String::from(USER_JSON) });
}

#[test]
fn update_success_is_200_with_bare_output() {
    let response = ApiResult::<UpdateUserOutput, UpdateUserError>(Ok(UpdateUserOutput { user: jake() }))
        .respond_at(&request("/api/users/update"), "20180314153000");
    assert_eq!(response, Response { status: Status::Success, body: String::from(USER_JSON) });
}

#[test]
fn success_body_has_no_envelope() {
    let response = ApiResult::<LoginUserOutput, LoginUserError>(Ok(LoginUserOutput { user: jake() }))
        .respond_to(&request("/api/users/login"));
    assert_eq!(response.status.code(), 200);
    let parsed: serde_json::Value = serde_json::from_str(&response.body).unwrap();
    assert!(parsed.get("error").is_none());
    assert_eq!(parsed["user"]["email"].as_str(), Some("jake@jake.jake"));
    assert_eq!(response.body, USER_JSON);
}

#[test]
fn current_user_failures_are_400_with_envelope() {
    let req = request("/api/users");
    let repo = ApiResult::<CurrentUserOutput, CurrentUserError>(Err(CurrentUserError::RepoError(
        String::from("db down"),
    )))
    .respond_at(&req, "20180314153000");
    assert_eq!(repo.status.code(), 400);
    assert_eq!(repo.body, envelope("db down", "repo_error", "20180314153000", "/api/users", "RepoError"));
    let input = ApiResult::<CurrentUserOutput, CurrentUserError>(Err(
        CurrentUserError::InvalidInput(String::from("bad")),
    ))
    .respond_at(&req, "20180314153001");
    assert_eq!(input.status.code(), 400);
    assert_eq!(
        input.body,
        envelope("bad", "invalid_input", "20180314153001", "/api/users", "IncompleteOrInvalidParameterException")
    );
}

#[test]
fn register_failures_are_400_with_envelope() {
    let req = request("/api/users/register");
    let repo = ApiResult::<RegisterUserOutput, RegisterUserError>(Err(
        RegisterUserError::RepoError(String::from("db down")),
    ))
    .respond_at(&req, "20180314153000");
    assert_eq!(repo.status, Status::BadRequest);
    assert_eq!(
        repo.body,
        envelope("db down", "repo_error", "20180314153000", "/api/users/register", "RepoError")
    );
    let input = ApiResult::<RegisterUserOutput, RegisterUserError>(Err(
        RegisterUserError::InvalidInput(String::from("bad")),
    ))
    .respond_at(&req, "20180314153000");
    assert_eq!(input.status, Status::BadRequest);
    assert_eq!(
        input.body,
        envelope("bad", "invalid_input", "20180314153000", "/api/users/register", "IncompleteOrInvalidParameterException")
    );
}

#[test]
fn login_failures_are_400_with_envelope() {
    let req = request("/api/users/login");
    let repo = ApiResult::<LoginUserOutput, LoginUserError>(Err(LoginUserError::RepoError(
        String::from("db down"),
    )))
    .respond_at(&req, "20180314153000");
    assert_eq!(repo.status, Status::BadRequest);
    assert_eq!(
        repo.body,
        envelope("db down", "repo_error", "20180314153000", "/api/users/login", "RepoError")
    );
    let input = ApiResult::<LoginUserOutput, LoginUserError>(Err(LoginUserError::InvalidInput(
        String::from("bad"),
    )))
    .respond_at(&req, "20180314153000");
    assert_eq!(input.status, Status::BadRequest);
    assert_eq!(
        input.body,
        envelope("bad", "invalid_input", "20180314153000", "/api/users/login", "IncompleteOrInvalidParameterException")
    );
    let credentials = ApiResult::<LoginUserOutput, LoginUserError>(Err(
        LoginUserError::InvalidCredentials,
    ))
    .respond_at(&req, "20180314153000");
    assert_eq!(credentials.status, Status::BadRequest);
    assert_eq!(
        credentials.body,
        envelope(
            "Invalid credentials",
            "invalid_credentials",
            "20180314153000",
            "/api/users/login",
            "IncompleteOrInvalidParameterException"
        )
    );
}

#[test]
fn update_failures_are_400_with_envelope() {
    let req = request("/api/users/update");
    let repo = ApiResult::<UpdateUserOutput, UpdateUserError>(Err(UpdateUserError::RepoError(
        String::from("db down"),
    )))
    .respond_at(&req, "20180314153000");
    assert_eq!(repo.status, Status::BadRequest);
    assert_eq!(
        repo.body,
        envelope("db down", "repo_error", "20180314153000", "/api/users/update", "RepoError")
    );
    let input = ApiResult::<UpdateUserOutput, UpdateUserError>(Err(UpdateUserError::InvalidInput(
        String::from("bad"),
    )))
    .respond_at(&req, "20180314153000");
    assert_eq!(input.status, Status::BadRequest);
    assert_eq!(
        input.body,
        envelope("bad", "invalid_input", "20180314153000", "/api/users/update", "IncompleteOrInvalidParameterException")
    );
}

#[test]
fn repo_fault_is_still_a_400() {
    let response = ApiResult::<UpdateUserOutput, UpdateUserError>(Err(UpdateUserError::RepoError(
        String::from("disk full"),
    )))
    .respond_to(&request("/api/users/update"));
    assert_eq!(response.status.code(), 400);
    assert_stamped_envelope(&response, "disk full", "repo_error", "/api/users/update", "RepoError");
}

#[test]
fn respond_to_stamps_the_local_time() {
    let before = chrono::Local::now().format("%Y%m%d%H%M%S").to_string();
    let response = ApiResult::<CurrentUserOutput, CurrentUserError>(Err(
        CurrentUserError::InvalidInput(String::from("bad")),
    ))
    .respond_to(&request("/api/users"));
    let after = chrono::Local::now().format("%Y%m%d%H%M%S").to_string();
    assert_stamped_envelope(
        &response,
        "bad",
        "invalid_input",
        "/api/users",
        "IncompleteOrInvalidParameterException",
    );
    let parsed: serde_json::Value = serde_json::from_str(&response.body).unwrap();
    let datetime = String::from(parsed["error"]["datetime"].as_str().unwrap());
    assert_ne!(datetime, "%Y%m%d%H%M%S");
    assert!(before <= datetime || after < before);
    assert!(datetime <= after || after < before);
}

#[test]
fn respond_to_answers_every_endpoint() {
    let register = ApiResult::<RegisterUserOutput, RegisterUserError>(Err(
        RegisterUserError::InvalidInput(String::from("bad")),
    ))
    .respond_to(&request("/api/users/register"));
    assert_stamped_envelope(
        &register,
        "bad",
        "invalid_input",
        "/api/users/register",
        "IncompleteOrInvalidParameterException",
    );
    let login = ApiResult::<LoginUserOutput, LoginUserError>(Err(LoginUserError::InvalidCredentials))
        .respond_to(&request("/api/users/login"));
    assert_stamped_envelope(
        &login,
        "Invalid credentials",
        "invalid_credentials",
        "/api/users/login",
        "IncompleteOrInvalidParameterException",
    );
    let current = ApiResult::<CurrentUserOutput, CurrentUserError>(Ok(CurrentUserOutput {
        user: jake(),
    }))
    .respond_to(&request("/api/users"));
    assert_eq!(current, Response { status: Status::Success, body: String::from(USER_JSON) });
    let update = ApiResult::<UpdateUserOutput, UpdateUserError>(Ok(UpdateUserOutput { user: jake() }))
        .respond_to(&request("/api/users/update"));
    assert_eq!(update, Response { status: Status::Success, body: String::from(USER_JSON) });
}
