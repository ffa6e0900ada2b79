//! The decision of the login endpoint.

use vstd::prelude::*;
use crate::errors::{ErrorDetailsView, ErrorWrapperView, LoginUserError};
use crate::payloads::{LoginUserInput, LoginUserOutput};
use crate::repo::{found_view, RepoError, UserRepo};
use crate::user::User;

verus! {

/// What a login attempt comes to, given what the repository answered for
/// the email and whether the password matched the user found there.
///
/// A storage fault passes its text on. An unknown email and a password that
/// does not match are both invalid credentials. Only a known email with a
/// matching password logs in, and the output is the user found.
pub open spec fn login_result(
    lookup: Result<Option<User>, RepoError>,
    password_matches: bool,
) -> Result<LoginUserOutput, LoginUserError> {
    match lookup {
        Err(fault) => Err(LoginUserError::RepoError(fault.message)),
        Ok(None) => Err(LoginUserError::InvalidCredentials),
        Ok(Some(user)) => if password_matches {
            Ok(LoginUserOutput { user })
        } else {
            Err(LoginUserError::InvalidCredentials)
        },
    }
}

/// Decides a login attempt from the repository's answer for the email and
/// from whether the password matched. `password_matches` is read only when
/// a user was found.
pub fn login_outcome(lookup: Result<Option<User>, RepoError>, password_matches: bool) -> (outcome:
    Result<LoginUserOutput, LoginUserError>)
    ensures
        outcome == login_result(lookup, password_matches),
{
    match lookup {
        Err(fault) => Err(LoginUserError::RepoError(fault.message)),
        Ok(None) => Err(LoginUserError::InvalidCredentials),
        Ok(Some(user)) => {
            if password_matches {
                Ok(LoginUserOutput { user })
            } else {
                Err(LoginUserError::InvalidCredentials)
            }
        },
    }
}

/// Logs in: asks the repository for the user with the input's email and
/// decides on what comes back. Whether the repository answers or reports a
/// fault is its own matter; the outcome is the decision on whatever came
/// back, and an answer is one that the repository admits for that email.
pub fn login<R: UserRepo>(repo: &R, input: LoginUserInput, password_matches: bool) -> (outcome:
    Result<LoginUserOutput, LoginUserError>)
    ensures
        exists|lookup: Result<Option<User>, RepoError>|
            {
                &&& lookup matches Ok(found) ==> repo.admits(input.email@, found_view(found))
                &&& outcome == #[trigger] login_result(lookup, password_matches)
            },
        match outcome {
            Ok(output) => password_matches && repo.admits(input.email@, Some(output.user@)),
            Err(LoginUserError::InvalidCredentials) => !password_matches || repo.admits(
                input.email@,
                None,
            ),
            Err(LoginUserError::RepoError(_)) => true,
            Err(LoginUserError::InvalidInput(_)) => false,
        },
{
    let lookup = repo.find_user_by_email(input.email);
    login_outcome(lookup, password_matches)
}

/// A login with an unknown email, or with a password that does not match,
/// is refused as invalid credentials, and the envelope that reports it
/// carries the short code `invalid_credentials` and the type name that
/// invalid input has too.
pub proof fn lemma_refused_login_is_invalid_credentials(
    lookup: Result<Option<User>, RepoError>,
    password_matches: bool,
    url: Seq<char>,
    datetime: Seq<char>,
)
    requires
        lookup matches Ok(found) && (found is None || !password_matches),
    ensures
        login_result(lookup, password_matches) == Err::<LoginUserOutput, LoginUserError>(
            LoginUserError::InvalidCredentials,
        ),
        ErrorWrapperView::report(LoginUserError::InvalidCredentials.failure(), datetime, url)
            == (ErrorWrapperView {
            error: ErrorDetailsView {
                status: 400,
                message: "Invalid credentials"@,
                message_shortcode: "invalid_credentials"@,
                datetime,
                url,
                error_type: "IncompleteOrInvalidParameterException"@,
            },
        }),
{
}

} // verus!
