//! The request and response payloads of the user endpoints.

use vstd::prelude::*;
use vstd::string::*;
use crate::errors::{LoginUserError, RegisterUserError, UpdateUserError};
use crate::status::Status;
use crate::user::User;

verus! {

/// What a client sends to register.
#[derive(Debug, PartialEq, Eq)]
pub struct RegisterUserInput {
    pub username: String,
    pub email: String,
    pub password: String,
}

/// What a client sends to log in.
#[derive(Debug, PartialEq, Eq)]
pub struct LoginUserInput {
    pub email: String,
    pub password: String,
}

/// What a client sends to update its profile.
#[derive(Debug, PartialEq, Eq)]
pub struct UpdateUserInput {
    pub username: String,
    pub email: String,
    pub password: String,
    pub bio: String,
    pub image: String,
}

/// What fetching the current user answers.
#[derive(Debug, PartialEq, Eq)]
pub struct CurrentUserOutput {
    pub user: User,
}

/// What registering answers.
#[derive(Debug, PartialEq, Eq)]
pub struct RegisterUserOutput {
    pub user: User,
}

/// What logging in answers.
#[derive(Debug, PartialEq, Eq)]
pub struct LoginUserOutput {
    pub user: User,
}

/// What updating the profile answers.
#[derive(Debug, PartialEq, Eq)]
pub struct UpdateUserOutput {
    pub user: User,
}

impl RegisterUserInput {
    /// Turns the outcome of decoding a request body into the outcome that
    /// the transport is given: the decoded input as it is, or status 422 with
    /// the decoder's diagnostic as invalid input.
    pub fn from_data(decoded: Result<RegisterUserInput, String>) -> (outcome: Result<
        RegisterUserInput,
        (Status, RegisterUserError),
    >)
        ensures
            outcome == match decoded {
                Ok(input) => Ok::<RegisterUserInput, (Status, RegisterUserError)>(input),
                Err(diagnostic) => Err(
                    (Status::UnprocessableEntity, RegisterUserError::InvalidInput(diagnostic)),
                ),
            },
            outcome matches Err(refusal) ==> refusal.0.code_value() == 422,
    {
        match decoded {
            Ok(input) => Ok(input),
            Err(diagnostic) => Err(
                (Status::UnprocessableEntity, RegisterUserError::InvalidInput(diagnostic)),
            ),
        }
    }
}

impl LoginUserInput {
    /// Turns the outcome of decoding a request body into the outcome that
    /// the transport is given: the decoded input as it is, or status 422 with
    /// the decoder's diagnostic as invalid input.
    pub fn from_data(decoded: Result<LoginUserInput, String>) -> (outcome: Result<
        LoginUserInput,
        (Status, LoginUserError),
    >)
        ensures
            outcome == match decoded {
                Ok(input) => Ok::<LoginUserInput, (Status, LoginUserError)>(input),
                Err(diagnostic) => Err(
                    (Status::UnprocessableEntity, LoginUserError::InvalidInput(diagnostic)),
                ),
            },
            outcome matches Err(refusal) ==> refusal.0.code_value() == 422,
    {
        match decoded {
            Ok(input) => Ok(input),
            Err(diagnostic) => Err(
                (Status::UnprocessableEntity, LoginUserError::InvalidInput(diagnostic)),
            ),
        }
    }
}

impl UpdateUserInput {
    /// Turns the outcome of decoding a request body into the outcome that
    /// the transport is given: the decoded input as it is, or status 422 with
    /// the decoder's diagnostic as invalid input.
    pub fn from_data(decoded: Result<UpdateUserInput, String>) -> (outcome: Result<
        UpdateUserInput,
        (Status, UpdateUserError),
    >)
        ensures
            outcome == match decoded {
                Ok(input) => Ok::<UpdateUserInput, (Status, UpdateUserError)>(input),
                Err(diagnostic) => Err(
                    (Status::UnprocessableEntity, UpdateUserError::InvalidInput(diagnostic)),
                ),
            },
            outcome matches Err(refusal) ==> refusal.0.code_value() == 422,
    {
        match decoded {
            Ok(input) => Ok(input),
            Err(diagnostic) => Err(
                (Status::UnprocessableEntity, UpdateUserError::InvalidInput(diagnostic)),
            ),
        }
    }
}

/// The JSON object of an output, given the JSON text of its user.
pub open spec fn output_frame(user: Seq<char>) -> Seq<char> {
    "{\"user\":"@ + user + "}"@
}

/// Writes the JSON object of an output from the JSON text of its user.
pub fn frame_output(user: &str) -> (text: String)
    ensures
        text@ == output_frame(user@),
{
    let mut text = String::from_str("{\"user\":");
    text.append(user);
    text.append("}");
    text
}

impl CurrentUserOutput {
    /// The JSON text of the output.
    pub open spec fn json_text(&self) -> Seq<char> {
        output_frame(self.user@.json_text())
    }

    /// Serializes the output as a JSON object.
    pub fn to_json(&self) -> (text: String)
        ensures
            text@ == self.json_text(),
    {
        let user = self.user.to_json();
        frame_output(user.as_str())
    }
}

impl RegisterUserOutput {
    /// The JSON text of the output.
    pub open spec fn json_text(&self) -> Seq<char> {
        output_frame(self.user@.json_text())
    }

    /// Serializes the output as a JSON object.
    pub fn to_json(&self) -> (text: String)
        ensures
            text@ == self.json_text(),
    {
        let user = self.user.to_json();
        frame_output(user.as_str())
    }
}

impl LoginUserOutput {
    /// The JSON text of the output.
    pub open spec fn json_text(&self) -> Seq<char> {
        output_frame(self.user@.json_text())
    }

    /// Serializes the output as a JSON object.
    pub fn to_json(&self) -> (text: String)
        ensures
            text@ == self.json_text(),
    {
        let user = self.user.to_json();
        frame_output(user.as_str())
    }
}

impl UpdateUserOutput {
    /// The JSON text of the output.
    pub open spec fn json_text(&self) -> Seq<char> {
        output_frame(self.user@.json_text())
    }

    /// Serializes the output as a JSON object.
    pub fn to_json(&self) -> (text: String)
        ensures
            text@ == self.json_text(),
    {
        let user = self.user.to_json();
        frame_output(user.as_str())
    }
}

} // verus!
