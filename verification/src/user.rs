//! The user record of the domain.

use vstd::prelude::*;
use vstd::string::*;
use crate::json::{json_string_text, quote};

verus! {

/// A user as the domain sees it. Every field is present; a fresh record has
/// all of them empty.
#[derive(Debug, PartialEq, Eq)]
pub struct User {
    pub username: String,
    pub email: String,
    pub token: String,
    pub bio: String,
    pub image: String,
}

/// The mathematical value of a [`User`]: its five texts.
pub struct UserView {
    pub username: Seq<char>,
    pub email: Seq<char>,
    pub token: Seq<char>,
    pub bio: Seq<char>,
    pub image: Seq<char>,
}

impl View for User {
    type V = UserView;

    open spec fn view(&self) -> UserView {
        UserView {
            username: self.username@,
            email: self.email@,
            token: self.token@,
            bio: self.bio@,
            image: self.image@,
        }
    }
}

/// The JSON object of a user, given the JSON text of each member in the
/// order in which the object lists them.
pub open spec fn user_frame(
    username: Seq<char>,
    email: Seq<char>,
    token: Seq<char>,
    bio: Seq<char>,
    image: Seq<char>,
) -> Seq<char> {
    "{\"username\":"@ + username + ",\"email\":"@ + email + ",\"token\":"@ + token
        + ",\"bio\":"@ + bio + ",\"image\":"@ + image + "}"@
}

/// Writes the JSON object of a user from the JSON text of each member.
pub fn frame_user(username: &str, email: &str, token: &str, bio: &str, image: &str) -> (text:
    String)
    ensures
        text@ == user_frame(username@, email@, token@, bio@, image@),
{
    let mut text = String::from_str("{\"username\":");
    text.append(username);
    text.append(",\"email\":");
    text.append(email);
    text.append(",\"token\":");
    text.append(token);
    text.append(",\"bio\":");
    text.append(bio);
    text.append(",\"image\":");
    text.append(image);
    text.append("}");
    text
}

impl UserView {
    /// The JSON text of the record.
    pub open spec fn json_text(self) -> Seq<char> {
        user_frame(
            json_string_text(self.username),
            json_string_text(self.email),
            json_string_text(self.token),
            json_string_text(self.bio),
            json_string_text(self.image),
        )
    }

    /// The record in which every field is the empty text.
    pub open spec fn empty() -> UserView {
        UserView {
            username: Seq::empty(),
            email: Seq::empty(),
            token: Seq::empty(),
            bio: Seq::empty(),
            image: Seq::empty(),
        }
    }
}

impl User {
    /// The zero value: a user whose fields are all empty.
    pub fn new() -> (user: User)
        ensures
            user@ == UserView::empty(),
    {
        User {
            username: String::new(),
            email: String::new(),
            token: String::new(),
            bio: String::new(),
            image: String::new(),
        }
    }

    /// Serializes the user as a JSON object.
    pub fn to_json(&self) -> (text: String)
        ensures
            text@ == self@.json_text(),
    {
        let username = quote(self.username.as_str());
        let email = quote(self.email.as_str());
        let token = quote(self.token.as_str());
        let bio = quote(self.bio.as_str());
        let image = quote(self.image.as_str());
        frame_user(
            username.as_str(),
            email.as_str(),
            token.as_str(),
            bio.as_str(),
            image.as_str(),
        )
    }
}

impl Clone for User {
    fn clone(&self) -> (copy: User)
        ensures
            copy@ == self@,
    {
        User {
            username: self.username.clone(),
            email: self.email.clone(),
            token: self.token.clone(),
            bio: self.bio.clone(),
            image: self.image.clone(),
        }
    }
}

} // verus!
