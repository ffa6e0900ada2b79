//! The row of the `users` table, apart from the domain's user.

use vstd::prelude::*;

verus! {

/// A row of the `users` table, keyed by `id`. The email stands in it once.
#[derive(Debug, PartialEq, Eq)]
pub struct QueryUser {
    pub id: u64,
    pub email: String,
    pub password: String,
    pub bio: String,
    pub image: String,
    pub token: String,
    pub created_at: u64,
    pub updated_at: u64,
}

/// The mathematical value of a [`QueryUser`].
pub struct QueryUserView {
    pub id: u64,
    pub email: Seq<char>,
    pub password: Seq<char>,
    pub bio: Seq<char>,
    pub image: Seq<char>,
    pub token: Seq<char>,
    pub created_at: u64,
    pub updated_at: u64,
}

impl View for QueryUser {
    type V = QueryUserView;

    open spec fn view(&self) -> QueryUserView {
        QueryUserView {
            id: self.id,
            email: self.email@,
            password: self.password@,
            bio: self.bio@,
            image: self.image@,
            token: self.token@,
            created_at: self.created_at,
            updated_at: self.updated_at,
        }
    }
}

} // verus!
