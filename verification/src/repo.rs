//! The repository capability: finding a user by email, whatever stores it.

use vstd::prelude::*;
use crate::user::{User, UserView};

verus! {

/// A fault of the storage layer, with the text that describes it.
#[derive(Debug, PartialEq, Eq)]
pub struct RepoError {
    pub message: String,
}

/// The view of an optional user.
pub open spec fn found_view(found: Option<User>) -> Option<UserView> {
    match found {
        Some(user) => Some(user@),
        None => None,
    }
}

/// A store of users that can be asked for the user with a given email.
pub trait UserRepo {
    /// Whether `found` is an answer that the store may give when asked for
    /// `email`. A store that says nothing of its answers admits every one.
    open spec fn admits(&self, email: Seq<char>, found: Option<UserView>) -> bool {
        true
    }

    /// Finds the user with the given email. An email that the store does not
    /// hold is no failure: the answer is then `Ok(None)`. A failure reports a
    /// fault of the storage, never a missing user.
    fn find_user_by_email(&self, email: String) -> (found: Result<Option<User>, RepoError>)
        ensures
            found matches Ok(user) ==> self.admits(email@, found_view(user)),
    ;
}

/// The first of `rows` whose email is `email`.
pub open spec fn first_with_email(rows: Seq<UserView>, email: Seq<char>) -> Option<UserView>
    decreases rows.len(),
{
    if rows.len() == 0 {
        None
    } else if rows[0].email == email {
        Some(rows[0])
    } else {
        first_with_email(rows.drop_first(), email)
    }
}

/// A repository that keeps its users in memory.
#[derive(Debug)]
pub struct MemoryUserRepo {
    pub users: Vec<User>,
}

impl MemoryUserRepo {
    /// The rows of the repository, in the order in which it searches them.
    pub open spec fn rows(&self) -> Seq<UserView> {
        self.users@.map_values(|user: User| user@)
    }

    /// The repository finds nothing under `email` exactly when none of its
    /// users has that email.
    pub proof fn lemma_lookup_misses(&self, email: Seq<char>)
        ensures
            first_with_email(self.rows(), email) is None <==> forall|i: int|
                0 <= i < self.users.len() ==> (#[trigger] self.users[i]).email@ != email,
    {
        let rows = self.rows();
        lemma_first_with_email(rows, email);
        assert forall|i: int| 0 <= i < rows.len() implies #[trigger] rows[i] == self.users[i]@ by {}
        if first_with_email(rows, email) is None {
            assert forall|i: int| 0 <= i < self.users.len() implies (#[trigger] self.users[i])
                .email@ != email by {
                assert(rows[i].email != email);
            }
        } else {
            let user = first_with_email(rows, email)->0;
            let k = choose|i: int| 0 <= i < rows.len() && #[trigger] rows[i] == user;
            assert(self.users[k].email@ == email);
        }
    }

    /// A repository that holds `users`.
    pub fn new(users: Vec<User>) -> (repo: MemoryUserRepo)
        ensures
            repo.users == users,
    {
        MemoryUserRepo { users }
    }
}

impl UserRepo for MemoryUserRepo {
    /// The one answer of a repository in memory is the first of its rows
    /// with the email.
    open spec fn admits(&self, email: Seq<char>, found: Option<UserView>) -> bool {
        found == first_with_email(self.rows(), email)
    }

    /// Finds the first user with the given email. Memory has no faults, so
    /// the search never fails, and it finds nothing exactly when no user has
    /// the email.
    fn find_user_by_email(&self, email: String) -> (found: Result<Option<User>, RepoError>)
        ensures
            found is Ok,
            found matches Ok(None) <==> forall|i: int|
                0 <= i < self.users.len() ==> (#[trigger] self.users[i]).email@ != email@,
    {
        let mut i: usize = 0;
        assert(self.rows().skip(0) =~= self.rows());
        while i < self.users.len()
            invariant
                i <= self.users.len(),
                first_with_email(self.rows(), email@) == first_with_email(
                    self.rows().skip(i as int),
                    email@,
                ),
            decreases self.users.len() - i,
        {
            let ghost rest = self.rows().skip(i as int);
            assert(rest[0] == self.users[i as int]@);
            assert(rest.drop_first() =~= self.rows().skip(i + 1));
            if self.users[i].email == email {
                proof {
                    self.lemma_lookup_misses(email@);
                }
                return Ok(Some(self.users[i].clone()));
            }
            i += 1;
        }
        proof {
            self.lemma_lookup_misses(email@);
        }
        Ok(None)
    }
}

/// What [`first_with_email`] returns: nothing exactly when no row has the
/// email, and otherwise the earliest row that has it.
pub proof fn lemma_first_with_email(rows: Seq<UserView>, email: Seq<char>)
    ensures
        first_with_email(rows, email) is None <==> forall|i: int|
            0 <= i < rows.len() ==> (#[trigger] rows[i]).email != email,
        first_with_email(rows, email) matches Some(user) ==> user.email == email && exists|i: int|
            0 <= i < rows.len() && #[trigger] rows[i] == user && forall|j: int|
                0 <= j < i ==> (#[trigger] rows[j]).email != email,
    decreases rows.len(),
{
    if rows.len() == 0 {
    } else if rows[0].email == email {
        assert(rows[0] == first_with_email(rows, email)->0);
    } else {
        let rest = rows.drop_first();
        lemma_first_with_email(rest, email);
        assert forall|i: int| 0 <= i < rest.len() implies #[trigger] rest[i] == rows[i + 1] by {}
        assert forall|i: int| 0 < i < rows.len() implies #[trigger] rows[i] == rest[i - 1] by {}
        if first_with_email(rest, email) is Some {
            let user = first_with_email(rest, email)->0;
            let k = choose|i: int|
                0 <= i < rest.len() && #[trigger] rest[i] == user && forall|j: int|
                    0 <= j < i ==> (#[trigger] rest[j]).email != email;
            assert(rows[k + 1] == user);
            assert forall|j: int| 0 <= j < k + 1 implies (#[trigger] rows[j]).email != email by {
                if j > 0 {
                    assert(rest[j - 1].email != email);
                }
            }
        }
    }
}

} // verus!
