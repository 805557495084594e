use vstd::prelude::*;

use crate::time::Timestamp;

verus! {

/// One entry of the todo list.
#[derive(Clone, Debug, PartialEq, Eq)]
pub struct Todo {
    pub id: i32,
    pub title: String,
    pub completed: bool,
}

/// An account: its id, its e-mail address and the bcrypt hash of its password.
#[derive(Clone, Debug, PartialEq, Eq)]
pub struct User {
    pub id: i32,
    pub email: String,
    pub password: String,
}

/// A login session: the account it belongs to, when it stops being valid,
/// and the token the client presents.
#[derive(Clone, Debug, PartialEq, Eq)]
pub struct Session {
    pub id: i32,
    pub user_id: i32,
    pub expires_at: Timestamp,
    pub token: String,
}

/// The one column that inserting a session hands back.
#[derive(Clone, Debug, PartialEq, Eq)]
pub struct SessionOnlyToken {
    pub token: String,
}

/// What the service tells a client about the account of a session:
/// its id and e-mail address, never the password hash.
#[derive(Clone, Debug, PartialEq, Eq)]
pub struct UserSummary {
    pub id: i32,
    pub email: String,
}

impl User {
    /// The public part of an account.
    pub fn summary(self) -> (res: UserSummary)
        ensures
            res == (UserSummary { id: self.id, email: self.email }),
    {
        UserSummary { id: self.id, email: self.email }
    }
}

} // verus!
