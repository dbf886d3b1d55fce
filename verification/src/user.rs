//! A connected user.

use vstd::prelude::*;

verus! {

/// A user of the room: the identity of the connection, the name it claimed
/// and the time at which it joined.
#[derive(Debug, Clone, PartialEq, Eq)]
pub struct User {
    pub id: u128,
    pub username: String,
    pub join_time: u64,
}

/// A user as a mathematical value.
pub struct UserView {
    pub id: u128,
    pub username: Seq<char>,
    pub join_time: u64,
}

impl View for User {
    type V = UserView;

    open spec fn view(&self) -> UserView {
        UserView { id: self.id, username: self.username@, join_time: self.join_time }
    }
}

/// Why a name could not be claimed.
#[derive(Debug, Clone, Copy, PartialEq, Eq, Structural)]
pub enum JoinError {
    /// Nothing is left of the name once whitespace is trimmed.
    EmptyName,
    /// A connected user already holds the name.
    NameTaken,
}

/// The text shown to a client whose name is blank.
pub open spec fn empty_name_text() -> Seq<char> {
    "username required"@
}

/// The text shown to a client whose name is already in use.
pub open spec fn name_taken_text() -> Seq<char> {
    "name already taken"@
}

impl JoinError {
    /// The text shown to the client for this error.
    pub open spec fn text(self) -> Seq<char> {
        match self {
            JoinError::EmptyName => empty_name_text(),
            JoinError::NameTaken => name_taken_text(),
        }
    }

    /// The text shown to the client for this error.
    pub fn message(&self) -> (s: String)
        ensures
            s@ == self.text(),
    {
        match self {
            JoinError::EmptyName => String::from_str("username required"),
            JoinError::NameTaken => String::from_str("name already taken"),
        }
    }
}

} // verus!
