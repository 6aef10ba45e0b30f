//! Accounts and their roles.

use crate::clock::Timestamp;
use vstd::prelude::*;

verus! {

/// What an account may do.
#[derive(Clone, Copy, Debug, PartialEq, Eq, Structural)]
pub enum UserRole {
    User,
    Admin,
}

impl Default for UserRole {
    fn default() -> (r: UserRole)
        ensures
            r == UserRole::User,
    {
        UserRole::User
    }
}

impl UserRole {
    /// The name under which the role is stored.
    pub open spec fn name(self) -> Seq<char> {
        match self {
            UserRole::User => "user"@,
            UserRole::Admin => "admin"@,
        }
    }

    pub fn as_str(&self) -> (r: &'static str)
        ensures
            r@ == self.name(),
    {
        match self {
            UserRole::User => "user",
            UserRole::Admin => "admin",
        }
    }

    /// The role's name as an owned string.
    pub fn to_text(&self) -> (r: String)
        ensures
            r@ == self.name(),
    {
        self.as_str().to_owned()
    }
}

/// An account as the account store holds it.
#[derive(Clone, Debug, PartialEq, Eq)]
pub struct User {
    pub id: i64,
    pub uuid: String,
    pub username: String,
    pub email: String,
    pub password_hash: String,
    pub role: String,
    pub created_at: Timestamp,
    pub last_login_at: Option<Timestamp>,
}

pub struct UserView {
    pub id: int,
    pub uuid: Seq<char>,
    pub username: Seq<char>,
    pub email: Seq<char>,
    pub password_hash: Seq<char>,
    pub role: Seq<char>,
    pub created_at: Timestamp,
    pub last_login_at: Option<Timestamp>,
}

impl View for User {
    type V = UserView;

    open spec fn view(&self) -> UserView {
        UserView {
            id: self.id as int,
            uuid: self.uuid@,
            username: self.username@,
            email: self.email@,
            password_hash: self.password_hash@,
            role: self.role@,
            created_at: self.created_at,
            last_login_at: self.last_login_at,
        }
    }
}

} // verus!
