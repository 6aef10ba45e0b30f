//! Login sessions.

use crate::clock::Timestamp;
use vstd::prelude::*;

verus! {

/// A login session as the account store holds it.
#[derive(Clone, Debug, PartialEq, Eq)]
pub struct Session {
    pub id: String,
    pub user_id: i64,
    pub created_at: Timestamp,
    pub last_seen_at: Timestamp,
    pub expires_at: Option<Timestamp>,
}

pub struct SessionView {
    pub id: Seq<char>,
    pub user_id: int,
    pub created_at: Timestamp,
    pub last_seen_at: Timestamp,
    pub expires_at: Option<Timestamp>,
}

impl View for Session {
    type V = SessionView;

    open spec fn view(&self) -> SessionView {
        SessionView {
            id: self.id@,
            user_id: self.user_id as int,
            created_at: self.created_at,
            last_seen_at: self.last_seen_at,
            expires_at: self.expires_at,
        }
    }
}

} // verus!
