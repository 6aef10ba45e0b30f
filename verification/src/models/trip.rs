//! Trips: a reserved, derived grouping of check-ins.

use crate::clock::Timestamp;
use crate::text::opt_text;
use vstd::prelude::*;

verus! {

#[derive(Clone, Debug, PartialEq, Eq)]
pub struct Trip {
    pub id: String,
    pub user_uuid: String,
    pub title: String,
    pub started_at: Timestamp,
    pub ended_at: Option<Timestamp>,
    pub notes: Option<String>,
}

pub struct TripView {
    pub id: Seq<char>,
    pub user_uuid: Seq<char>,
    pub title: Seq<char>,
    pub started_at: Timestamp,
    pub ended_at: Option<Timestamp>,
    pub notes: Option<Seq<char>>,
}

impl View for Trip {
    type V = TripView;

    open spec fn view(&self) -> TripView {
        TripView {
            id: self.id@,
            user_uuid: self.user_uuid@,
            title: self.title@,
            started_at: self.started_at,
            ended_at: self.ended_at,
            notes: opt_text(self.notes),
        }
    }
}

} // verus!
