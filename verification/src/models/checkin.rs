//! Check-ins, the drug entries and notification outcome nested in them, and
//! panic events.

use crate::clock::{Stamped, Timestamp};
use crate::ids::{fresh_id, is_uuid_text};
use crate::text::{opt_text, texts};
use vstd::prelude::*;

verus! {

/// What is said of a check-in that carries no safety answer.
pub open spec fn no_safety_answer() -> Seq<char> {
    "Kein Safety-Check angegeben 🌱"@
}

/// What is said of a drug entry that names no route.
pub open spec fn no_route() -> Seq<char> {
    "n/a"@
}

/// Which automatic notifications a check-in set off, and whom they reached.
/// The two triggers are independent of each other.
#[derive(Clone, Debug, PartialEq, Eq)]
pub struct AutoNotifications {
    pub mood_threshold_triggered: bool,
    pub panic_triggered: bool,
    pub notified_contacts: Vec<String>,
}

pub struct AutoNotificationsView {
    pub mood_threshold_triggered: bool,
    pub panic_triggered: bool,
    pub notified_contacts: Seq<Seq<char>>,
}

impl View for AutoNotifications {
    type V = AutoNotificationsView;

    open spec fn view(&self) -> AutoNotificationsView {
        AutoNotificationsView {
            mood_threshold_triggered: self.mood_threshold_triggered,
            panic_triggered: self.panic_triggered,
            notified_contacts: texts(self.notified_contacts@),
        }
    }
}

impl AutoNotificationsView {
    /// No trigger fired and nobody was reached.
    pub open spec fn none() -> AutoNotificationsView {
        AutoNotificationsView {
            mood_threshold_triggered: false,
            panic_triggered: false,
            notified_contacts: Seq::empty(),
        }
    }
}

impl Default for AutoNotifications {
    fn default() -> (r: AutoNotifications)
        ensures
            r@ == AutoNotificationsView::none(),
    {
        let r = AutoNotifications {
            mood_threshold_triggered: false,
            panic_triggered: false,
            notified_contacts: Vec::new(),
        };
        assert(texts(r.notified_contacts@) =~= Seq::empty());
        r
    }
}

/// One substance taken, as part of a check-in.
#[derive(Clone, Debug, PartialEq, Eq)]
pub struct DrugEntry {
    pub substance: String,
    pub dose: String,
    pub route: Option<String>,
    pub start_time: Option<Timestamp>,
    pub notes: Option<String>,
}

pub struct DrugEntryView {
    pub substance: Seq<char>,
    pub dose: Seq<char>,
    pub route: Option<Seq<char>>,
    pub start_time: Option<Timestamp>,
    pub notes: Option<Seq<char>>,
}

impl View for DrugEntry {
    type V = DrugEntryView;

    open spec fn view(&self) -> DrugEntryView {
        DrugEntryView {
            substance: self.substance@,
            dose: self.dose@,
            route: opt_text(self.route),
            start_time: self.start_time,
            notes: opt_text(self.notes),
        }
    }
}

impl DrugEntry {
    /// The route, or `n/a` where none was given.
    pub fn route_text(&self) -> (r: &str)
        ensures
            r@ == match self@.route {
                Some(t) => t,
                None => no_route(),
            },
    {
        match &self.route {
            Some(s) => s.as_str(),
            None => "n/a",
        }
    }

    pub fn notes_text(&self) -> (r: Option<&str>)
        ensures
            r.deep_view() == self@.notes,
    {
        match &self.notes {
            Some(s) => Some(s.as_str()),
            None => None,
        }
    }

    pub fn has_notes(&self) -> (r: bool)
        ensures
            r == self@.notes.is_some(),
    {
        self.notes.is_some()
    }

    /// The notes, or the empty text where there are none.
    pub fn notes_display(&self) -> (r: &str)
        ensures
            r@ == match self@.notes {
                Some(t) => t,
                None => Seq::<char>::empty(),
            },
    {
        match &self.notes {
            Some(s) => s.as_str(),
            None => {
                proof {
                    reveal_strlit("");
                }
                assert(""@ =~= Seq::<char>::empty());
                ""
            },
        }
    }
}

/// The views of a sequence of drug entries.
pub open spec fn drug_views(v: Seq<DrugEntry>) -> Seq<DrugEntryView> {
    Seq::new(v.len(), |i: int| v[i]@)
}

/// One mood check-in of one tenant. Written once, never changed.
#[derive(Clone, Debug, PartialEq, Eq)]
pub struct Checkin {
    pub id: String,
    pub user_uuid: String,
    pub timestamp: Timestamp,
    pub mood: i32,
    pub high_level: i32,
    pub safety_answer: Option<String>,
    pub feels_safe: bool,
    pub notes: Option<String>,
    pub drugs: Vec<DrugEntry>,
    pub auto_notifications: AutoNotifications,
    pub status_tags: Vec<String>,
}

pub struct CheckinView {
    pub id: Seq<char>,
    pub user_uuid: Seq<char>,
    pub timestamp: Timestamp,
    pub mood: int,
    pub high_level: int,
    pub safety_answer: Option<Seq<char>>,
    pub feels_safe: bool,
    pub notes: Option<Seq<char>>,
    pub drugs: Seq<DrugEntryView>,
    pub auto_notifications: AutoNotificationsView,
    pub status_tags: Seq<Seq<char>>,
}

impl View for Checkin {
    type V = CheckinView;

    open spec fn view(&self) -> CheckinView {
        CheckinView {
            id: self.id@,
            user_uuid: self.user_uuid@,
            timestamp: self.timestamp,
            mood: self.mood as int,
            high_level: self.high_level as int,
            safety_answer: opt_text(self.safety_answer),
            feels_safe: self.feels_safe,
            notes: opt_text(self.notes),
            drugs: drug_views(self.drugs@),
            auto_notifications: self.auto_notifications@,
            status_tags: texts(self.status_tags@),
        }
    }
}

impl CheckinView {
    /// A check-in as it is born: neutral mood, sober, safe, nothing attached.
    pub open spec fn blank(id: Seq<char>, user_uuid: Seq<char>, timestamp: Timestamp) -> CheckinView {
        CheckinView {
            id,
            user_uuid,
            timestamp,
            mood: 0,
            high_level: 0,
            safety_answer: None,
            feels_safe: true,
            notes: None,
            drugs: Seq::empty(),
            auto_notifications: AutoNotificationsView::none(),
            status_tags: Seq::empty(),
        }
    }

    /// Mood lies in -5..=5 and intensity in 0..=10.
    pub open spec fn in_range(self) -> bool {
        -5 <= self.mood <= 5 && 0 <= self.high_level <= 10
    }
}

impl Stamped for Checkin {
    open spec fn stamp(&self) -> Timestamp {
        self.timestamp
    }

    fn stamped_at(&self) -> (t: Timestamp) {
        self.timestamp
    }
}

impl Checkin {
    /// A blank check-in of `user_uuid` with the given identifier and instant.
    pub fn with_identity(id: String, user_uuid: &str, timestamp: Timestamp) -> (r: Checkin)
        ensures
            r@ == CheckinView::blank(id@, user_uuid@, timestamp),
            r@.in_range(),
    {
        let r = Checkin {
            id,
            user_uuid: user_uuid.to_owned(),
            timestamp,
            mood: 0,
            high_level: 0,
            safety_answer: None,
            feels_safe: true,
            notes: None,
            drugs: Vec::new(),
            auto_notifications: AutoNotifications::default(),
            status_tags: Vec::new(),
        };
        assert(drug_views(r.drugs@) =~= Seq::empty());
        assert(texts(r.status_tags@) =~= Seq::empty());
        r
    }

    /// A blank check-in of `user_uuid` with a fresh identifier, stamped with
    /// the current instant. Identifier and instant are whatever the random
    /// source and the clock gave; the rest is fixed.
    pub fn new(user_uuid: &str) -> (r: Checkin)
        ensures
            r@ == CheckinView::blank(r@.id, user_uuid@, r@.timestamp),
            is_uuid_text(r@.id),
            r@.in_range(),
    {
        let id = fresh_id();
        let now = Timestamp::now();
        Checkin::with_identity(id, user_uuid, now)
    }

    /// The safety answer, or a fixed remark where none was given.
    pub fn safety_answer_text(&self) -> (r: &str)
        ensures
            r@ == match self@.safety_answer {
                Some(t) => t,
                None => no_safety_answer(),
            },
    {
        match &self.safety_answer {
            Some(s) => s.as_str(),
            None => "Kein Safety-Check angegeben 🌱",
        }
    }

    pub fn notes_text(&self) -> (r: Option<&str>)
        ensures
            r.deep_view() == self@.notes,
    {
        match &self.notes {
            Some(s) => Some(s.as_str()),
            None => None,
        }
    }

    pub fn has_notes(&self) -> (r: bool)
        ensures
            r == self@.notes.is_some(),
    {
        self.notes.is_some()
    }

    /// The notes, or the empty text where there are none.
    pub fn notes_display(&self) -> (r: &str)
        ensures
            r@ == match self@.notes {
                Some(t) => t,
                None => Seq::<char>::empty(),
            },
    {
        match &self.notes {
            Some(s) => s.as_str(),
            None => {
                proof {
                    reveal_strlit("");
                }
                assert(""@ =~= Seq::<char>::empty());
                ""
            },
        }
    }
}

/// A call for help, logged for all tenants in one place.
#[derive(Clone, Debug, PartialEq, Eq)]
pub struct PanicEvent {
    pub id: String,
    pub user_uuid: String,
    pub timestamp: Timestamp,
    pub mood_at_panic: Option<i32>,
    pub high_level_at_panic: Option<i32>,
    pub notified_contacts: Vec<String>,
}

pub struct PanicEventView {
    pub id: Seq<char>,
    pub user_uuid: Seq<char>,
    pub timestamp: Timestamp,
    pub mood_at_panic: Option<i32>,
    pub high_level_at_panic: Option<i32>,
    pub notified_contacts: Seq<Seq<char>>,
}

impl View for PanicEvent {
    type V = PanicEventView;

    open spec fn view(&self) -> PanicEventView {
        PanicEventView {
            id: self.id@,
            user_uuid: self.user_uuid@,
            timestamp: self.timestamp,
            mood_at_panic: self.mood_at_panic,
            high_level_at_panic: self.high_level_at_panic,
            notified_contacts: texts(self.notified_contacts@),
        }
    }
}

impl Stamped for PanicEvent {
    open spec fn stamp(&self) -> Timestamp {
        self.timestamp
    }

    fn stamped_at(&self) -> (t: Timestamp) {
        self.timestamp
    }
}

} // verus!
