//! The administrator's pages.

use crate::clock::Timestamp;
use crate::models::checkin::PanicEvent;
use crate::models::settings::{GlobalConfig, GlobalConfigView};
use crate::text::{decimal, decimal_of, same_text};
use vstd::prelude::*;

verus! {

/// How many panic events the dashboard shows.
pub const DASHBOARD_EVENTS: usize = 5;

/// Whether `role` names a role: `user` or `admin`.
pub open spec fn is_role(role: Seq<char>) -> bool {
    role == "user"@ || role == "admin"@
}

/// Whether `role` names a role.
pub fn is_role_name(role: &str) -> (r: bool)
    ensures
        r == is_role(role@),
{
    same_text(role, "user") || same_text(role, "admin")
}

/// The mood of a panic event as the dashboard shows it: `?` where none is
/// known.
pub open spec fn panic_mood_of(event: PanicEvent) -> Seq<char> {
    match event.mood_at_panic {
        Some(m) => decimal_of(m as int),
        None => "?"@,
    }
}

/// The mood of a panic event as the dashboard shows it.
pub fn panic_mood_text(event: &PanicEvent) -> (r: String)
    ensures
        r@ == panic_mood_of(*event),
{
    match event.mood_at_panic {
        Some(m) => decimal(m),
        None => "?".to_owned(),
    }
}

/// The events that the dashboard shows: the first five of the listing.
pub fn dashboard_events(events: Vec<PanicEvent>) -> (r: Vec<PanicEvent>)
    ensures
        r@ == if events@.len() <= DASHBOARD_EVENTS {
            events@
        } else {
            events@.subrange(0, DASHBOARD_EVENTS as int)
        },
{
    let mut shown = events;
    shown.truncate(DASHBOARD_EVENTS);
    shown
}

/// An instant as the pages show it: what a clock in the machine's time zone
/// reads, day first and to the minute. Which zone that is depends on the
/// machine. An instant that cannot be shown gives the empty text.
pub fn format_timestamp(ts: Timestamp) -> (r: String)
    ensures
        crate::clock::is_shown_locally(ts, crate::clock::day_first_pattern(), r@),
{
    match ts.format_local("%d.%m.%Y %H:%M") {
        Some(text) => text,
        None => String::new(),
    }
}

/// What `format_datetime` makes of a stored time, given the instant read
/// from it and that instant's text: the text where there is one, the stored
/// time itself otherwise.
pub fn pick_datetime_text(raw: String, shown: Option<String>) -> (r: String)
    ensures
        r == match shown {
            Some(text) => text,
            None => raw,
        },
{
    match shown {
        Some(text) => text,
        None => raw,
    }
}

/// What is shown of a stored time that names the instant `at`, in a zone
/// `offset` seconds east of UTC: what a clock there reads, day first and to
/// the minute, or the stored time itself where there is no such text.
pub open spec fn datetime_text_at(raw: Seq<char>, at: Timestamp, offset: int) -> Seq<char> {
    match crate::clock::text_at_offset(at, offset, crate::clock::day_first_pattern()) {
        Some(text) => text,
        None => raw,
    }
}

/// A stored time as the pages show it. An RFC 3339 time is written as a
/// clock in the machine's time zone reads its instant, day first and to the
/// minute, or stays as it is where that instant cannot be shown; anything
/// else stays as it is. Which zone it is depends on the machine.
pub fn format_datetime(raw: String) -> (r: String)
    ensures
        crate::clock::rfc3339_instant(raw@) is None ==> r == raw,
        crate::clock::rfc3339_instant(raw@) matches Some(at) ==> exists|offset: int|
            crate::clock::is_zone_offset(offset) && r@ == #[trigger] datetime_text_at(
                raw@,
                Timestamp { secs: at.0 as i64, nanos: at.1 as u32 },
                offset,
            ),
{
    match Timestamp::parse_rfc3339(raw.as_str()) {
        Some(ts) => {
            let shown = ts.format_local("%d.%m.%Y %H:%M");
            assert(crate::clock::is_datable(ts.secs as int, ts.nanos as int));
            assert(crate::clock::is_local_text(
                ts,
                crate::clock::day_first_pattern(),
                shown.deep_view(),
            ));
            let ghost offset = choose|offset: int|
                crate::clock::is_zone_offset(offset) && shown.deep_view()
                    == #[trigger] crate::clock::text_at_offset(
                    ts,
                    offset,
                    crate::clock::day_first_pattern(),
                );
            let ghost before = raw@;
            let r = pick_datetime_text(raw, shown);
            proof {
                let at = crate::clock::rfc3339_instant(before)->Some_0;
                assert(ts == (Timestamp { secs: at.0 as i64, nanos: at.1 as u32 }));
                assert(r@ == datetime_text_at(
                    before,
                    Timestamp { secs: at.0 as i64, nanos: at.1 as u32 },
                    offset,
                ));
            }
            r
        },
        None => raw,
    }
}

/// One line of the dashboard's list of panic events.
#[derive(Clone, Debug, PartialEq, Eq)]
pub struct PanicEventSummary {
    pub when: String,
    pub username: String,
    pub mood_text: String,
}

/// The line for a panic event whose instant is written as `when`. The
/// tenant goes by its identifier.
pub fn panic_summary_with(event: &PanicEvent, when: String) -> (r: PanicEventSummary)
    ensures
        r.when == when,
        r.username@ == event.user_uuid@,
        r.mood_text@ == panic_mood_of(*event),
{
    PanicEventSummary { when, username: event.user_uuid.clone(), mood_text: panic_mood_text(event) }
}

/// The line for a panic event. Its instant is written in the machine's time
/// zone; the rest is determined by the event.
pub fn panic_summary(event: &PanicEvent) -> (r: PanicEventSummary)
    ensures
        r.username@ == event.user_uuid@,
        r.mood_text@ == panic_mood_of(*event),
{
    panic_summary_with(event, format_timestamp(event.timestamp))
}

/// A submitted form of global settings, as it came in.
#[derive(Clone, Debug, PartialEq, Eq)]
pub struct GlobalSettingsForm {
    pub default_low_mood_threshold: i32,
    pub default_auto_notify_on_low_mood: Option<String>,
    pub low_mood_message_template: String,
    pub panic_message_template: String,
}

/// The global configuration that a form asks for: every field is taken from
/// the form, a box that was ticked counting as yes.
pub fn apply_global_settings(form: GlobalSettingsForm) -> (r: GlobalConfig)
    ensures
        r@ == (GlobalConfigView {
            default_low_mood_threshold: form.default_low_mood_threshold as int,
            default_auto_notify_on_low_mood: form.default_auto_notify_on_low_mood is Some,
            low_mood_message_template: form.low_mood_message_template@,
            panic_message_template: form.panic_message_template@,
        }),
{
    GlobalConfig {
        default_low_mood_threshold: form.default_low_mood_threshold,
        default_auto_notify_on_low_mood: form.default_auto_notify_on_low_mood.is_some(),
        low_mood_message_template: form.low_mood_message_template,
        panic_message_template: form.panic_message_template,
    }
}

/// The message of the commit made by hand from the system page.
pub fn manual_commit_message() -> (r: &'static str)
    ensures
        r@ == "chore: manueller Commit aus Admin-Panel 💾"@,
{
    "chore: manueller Commit aus Admin-Panel 💾"
}

/// The message of the commit that records changed global settings.
pub fn global_settings_commit_message() -> (r: &'static str)
    ensures
        r@ == "chore: globale Einstellungen aktualisiert ✨"@,
{
    "chore: globale Einstellungen aktualisiert ✨"
}

} // verus!
