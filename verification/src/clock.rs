//! Instants on the UTC time line, held as plain numbers, and their rendering
//! as text through `chrono`.

use chrono::{DateTime, Local, NaiveDateTime, TimeZone, Utc};
use std::fmt::Write;
use vstd::prelude::*;

verus! {

/// An instant: whole seconds since 1970-01-01T00:00:00Z and the nanoseconds
/// into that second. Two instants are ordered by seconds first, then by
/// nanoseconds.
#[derive(Clone, Copy, Debug, PartialEq, Eq, Structural)]
pub struct Timestamp {
    pub secs: i64,
    pub nanos: u32,
}

/// The text that `chrono` gives for the UTC instant `(secs, nanos)` under the
/// strftime pattern `pattern`, or `None` where `chrono` cannot represent the
/// instant or refuses the pattern.
pub uninterp spec fn utc_text(secs: int, nanos: int, pattern: Seq<char>) -> Option<Seq<char>>;

/// Whether `chrono::DateTime::from_timestamp` has an instant for `(secs,
/// nanos)`.
pub uninterp spec fn is_datable(secs: int, nanos: int) -> bool;

/// Reads the clock with `chrono::Utc::now` and hands back the instant's
/// seconds and nanoseconds, as `DateTime::timestamp` and
/// `timestamp_subsec_nanos` give them. Every call may differ; claimed is what
/// holds of each: `from_timestamp` is documented to make the same instant
/// again from the two numbers, so it has an instant for them. `chrono` panics
/// if the system clock stands before 1970.
#[verifier::external_body]
pub(crate) fn wall_clock() -> (t: Timestamp)
    ensures
        is_datable(t.secs as int, t.nanos as int),
{
    let now = Utc::now();
    Timestamp { secs: now.timestamp(), nanos: now.timestamp_subsec_nanos() }
}

/// Builds the instant with `chrono::DateTime::from_timestamp` and renders it
/// with `DateTime::format` in UTC. The contract names the result: it depends
/// on the three arguments alone. A refused pattern gives `None`, as an instant
/// out of range does: there is a text only where there is an instant.
#[verifier::external_body]
pub(crate) fn render_utc(secs: i64, nanos: u32, pattern: &str) -> (r: Option<String>)
    ensures
        r.deep_view() == utc_text(secs as int, nanos as int, pattern@),
        r is Some ==> is_datable(secs as int, nanos as int),
{
    let instant = DateTime::<Utc>::from_timestamp(secs, nanos)?;
    let mut out = String::new();
    write!(out, "{}", instant.format(pattern)).ok()?;
    Some(out)
}

/// Builds the instant with `chrono::DateTime::from_timestamp`, moves it to the
/// machine's time zone with `with_timezone(&Local)` and hands back how far the
/// zone stands from UTC at that instant, in seconds east, as
/// `FixedOffset::local_minus_utc` gives it. Which offset comes back depends on
/// the machine's zone; claimed is only that it is less than a day either way,
/// as every `FixedOffset` is, and that there is one exactly where
/// `from_timestamp` has an instant: nothing after that can fail.
#[verifier::external_body]
pub(crate) fn zone_offset_at(secs: i64, nanos: u32) -> (r: Option<i32>)
    ensures
        r is Some <==> is_datable(secs as int, nanos as int),
        r matches Some(offset) ==> is_zone_offset(offset as int),
{
    let instant = DateTime::<Utc>::from_timestamp(secs, nanos)?;
    Some(instant.with_timezone(&Local).offset().local_minus_utc())
}

/// The instant that `chrono` reads from an RFC 3339 text, as seconds and
/// nanoseconds, or `None` where it does not accept the text.
pub uninterp spec fn rfc3339_instant(s: Seq<char>) -> Option<(int, int)>;

/// Parses the text with `chrono::DateTime::parse_from_rfc3339` and hands back
/// the instant's seconds and nanoseconds in UTC. The contract names the
/// result: it depends on the text alone. What comes back is what
/// `DateTime::timestamp` and `timestamp_subsec_nanos` give, from which
/// `from_timestamp` is documented to make the same instant again.
#[verifier::external_body]
pub(crate) fn read_rfc3339(s: &str) -> (r: Option<Timestamp>)
    ensures
        r is Some <==> rfc3339_instant(s@) is Some,
        r matches Some(t) ==> (t.secs as int, t.nanos as int) == rfc3339_instant(s@)->Some_0,
        r matches Some(t) ==> is_datable(t.secs as int, t.nanos as int),
{
    let instant = DateTime::parse_from_rfc3339(s).ok()?.with_timezone(&Utc);
    Some(Timestamp { secs: instant.timestamp(), nanos: instant.timestamp_subsec_nanos() })
}

/// What `chrono` reads from a date and time without zone under a strftime
/// pattern: the seconds and nanoseconds that the reading would stand for in
/// UTC, or `None` where it does not accept the text.
pub uninterp spec fn naive_reading(s: Seq<char>, pattern: Seq<char>) -> Option<(int, int)>;

/// Parses the text as a date and time without zone with
/// `chrono::NaiveDateTime::parse_from_str` and hands back the seconds and
/// nanoseconds that the reading stands for in UTC. The contract names the
/// result: it depends on the two texts alone.
#[verifier::external_body]
pub(crate) fn read_naive(s: &str, pattern: &str) -> (r: Option<Timestamp>)
    ensures
        r is Some <==> naive_reading(s@, pattern@) is Some,
        r matches Some(t) ==> (t.secs as int, t.nanos as int) == naive_reading(s@, pattern@)->Some_0,
{
    let reading = NaiveDateTime::parse_from_str(s, pattern).ok()?.and_utc();
    Some(Timestamp { secs: reading.timestamp(), nanos: reading.timestamp_subsec_nanos() })
}

/// Takes `(secs, nanos)` as the reading of a clock in the machine's time
/// zone, asks `Local.from_local_datetime` for the instant it stands for, and
/// hands back how far the zone stands from UTC there, in seconds east, if the
/// zone knows exactly one such instant. Which offset comes back depends on
/// the machine's zone; claimed is only that it is less than a day either way,
/// as every `FixedOffset` is.
#[verifier::external_body]
pub(crate) fn zone_offset_of_reading(secs: i64, nanos: u32) -> (r: Option<i32>)
    ensures
        r matches Some(offset) ==> is_zone_offset(offset as int),
{
    let reading = DateTime::<Utc>::from_timestamp(secs, nanos)?.naive_utc();
    Some(Local.from_local_datetime(&reading).single()?.offset().local_minus_utc())
}

/// A distance that a time zone may keep from UTC, in seconds east: less than
/// a day either way.
pub open spec fn is_zone_offset(offset: int) -> bool {
    -86400 < offset < 86400
}

/// The instant `t` as a clock `offset` seconds east of UTC shows it, under a
/// strftime pattern: the UTC text of the instant moved by the offset. `None`
/// where the moved instant cannot be counted in seconds or `chrono` refuses
/// it or the pattern.
pub open spec fn text_at_offset(t: Timestamp, offset: int, pattern: Seq<char>) -> Option<
    Seq<char>,
> {
    if i64::MIN <= t.secs + offset <= i64::MAX {
        utc_text(t.secs + offset, t.nanos as int, pattern)
    } else {
        None
    }
}

/// `text` is what a clock in some time zone shows of the instant `t`. Where
/// `chrono` has the instant, there is a zone offset under which `t` reads
/// so; where it has not, there is no text.
pub open spec fn is_local_text(t: Timestamp, pattern: Seq<char>, text: Option<Seq<char>>) -> bool {
    if is_datable(t.secs as int, t.nanos as int) {
        exists|offset: int|
            is_zone_offset(offset) && text == #[trigger] text_at_offset(t, offset, pattern)
    } else {
        text is None
    }
}

/// The text, or nothing where there is none.
pub open spec fn text_or_empty(text: Option<Seq<char>>) -> Seq<char> {
    match text {
        Some(t) => t,
        None => Seq::empty(),
    }
}

/// The pattern under which the pages show an instant: day first, to the
/// minute.
pub open spec fn day_first_pattern() -> Seq<char> {
    "%d.%m.%Y %H:%M"@
}

/// `text` is what is shown of the instant `t` in some time zone: what a
/// clock there reads, or nothing where there is no such text.
pub open spec fn is_shown_locally(t: Timestamp, pattern: Seq<char>, text: Seq<char>) -> bool {
    if is_datable(t.secs as int, t.nanos as int) {
        exists|offset: int|
            is_zone_offset(offset) && text == text_or_empty(
                #[trigger] text_at_offset(t, offset, pattern),
            )
    } else {
        text.len() == 0
    }
}

/// The instant that the clock reading `reading` stands for in a zone
/// `offset` seconds east of UTC: the reading moved back by the offset.
/// `None` where that instant cannot be counted in seconds.
pub open spec fn instant_at_offset(reading: Timestamp, offset: int) -> Option<Timestamp> {
    if i64::MIN <= reading.secs - offset <= i64::MAX {
        Some(Timestamp { secs: (reading.secs - offset) as i64, nanos: reading.nanos })
    } else {
        None
    }
}

/// What the text `s` stands for as a clock reading `offset` seconds east of
/// UTC.
pub open spec fn reading_at_offset(s: Seq<char>, pattern: Seq<char>, offset: int) -> Option<
    Timestamp,
> {
    match naive_reading(s, pattern) {
        Some(reading) => instant_at_offset(
            Timestamp { secs: reading.0 as i64, nanos: reading.1 as u32 },
            offset,
        ),
        None => None,
    }
}

/// `found` is an instant that the text `s` stands for as a clock reading in
/// some time zone. No instant at all is always possible: the zone may know
/// none for the reading, or two.
pub open spec fn is_local_instant(s: Seq<char>, pattern: Seq<char>, found: Option<Timestamp>) -> bool {
    found is None || exists|offset: int|
        is_zone_offset(offset) && found == #[trigger] reading_at_offset(s, pattern, offset)
}

/// A record that carries the instant at which it was made.
pub trait Stamped {
    spec fn stamp(&self) -> Timestamp;

    fn stamped_at(&self) -> (t: Timestamp)
        ensures
            t == self.stamp(),
    ;
}

impl Timestamp {
    /// `self` is strictly earlier than `other`.
    pub open spec fn precedes(self, other: Timestamp) -> bool {
        self.secs < other.secs || (self.secs == other.secs && self.nanos < other.nanos)
    }

    pub fn new(secs: i64, nanos: u32) -> (t: Timestamp)
        ensures
            t == (Timestamp { secs, nanos }),
    {
        Timestamp { secs, nanos }
    }

    /// The current instant: whatever the clock gives, handed on unchanged.
    /// It is an instant that `chrono` has, so it can be written as a date.
    pub fn now() -> (t: Timestamp)
        ensures
            is_datable(t.secs as int, t.nanos as int),
    {
        wall_clock()
    }

    /// Whether `self` is strictly earlier than `other`.
    pub fn is_before(&self, other: &Timestamp) -> (r: bool)
        ensures
            r == self.precedes(*other),
    {
        self.secs < other.secs || (self.secs == other.secs && self.nanos < other.nanos)
    }

    /// The instant in UTC under a strftime pattern; `None` where the instant
    /// is out of range or the pattern is refused.
    pub fn format_utc(&self, pattern: &str) -> (r: Option<String>)
        ensures
            r.deep_view() == utc_text(self.secs as int, self.nanos as int, pattern@),
    {
        render_utc(self.secs, self.nanos, pattern)
    }

    /// The instant as a clock `offset` seconds east of UTC shows it, under a
    /// strftime pattern. Parts of the pattern that name the zone read as
    /// UTC's.
    pub fn format_at_offset(&self, offset: i32, pattern: &str) -> (r: Option<String>)
        ensures
            r.deep_view() == text_at_offset(*self, offset as int, pattern@),
    {
        match self.secs.checked_add(offset as i64) {
            Some(moved) => render_utc(moved, self.nanos, pattern),
            None => None,
        }
    }

    /// The instant as a clock in the machine's time zone shows it, under a
    /// strftime pattern: the text at the offset that the zone keeps at this
    /// instant. Which offset that is depends on the machine; where the zone
    /// tells none, there is no text.
    pub fn format_local(&self, pattern: &str) -> (r: Option<String>)
        ensures
            is_local_text(*self, pattern@, r.deep_view()),
    {
        match zone_offset_at(self.secs, self.nanos) {
            Some(offset) => {
                let r = self.format_at_offset(offset, pattern);
                assert(r.deep_view() == text_at_offset(*self, offset as int, pattern@));
                r
            },
            None => None,
        }
    }

    /// The instant that an RFC 3339 text names, if it is one. Such an instant
    /// is one that `chrono` has.
    pub fn parse_rfc3339(s: &str) -> (r: Option<Timestamp>)
        ensures
            r is Some <==> rfc3339_instant(s@) is Some,
            r matches Some(t) ==> (t.secs as int, t.nanos as int) == rfc3339_instant(s@)->Some_0,
            r matches Some(t) ==> is_datable(t.secs as int, t.nanos as int),
    {
        read_rfc3339(s)
    }

    /// The instant that this clock reading stands for in a zone `offset`
    /// seconds east of UTC.
    pub fn read_at_offset(&self, offset: i32) -> (r: Option<Timestamp>)
        ensures
            r == instant_at_offset(*self, offset as int),
    {
        match self.secs.checked_sub(offset as i64) {
            Some(secs) => Some(Timestamp { secs, nanos: self.nanos }),
            None => None,
        }
    }

    /// The instant that a date and time without zone stands for as a clock
    /// reading `offset` seconds east of UTC.
    pub fn parse_at_offset(s: &str, pattern: &str, offset: i32) -> (r: Option<Timestamp>)
        ensures
            r == reading_at_offset(s@, pattern@, offset as int),
    {
        match read_naive(s, pattern) {
            Some(reading) => reading.read_at_offset(offset),
            None => None,
        }
    }

    /// The instant that a date and time without zone stands for as a clock
    /// reading in the machine's time zone: the reading moved back by the
    /// offset that the zone keeps there. Which offset that is depends on the
    /// machine; where the zone knows no instant for the reading, or two,
    /// there is none. A text that is no date and time gives none either.
    pub fn parse_local(s: &str, pattern: &str) -> (r: Option<Timestamp>)
        ensures
            is_local_instant(s@, pattern@, r),
            naive_reading(s@, pattern@) is None ==> r is None,
    {
        match read_naive(s, pattern) {
            Some(reading) => match zone_offset_of_reading(reading.secs, reading.nanos) {
                Some(offset) => {
                    let r = reading.read_at_offset(offset);
                    assert(r == reading_at_offset(s@, pattern@, offset as int));
                    r
                },
                None => None,
            },
            None => None,
        }
    }
}

/// The order of instants is strict and total.
pub proof fn lemma_instant_order(a: Timestamp, b: Timestamp, c: Timestamp)
    ensures
        !a.precedes(a),
        a.precedes(b) ==> !b.precedes(a),
        a.precedes(b) && b.precedes(c) ==> a.precedes(c),
        a.precedes(b) || b.precedes(a) || a == b,
{
}

} // verus!
