//! The tenant's pages: what a submitted form becomes, how moods are named,
//! and what is recorded of the notifications that went out.

use crate::clock::{rfc3339_instant, Timestamp};
use crate::error::AppError;
use crate::ids::{fresh_id, is_uuid_text};
use crate::models::checkin::{
    AutoNotifications, AutoNotificationsView, Checkin, CheckinView, DrugEntry, DrugEntryView,
    PanicEvent, PanicEventView, drug_views,
};
use crate::models::settings::{UserConfig, UserConfigView};
use crate::services::contacts::{clean_list, nonblank_trimmed};
use crate::text::{
    concat, decimal, decimal_of, is_blank_text, opt_text, pieces_of, same_text, split_at_char,
    texts, trim, trimmed,
};
use vstd::prelude::*;

verus! {

/// One state that a check-in may be tagged with.
#[derive(Clone, Copy, Debug, PartialEq, Eq)]
pub struct StatusOption {
    pub value: &'static str,
    pub label: &'static str,
    pub description: &'static str,
}

/// The name of a mood.
pub open spec fn mood_label_of(value: int) -> Seq<char> {
    if value == -5 {
        "Katastrophe 😭"@
    } else if value == -4 {
        "Sehr schwer 😢"@
    } else if value == -3 {
        "Ziemlich mies 😢"@
    } else if value == -2 {
        "Traurig 😔"@
    } else if value == -1 {
        "Down 😔"@
    } else if value == 0 {
        "Neutral 😶"@
    } else if value == 1 {
        "Vorsichtig ok 🙂"@
    } else if value == 2 {
        "Ganz gut 🙂"@
    } else if value == 3 {
        "Leicht euphorisch ✨"@
    } else if value == 4 {
        "Strahlend 💖"@
    } else {
        "Übertrieben gut ✨"@
    }
}

/// The warning for a low mood under heavy intoxication.
pub open spec fn danger_warning() -> Seq<char> {
    "Achtung: du bist gerade ziemlich down und stark berauscht 😰 – vielleicht wäre es gut, mit jemandem zu reden 💕"@
}

/// The remark for a steady state.
pub open spec fn steady_remark() -> Seq<char> {
    "Du scheinst gerade recht stabil zu sein 💖"@
}

/// What the widget says of a mood and an intensity: a warning for a mood
/// below zero at an intensity of seven or more, a remark for a mood of zero or
/// more at an intensity of three or less, nothing otherwise.
pub open spec fn danger_of(mood: int, high: int) -> Option<Seq<char>> {
    if mood < 0 && high >= 7 {
        Some(danger_warning())
    } else if mood >= 0 && high <= 3 {
        Some(steady_remark())
    } else {
        None
    }
}

/// `v` brought into `lo..=hi`.
pub open spec fn clamped(v: int, lo: int, hi: int) -> int {
    if v < lo {
        lo
    } else if v > hi {
        hi
    } else {
        v
    }
}

/// The words for a safety answer.
pub open spec fn safety_words(answer: Seq<char>) -> Seq<char> {
    if answer == "ok"@ {
        "Mir geht's gut 💖"@
    } else if answer == "high"@ {
        "Ich bin sehr high, aber komme klar 🌀"@
    } else {
        "Ich glaube, ich brauche Hilfe 😰"@
    }
}

/// Whether a safety answer is a call for help.
pub open spec fn is_panic_answer(answer: Seq<char>) -> bool {
    answer == "panic"@
}

/// A text trimmed, or nothing where it is blank.
pub open spec fn cleaned(text: Seq<char>) -> Option<Seq<char>> {
    if is_blank_text(text) {
        None
    } else {
        Some(trimmed(text))
    }
}

/// An optional text trimmed, or nothing where it is missing or blank.
pub open spec fn cleaned_opt(text: Option<Seq<char>>) -> Option<Seq<char>> {
    match text {
        Some(t) => cleaned(t),
        None => None,
    }
}

/// The text of row `i`, cleaned, or nothing where the column is too short.
pub open spec fn cleaned_at(column: Seq<Seq<char>>, i: int) -> Option<Seq<char>> {
    if 0 <= i < column.len() {
        cleaned(column[i])
    } else {
        None
    }
}

/// The dose of a row without one.
pub open spec fn unknown_dose() -> Seq<char> {
    "unbekannt"@
}

/// The names of the states, in the order in which the form offers them.
pub open spec fn status_values() -> Seq<Seq<char>> {
    seq!["calm"@, "emotional"@, "overwhelmed"@, "restless"@]
}

/// The routes that the form offers, in order.
pub open spec fn route_names() -> Seq<Seq<char>> {
    seq![
        "oral"@,
        "nasal"@,
        "sublingual"@,
        "inhalation"@,
        "intravenös"@,
        "rektal"@,
        "transdermal"@,
    ]
}

/// The states that a check-in may be tagged with.
pub fn status_options() -> (r: Vec<StatusOption>)
    ensures
        r@.len() == 4,
        forall|i: int| 0 <= i < 4 ==> (#[trigger] r@[i]).value@ == status_values()[i],
        r@[0].label@ == "stabil 😊"@ && r@[0].description@ == "ruhig und geerdet"@,
        r@[1].label@ == "emotional 🥺"@ && r@[1].description@ == "Gefühle sind sehr präsent"@,
        r@[2].label@ == "sozial überfordert 😵‍💫"@ && r@[2].description@ == "brauche Ruhe"@,
        r@[3].label@ == "körperlich unruhig 🫀"@ && r@[3].description@
            == "viel Energie im Körper"@,
{
    let mut v: Vec<StatusOption> = Vec::new();
    v.push(StatusOption { value: "calm", label: "stabil 😊", description: "ruhig und geerdet" });
    v.push(
        StatusOption {
            value: "emotional",
            label: "emotional 🥺",
            description: "Gefühle sind sehr präsent",
        },
    );
    v.push(
        StatusOption {
            value: "overwhelmed",
            label: "sozial überfordert 😵‍💫",
            description: "brauche Ruhe",
        },
    );
    v.push(
        StatusOption {
            value: "restless",
            label: "körperlich unruhig 🫀",
            description: "viel Energie im Körper",
        },
    );
    v
}

/// The routes that the form offers.
pub fn route_options() -> (r: Vec<&'static str>)
    ensures
        r@.len() == 7,
        forall|i: int| 0 <= i < 7 ==> (#[trigger] r@[i])@ == route_names()[i],
{
    let mut v: Vec<&'static str> = Vec::new();
    v.push("oral");
    v.push("nasal");
    v.push("sublingual");
    v.push("inhalation");
    v.push("intravenös");
    v.push("rektal");
    v.push("transdermal");
    v
}

/// The name of a mood.
pub fn mood_label(value: i32) -> (r: String)
    ensures
        r@ == mood_label_of(value as int),
{
    let label: &str = match value {
        -5 => "Katastrophe 😭",
        -4 => "Sehr schwer 😢",
        -3 => "Ziemlich mies 😢",
        -2 => "Traurig 😔",
        -1 => "Down 😔",
        0 => "Neutral 😶",
        1 => "Vorsichtig ok 🙂",
        2 => "Ganz gut 🙂",
        3 => "Leicht euphorisch ✨",
        4 => "Strahlend 💖",
        _ => "Übertrieben gut ✨",
    };
    label.to_owned()
}

/// What the widget says of a mood and an intensity.
pub fn danger_message(mood: i32, high: i32) -> (r: Option<String>)
    ensures
        r.deep_view() == danger_of(mood as int, high as int),
{
    if mood < 0 && high >= 7 {
        Some(
            "Achtung: du bist gerade ziemlich down und stark berauscht 😰 – vielleicht wäre es gut, mit jemandem zu reden 💕".to_owned(),
        )
    } else if mood >= 0 && high <= 3 {
        Some("Du scheinst gerade recht stabil zu sein 💖".to_owned())
    } else {
        None
    }
}

/// `v` brought into `lo..=hi`.
pub fn clamp(v: i32, lo: i32, hi: i32) -> (r: i32)
    ensures
        r == clamped(v as int, lo as int, hi as int),
{
    if v < lo {
        lo
    } else if v > hi {
        hi
    } else {
        v
    }
}

/// A text trimmed, or nothing where it is blank.
pub fn clean(text: &str) -> (r: Option<String>)
    ensures
        r.deep_view() == cleaned(text@),
{
    let t = trim(text);
    if t.as_str().is_empty() {
        None
    } else {
        Some(t)
    }
}

/// The text of row `i` of a column, cleaned.
pub fn clean_at(column: &Vec<String>, i: usize) -> (r: Option<String>)
    ensures
        r.deep_view() == cleaned_at(texts(column@), i as int),
{
    if i < column.len() {
        clean(column[i].as_str())
    } else {
        None
    }
}

/// The words for a safety answer.
pub fn safety_answer_words(answer: &str) -> (r: String)
    ensures
        r@ == safety_words(answer@),
{
    if same_text(answer, "ok") {
        "Mir geht's gut 💖".to_owned()
    } else if same_text(answer, "high") {
        "Ich bin sehr high, aber komme klar 🌀".to_owned()
    } else {
        "Ich glaube, ich brauche Hilfe 😰".to_owned()
    }
}

/// Whether a safety answer is a call for help.
pub fn is_panic(answer: &str) -> (r: bool)
    ensures
        r == is_panic_answer(answer@),
{
    same_text(answer, "panic")
}

/// What the clock of a form field comes to, given what the two readings of
/// it gave: nothing for an empty field, the RFC 3339 reading where there is
/// one, the local reading otherwise.
pub fn pick_datetime(is_empty: bool, exact: Option<Timestamp>, local: Option<Timestamp>) -> (r:
    Option<Timestamp>)
    ensures
        r == if is_empty {
            None
        } else if exact is Some {
            exact
        } else {
            local
        },
{
    if is_empty {
        None
    } else if exact.is_some() {
        exact
    } else {
        local
    }
}

/// The instant that a form field names: an RFC 3339 time, or a date and
/// time to the minute read in the machine's time zone.
pub fn parse_datetime(value: &str) -> (r: Option<Timestamp>)
    ensures
        value@.len() == 0 ==> r is None,
        value@.len() > 0 && rfc3339_instant(value@) is Some ==> (r matches Some(t) && (
            t.secs as int,
            t.nanos as int,
        ) == rfc3339_instant(value@)->Some_0),
{
    if value.is_empty() {
        return None;
    }
    let exact = Timestamp::parse_rfc3339(value);
    let local = match exact {
        Some(_) => None,
        None => Timestamp::parse_local(value, "%Y-%m-%dT%H:%M"),
    };
    pick_datetime(false, exact, local)
}

/// The tenant's configuration as the pages use it: the one that was loaded,
/// or, where none could be loaded, the defaults under the tenant's name.
pub fn config_or_default(loaded: Result<UserConfig, AppError>, username: &str) -> (r: UserConfig)
    ensures
        match loaded {
            Ok(cfg) => r == cfg,
            Err(_) => r@ == UserConfigView::seeded(username@),
        },
{
    match loaded {
        Ok(cfg) => cfg,
        Err(_) => UserConfig::for_new_user(username),
    }
}

/// The message of the commit that records a check-in.
pub fn checkin_commit_message(username: &str) -> (r: String)
    ensures
        r@ == "feat: neues Mood-Checkin für "@ + username@ + " 🌸"@,
{
    let a = concat("feat: neues Mood-Checkin für ", username);
    concat(a.as_str(), " 🌸")
}

/// The message of the commit that records a panic event.
pub fn panic_commit_message(username: &str) -> (r: String)
    ensures
        r@ == "feat: Panic-Event für "@ + username@ + " 😰"@,
{
    let a = concat("feat: Panic-Event für ", username);
    concat(a.as_str(), " 😰")
}

/// The message of the commit that records changed settings.
pub fn settings_commit_message(username: &str) -> (r: String)
    ensures
        r@ == "chore: Matrix-Konfiguration von "@ + username@ + " aktualisiert 💕"@,
{
    let a = concat("chore: Matrix-Konfiguration von ", username);
    concat(a.as_str(), " aktualisiert 💕")
}

/// Where the caller is sent after a check-in.
pub fn checkin_location(id: &str) -> (r: String)
    ensures
        r@ == "/me/checkins/"@ + id@,
{
    concat("/me/checkins/", id)
}

/// Whether a check-in sets off the low-mood notification: the tenant asked
/// for it and the mood lies below the tenant's threshold.
pub fn wants_low_mood_notification(user_cfg: &UserConfig, checkin: &Checkin) -> (r: bool)
    ensures
        r == (user_cfg.auto_notify_on_low_mood && checkin.mood < user_cfg.auto_notify_threshold),
{
    user_cfg.auto_notify_on_low_mood && checkin.mood < user_cfg.auto_notify_threshold
}

/// The contacts that a notification reached, as far as it counts: a
/// notification that was not tried, failed or reached nobody counts for
/// nothing.
pub open spec fn counted(reached: Option<Vec<String>>) -> Seq<Seq<char>> {
    match reached {
        Some(list) => texts(list@),
        None => Seq::empty(),
    }
}

/// What a check-in records of its notifications. Each trigger is set where
/// its notification reached somebody, independently of the other; the
/// contacts are those of the low-mood notification followed by those of the
/// panic notification.
pub open spec fn recorded(low: Option<Vec<String>>, panic: Option<Vec<String>>) -> AutoNotificationsView {
    AutoNotificationsView {
        mood_threshold_triggered: counted(low).len() > 0,
        panic_triggered: counted(panic).len() > 0,
        notified_contacts: counted(low) + counted(panic),
    }
}

/// Appends clones of `from` to `out`.
fn append_texts(out: &mut Vec<String>, from: &Vec<String>)
    ensures
        texts(final(out)@) == texts(old(out)@) + texts(from@),
{
    let ghost start = texts(out@);
    let mut i: usize = 0;
    assert(texts(out@) =~= start + texts(from@).take(0));
    while i < from.len()
        invariant
            i <= from.len(),
            texts(out@) == start + texts(from@).take(i as int),
        decreases from.len() - i,
    {
        let ghost before = out@;
        out.push(from[i].clone());
        assert(texts(out@) =~= texts(before).push(from@[i as int]@));
        assert(texts(out@) =~= start + texts(from@).take(i + 1));
        i += 1;
    }
    assert(texts(from@).take(from.len() as int) == texts(from@));
}

/// What a check-in records of its notifications, given whom each one
/// reached; `None` stands for a notification that was not tried or failed.
pub fn record_notifications(low: Option<Vec<String>>, panic: Option<Vec<String>>) -> (r:
    AutoNotifications)
    ensures
        r@ == recorded(low, panic),
{
    let mut contacts: Vec<String> = Vec::new();
    assert(texts(contacts@) =~= Seq::<Seq<char>>::empty());
    let mut by_mood = false;
    let mut by_panic = false;
    match &low {
        Some(list) => {
            if list.len() > 0 {
                by_mood = true;
            }
            append_texts(&mut contacts, list);
        },
        None => {},
    }
    assert(texts(contacts@) =~= counted(low));
    match &panic {
        Some(list) => {
            if list.len() > 0 {
                by_panic = true;
            }
            append_texts(&mut contacts, list);
        },
        None => {},
    }
    assert(texts(contacts@) =~= counted(low) + counted(panic));
    AutoNotifications {
        mood_threshold_triggered: by_mood,
        panic_triggered: by_panic,
        notified_contacts: contacts,
    }
}

/// A panic event of a tenant, with the levels of the last check-in, if there
/// is one.
pub fn panic_event_at(
    id: String,
    user_uuid: &str,
    now: Timestamp,
    last: Option<&Checkin>,
    contacts: Vec<String>,
) -> (r: PanicEvent)
    ensures
        r@ == (PanicEventView {
            id: id@,
            user_uuid: user_uuid@,
            timestamp: now,
            mood_at_panic: match last {
                Some(c) => Some(c.mood),
                None => None,
            },
            high_level_at_panic: match last {
                Some(c) => Some(c.high_level),
                None => None,
            },
            notified_contacts: texts(contacts@),
        }),
{
    PanicEvent {
        id,
        user_uuid: user_uuid.to_owned(),
        timestamp: now,
        mood_at_panic: match last {
            Some(c) => Some(c.mood),
            None => None,
        },
        high_level_at_panic: match last {
            Some(c) => Some(c.high_level),
            None => None,
        },
        notified_contacts: contacts,
    }
}

/// A panic event of a tenant, made now under a fresh identifier.
pub fn panic_event_now(user_uuid: &str, last: Option<&Checkin>, contacts: Vec<String>) -> (r:
    PanicEvent)
    ensures
        is_uuid_text(r@.id),
        r@.user_uuid == user_uuid@,
        r@.notified_contacts == texts(contacts@),
        r@.mood_at_panic == match last {
            Some(c) => Some(c.mood),
            None => None,
        },
        r@.high_level_at_panic == match last {
            Some(c) => Some(c.high_level),
            None => None,
        },
{
    panic_event_at(fresh_id(), user_uuid, Timestamp::now(), last, contacts)
}

/// A submitted check-in form, as it came in.
#[derive(Clone, Debug, PartialEq, Eq)]
pub struct CheckinForm {
    pub mood: i32,
    pub high_level: i32,
    pub safety_answer: String,
    pub notes: Option<String>,
    pub status_tags: Vec<String>,
    pub drugs_substance: Vec<String>,
    pub drugs_dose: Vec<String>,
    pub drugs_route: Vec<String>,
    pub drugs_start_time: Vec<String>,
    pub drugs_notes: Vec<String>,
}

/// The start time of row `i`, or nothing where the column is too short.
pub open spec fn start_at(starts: Seq<Option<Timestamp>>, i: int) -> Option<Timestamp> {
    if 0 <= i < starts.len() {
        starts[i]
    } else {
        None
    }
}

/// The drug entry that row `i` of the form gives: none for a row without a
/// substance, else the substance with its dose, or `unbekannt` for none, and
/// route, start and notes as far as they are given.
pub open spec fn drug_row(form: CheckinForm, i: int, start: Option<Timestamp>) -> Option<
    DrugEntryView,
> {
    match cleaned(form.drugs_substance@[i]@) {
        None => None,
        Some(substance) => Some(
            DrugEntryView {
                substance,
                dose: match cleaned_at(texts(form.drugs_dose@), i) {
                    Some(dose) => dose,
                    None => unknown_dose(),
                },
                route: cleaned_at(texts(form.drugs_route@), i),
                start_time: start,
                notes: cleaned_at(texts(form.drugs_notes@), i),
            },
        ),
    }
}

/// The drug entries of the first `n` rows of the form, in order.
pub open spec fn drug_rows(form: CheckinForm, starts: Seq<Option<Timestamp>>, n: int) -> Seq<
    DrugEntryView,
>
    decreases n,
{
    if n <= 0 {
        Seq::empty()
    } else {
        match drug_row(form, n - 1, start_at(starts, n - 1)) {
            Some(entry) => drug_rows(form, starts, n - 1).push(entry),
            None => drug_rows(form, starts, n - 1),
        }
    }
}

/// `starts` holds, row by row, what the start times of the form read as:
/// nothing where the field is missing or blank, and the instant of an
/// RFC 3339 time where the field holds one.
pub open spec fn are_starts_of(form: CheckinForm, starts: Seq<Option<Timestamp>>) -> bool {
    &&& starts.len() == form.drugs_substance@.len()
    &&& forall|i: int|
        0 <= i < starts.len() ==> {
            let given = cleaned_at(texts(form.drugs_start_time@), i);
            &&& given is None ==> (#[trigger] starts[i]) is None
            &&& given is Some && rfc3339_instant(given->Some_0) is Some ==> (starts[i] matches Some(
                t,
            ) && (t.secs as int, t.nanos as int) == rfc3339_instant(given->Some_0)->Some_0)
        }
}

/// The start times of the rows of the form, as far as they can be read.
pub fn drug_start_times(form: &CheckinForm) -> (r: Vec<Option<Timestamp>>)
    ensures
        are_starts_of(*form, r@),
{
    let mut out: Vec<Option<Timestamp>> = Vec::new();
    let mut i: usize = 0;
    while i < form.drugs_substance.len()
        invariant
            i <= form.drugs_substance.len(),
            out@.len() == i,
            forall|k: int|
                0 <= k < i ==> {
                    let given = cleaned_at(texts(form.drugs_start_time@), k);
                    &&& given is None ==> (#[trigger] out@[k]) is None
                    &&& given is Some && rfc3339_instant(given->Some_0) is Some ==> (
                    out@[k] matches Some(t) && (t.secs as int, t.nanos as int) == rfc3339_instant(
                        given->Some_0,
                    )->Some_0)
                },
        decreases form.drugs_substance.len() - i,
    {
        let start = match clean_at(&form.drugs_start_time, i) {
            Some(text) => {
                proof {
                    crate::text::lemma_trimmed_shape(form.drugs_start_time@[i as int]@);
                }
                parse_datetime(text.as_str())
            },
            None => None,
        };
        out.push(start);
        i += 1;
    }
    out
}

/// The drug entries of a form, given the start times of its rows.
pub fn build_drug_entries_with(form: &CheckinForm, starts: &Vec<Option<Timestamp>>) -> (r: Vec<
    DrugEntry,
>)
    ensures
        drug_views(r@) == drug_rows(*form, starts@, form.drugs_substance@.len() as int),
{
    let mut out: Vec<DrugEntry> = Vec::new();
    let mut i: usize = 0;
    assert(drug_views(out@) =~= drug_rows(*form, starts@, 0));
    while i < form.drugs_substance.len()
        invariant
            i <= form.drugs_substance.len(),
            drug_views(out@) == drug_rows(*form, starts@, i as int),
        decreases form.drugs_substance.len() - i,
    {
        let start: Option<Timestamp> = if i < starts.len() {
            starts[i]
        } else {
            None
        };
        match clean(form.drugs_substance[i].as_str()) {
            Some(substance) => {
                let dose = match clean_at(&form.drugs_dose, i) {
                    Some(d) => d,
                    None => "unbekannt".to_owned(),
                };
                let entry = DrugEntry {
                    substance,
                    dose,
                    route: clean_at(&form.drugs_route, i),
                    start_time: start,
                    notes: clean_at(&form.drugs_notes, i),
                };
                let ghost before = out@;
                assert(Some(entry@) == drug_row(*form, i as int, start_at(starts@, i as int)));
                out.push(entry);
                assert(drug_views(out@) =~= drug_views(before).push(entry@));
            },
            None => {
                assert(drug_row(*form, i as int, start_at(starts@, i as int)) is None);
            },
        }
        i += 1;
    }
    out
}

/// The drug entries of a form: one for each row that names a substance.
pub fn build_drug_entries(form: &CheckinForm) -> (r: Vec<DrugEntry>)
    ensures
        exists|starts: Seq<Option<Timestamp>>|
            are_starts_of(*form, starts) && drug_views(r@) == #[trigger] drug_rows(
                *form,
                starts,
                form.drugs_substance@.len() as int,
            ),
{
    let starts = drug_start_times(form);
    let r = build_drug_entries_with(form, &starts);
    assert(drug_views(r@) == drug_rows(*form, starts@, form.drugs_substance@.len() as int));
    r
}

/// A check-in with the answers of a form filled in: the levels brought into
/// their ranges, the safety answer in words, blank notes dropped.
pub open spec fn filled_in(
    checkin: CheckinView,
    form: CheckinForm,
    drugs: Seq<DrugEntryView>,
) -> CheckinView {
    CheckinView {
        mood: clamped(form.mood as int, -5, 5),
        high_level: clamped(form.high_level as int, 0, 10),
        status_tags: texts(form.status_tags@),
        safety_answer: Some(safety_words(form.safety_answer@)),
        feels_safe: !is_panic_answer(form.safety_answer@),
        notes: cleaned_opt(opt_text(form.notes)),
        drugs,
        ..checkin
    }
}

/// A check-in with the answers of a form filled in.
pub fn fill_checkin(checkin: Checkin, form: &CheckinForm, drugs: Vec<DrugEntry>) -> (r: Checkin)
    ensures
        r@ == filled_in(checkin@, *form, drug_views(drugs@)),
        r@.in_range(),
{
    let mut tags: Vec<String> = Vec::new();
    assert(texts(tags@) =~= Seq::<Seq<char>>::empty());
    append_texts(&mut tags, &form.status_tags);
    assert(texts(tags@) =~= texts(form.status_tags@));
    let notes = match &form.notes {
        Some(n) => clean(n.as_str()),
        None => None,
    };
    let mut r = checkin;
    r.mood = clamp(form.mood, -5, 5);
    r.high_level = clamp(form.high_level, 0, 10);
    r.status_tags = tags;
    r.safety_answer = Some(safety_answer_words(form.safety_answer.as_str()));
    r.feels_safe = !is_panic(form.safety_answer.as_str());
    r.notes = notes;
    r.drugs = drugs;
    r
}

/// A submitted settings form, as it came in.
#[derive(Clone, Debug, PartialEq, Eq)]
pub struct SettingsForm {
    pub display_name: String,
    pub homeserver_url: String,
    pub matrix_user_id: String,
    pub matrix_access_token: String,
    pub matrix_device_id: Option<String>,
    pub primary_contact: Option<String>,
    pub emergency_contacts: Option<String>,
    pub auto_notify_on_low_mood: Option<String>,
    pub auto_notify_threshold: i32,
}

/// The emergency contacts of a form: one to a line, trimmed, blank lines
/// dropped.
pub open spec fn contact_lines(field: Option<String>) -> Seq<Seq<char>> {
    match field {
        Some(text) => nonblank_trimmed(pieces_of(text@, '\n')),
        None => Seq::empty(),
    }
}

/// A configuration with the answers of a form filled in. The tenant's name
/// stays as it is.
pub open spec fn with_settings(cfg: UserConfigView, form: SettingsForm) -> UserConfigView {
    UserConfigView {
        username: cfg.username,
        display_name: trimmed(form.display_name@),
        homeserver_url: trimmed(form.homeserver_url@),
        matrix_user_id: trimmed(form.matrix_user_id@),
        matrix_access_token: trimmed(form.matrix_access_token@),
        matrix_device_id: cleaned_opt(opt_text(form.matrix_device_id)),
        primary_contact: cleaned_opt(opt_text(form.primary_contact)),
        emergency_contacts: contact_lines(form.emergency_contacts),
        auto_notify_on_low_mood: form.auto_notify_on_low_mood is Some,
        auto_notify_threshold: form.auto_notify_threshold as int,
    }
}

/// A configuration with the answers of a form filled in.
pub fn apply_settings(config: UserConfig, form: &SettingsForm) -> (r: UserConfig)
    ensures
        r@ == with_settings(config@, *form),
{
    let contacts = match &form.emergency_contacts {
        Some(text) => {
            let lines = split_at_char(text.as_str(), '\n');
            clean_list(&lines)
        },
        None => {
            let none: Vec<String> = Vec::new();
            assert(texts(none@) =~= Seq::<Seq<char>>::empty());
            none
        },
    };
    let device = match &form.matrix_device_id {
        Some(d) => clean(d.as_str()),
        None => None,
    };
    let primary = match &form.primary_contact {
        Some(p) => clean(p.as_str()),
        None => None,
    };
    UserConfig {
        username: config.username,
        display_name: trim(form.display_name.as_str()),
        homeserver_url: trim(form.homeserver_url.as_str()),
        matrix_user_id: trim(form.matrix_user_id.as_str()),
        matrix_access_token: trim(form.matrix_access_token.as_str()),
        matrix_device_id: device,
        primary_contact: primary,
        emergency_contacts: contacts,
        auto_notify_on_low_mood: form.auto_notify_on_low_mood.is_some(),
        auto_notify_threshold: form.auto_notify_threshold,
    }
}

/// One line of the list of check-ins.
#[derive(Clone, Debug, PartialEq, Eq)]
pub struct CheckinSummary {
    pub id: String,
    pub timestamp: String,
    pub high_level: i32,
    pub mood_label: String,
}

impl Default for CheckinSummary {
    fn default() -> (r: CheckinSummary)
        ensures
            r.id@.len() == 0,
            r.timestamp@.len() == 0,
            r.high_level == 0,
            r.mood_label@.len() == 0,
    {
        CheckinSummary {
            id: String::new(),
            timestamp: String::new(),
            high_level: 0,
            mood_label: String::new(),
        }
    }
}

impl CheckinSummary {
    /// The line for a check-in whose instant is written as `when`.
    pub fn with_time(value: &Checkin, when: String) -> (r: CheckinSummary)
        ensures
            r.id@ == value.id@,
            r.timestamp == when,
            r.high_level == value.high_level,
            r.mood_label@ == mood_label_of(value.mood as int),
    {
        CheckinSummary {
            id: value.id.clone(),
            timestamp: when,
            high_level: value.high_level,
            mood_label: mood_label(value.mood),
        }
    }

    /// The line for a check-in. Its instant is written in the machine's time
    /// zone; the rest is determined by the check-in.
    pub fn from(value: &Checkin) -> (r: CheckinSummary)
        ensures
            r.id@ == value.id@,
            r.high_level == value.high_level,
            r.mood_label@ == mood_label_of(value.mood as int),
    {
        CheckinSummary::with_time(value, format_timestamp(value.timestamp))
    }
}

/// An instant as the pages show it: what a clock in the machine's time zone
/// reads, day first and to the minute. Which zone that is depends on the
/// machine. An instant that cannot be shown gives the empty text.
pub fn format_timestamp(ts: Timestamp) -> (r: String)
    ensures
        crate::clock::is_shown_locally(ts, crate::clock::day_first_pattern(), r@),
{
    match ts.format_local("%d.%m.%Y %H:%M") {
        Some(text) => text,
        None => String::new(),
    }
}

/// One mark of the mood scale.
#[derive(Clone, Copy, Debug, PartialEq, Eq)]
pub struct MoodScaleMark {
    pub value: i32,
    pub active: bool,
}

/// How many check-ins the sparkline shows.
pub const SPARK_POINTS: usize = 10;

/// The mood scale from -5 to 5, the mark of the latest mood lit.
pub fn mood_scale(latest: Option<i32>) -> (r: Vec<MoodScaleMark>)
    ensures
        r@.len() == 11,
        forall|i: int|
            0 <= i < 11 ==> (#[trigger] r@[i]).value == i - 5 && r@[i].active == (latest == Some(
                (i - 5) as i32,
            )),
{
    let mut out: Vec<MoodScaleMark> = Vec::new();
    let mut value: i32 = -5;
    while value <= 5
        invariant
            -5 <= value <= 6,
            out@.len() == value + 5,
            forall|i: int|
                0 <= i < out@.len() ==> (#[trigger] out@[i]).value == i - 5 && out@[i].active == (
                latest == Some((i - 5) as i32)),
        decreases 6 - value,
    {
        let active = match latest {
            Some(m) => m == value,
            None => false,
        };
        out.push(MoodScaleMark { value, active });
        value += 1;
    }
    out
}

/// The points of the sparkline: the ten newest check-ins of a listing that
/// runs newest first, oldest of them first, each with its instant and mood.
pub fn spark_points(checkins: &Vec<Checkin>) -> (r: Vec<(Timestamp, i32)>)
    ensures
        r@.len() == if checkins@.len() <= SPARK_POINTS {
            checkins@.len()
        } else {
            SPARK_POINTS as nat
        },
        forall|k: int|
            0 <= k < r@.len() ==> #[trigger] r@[k] == (
                checkins@[r@.len() - 1 - k].timestamp,
                checkins@[r@.len() - 1 - k].mood,
            ),
{
    let shown: usize = if checkins.len() <= SPARK_POINTS {
        checkins.len()
    } else {
        SPARK_POINTS
    };
    let mut out: Vec<(Timestamp, i32)> = Vec::new();
    let mut k: usize = 0;
    while k < shown
        invariant
            k <= shown <= checkins.len(),
            out@.len() == k,
            forall|j: int|
                0 <= j < k ==> #[trigger] out@[j] == (
                    checkins@[shown - 1 - j].timestamp,
                    checkins@[shown - 1 - j].mood,
                ),
        decreases shown - k,
    {
        let c = &checkins[shown - 1 - k];
        out.push((c.timestamp, c.mood));
        k += 1;
    }
    out
}

/// The mood as the widget shows it: `?` where there is no check-in.
pub fn widget_mood_text(latest: Option<&Checkin>) -> (r: String)
    ensures
        r@ == match latest {
            Some(c) => decimal_of(c.mood as int),
            None => "?"@,
        },
{
    match latest {
        Some(c) => decimal(c.mood),
        None => "?".to_owned(),
    }
}

/// The intensity as the widget shows it, out of ten.
pub fn widget_high_text(latest: Option<&Checkin>) -> (r: String)
    ensures
        r@ == match latest {
            Some(c) => decimal_of(c.high_level as int) + "/10"@,
            None => "0/10"@,
        },
{
    match latest {
        Some(c) => {
            let d = decimal(c.high_level);
            concat(d.as_str(), "/10")
        },
        None => "0/10".to_owned(),
    }
}

/// The intensity in percent of the scale's end, kept within what an `i32`
/// holds.
pub fn widget_high_percent(latest: Option<&Checkin>) -> (r: i32)
    ensures
        r == match latest {
            Some(c) => clamped(c.high_level * 10, i32::MIN as int, i32::MAX as int),
            None => 0,
        },
{
    match latest {
        Some(c) => {
            let wide: i64 = (c.high_level as i64) * 10;
            if wide > i32::MAX as i64 {
                i32::MAX
            } else if wide < i32::MIN as i64 {
                i32::MIN
            } else {
                wide as i32
            }
        },
        None => 0,
    }
}

/// The seconds of a week.
pub const WEEK_SECONDS: i64 = 604800;

/// The instant a week before `now`, or the earliest instant there is where
/// the week reaches back beyond it.
pub open spec fn week_before(now: Timestamp) -> Timestamp {
    Timestamp {
        secs: clamped(now.secs - WEEK_SECONDS, i64::MIN as int, i64::MAX as int) as i64,
        nanos: now.nanos,
    }
}

/// Whether a check-in made at `at` counts for the average of the week that
/// ends at `now`: it is not older than seven days.
pub open spec fn in_last_week(at: Timestamp, now: Timestamp) -> bool {
    !at.precedes(week_before(now))
}

/// The sum of the moods of the check-ins of the last week.
pub open spec fn week_mood_sum(checkins: Seq<Checkin>, now: Timestamp) -> int
    decreases checkins.len(),
{
    if checkins.len() == 0 {
        0
    } else if in_last_week(checkins.last().timestamp, now) {
        week_mood_sum(checkins.drop_last(), now) + checkins.last().mood
    } else {
        week_mood_sum(checkins.drop_last(), now)
    }
}

/// The number of the check-ins of the last week.
pub open spec fn week_mood_count(checkins: Seq<Checkin>, now: Timestamp) -> nat
    decreases checkins.len(),
{
    if checkins.len() == 0 {
        0
    } else if in_last_week(checkins.last().timestamp, now) {
        week_mood_count(checkins.drop_last(), now) + 1
    } else {
        week_mood_count(checkins.drop_last(), now)
    }
}

/// The sum never leaves what the count allows.
pub proof fn lemma_week_mood_bounds(checkins: Seq<Checkin>, now: Timestamp)
    ensures
        week_mood_count(checkins, now) <= checkins.len(),
        -0x8000_0000 * week_mood_count(checkins, now) <= week_mood_sum(checkins, now)
            <= 0x7fff_ffff * week_mood_count(checkins, now),
    decreases checkins.len(),
{
    if checkins.len() > 0 {
        lemma_week_mood_bounds(checkins.drop_last(), now);
    }
}

/// The moods of the last week before `now`, summed and counted: what the
/// average is made of.
pub fn week_moods(checkins: &Vec<Checkin>, now: Timestamp) -> (r: (i128, usize))
    ensures
        r.0 == week_mood_sum(checkins@, now),
        r.1 == week_mood_count(checkins@, now),
{
    let since_secs: i64 = if now.secs < i64::MIN + WEEK_SECONDS {
        i64::MIN
    } else {
        now.secs - WEEK_SECONDS
    };
    let since = Timestamp { secs: since_secs, nanos: now.nanos };
    let mut sum: i128 = 0;
    let mut count: usize = 0;
    let mut i: usize = 0;
    while i < checkins.len()
        invariant
            i <= checkins.len(),
            since == week_before(now),
            sum == week_mood_sum(checkins@.take(i as int), now),
            count == week_mood_count(checkins@.take(i as int), now),
        decreases checkins.len() - i,
    {
        proof {
            let seen = checkins@.take(i + 1);
            assert(seen.drop_last() == checkins@.take(i as int));
            assert(seen.last() == checkins@[i as int]);
            lemma_week_mood_bounds(checkins@.take(i as int), now);
        }
        if !checkins[i].timestamp.is_before(&since) {
            sum = sum + checkins[i].mood as i128;
            count += 1;
        }
        i += 1;
    }
    assert(checkins@.take(checkins.len() as int) == checkins@);
    (sum, count)
}

/// The texts of `list`, one to a line.
pub open spec fn joined_lines(list: Seq<Seq<char>>) -> Seq<char>
    decreases list.len(),
{
    if list.len() == 0 {
        Seq::empty()
    } else if list.len() == 1 {
        list[0]
    } else {
        joined_lines(list.drop_last()) + seq!['\n'] + list.last()
    }
}

/// The contacts as the settings form shows them: one to a line.
pub fn contacts_text(list: &Vec<String>) -> (r: String)
    ensures
        r@ == joined_lines(texts(list@)),
{
    let mut out = String::new();
    let ghost all = texts(list@);
    let mut i: usize = 0;
    assert(all.take(0).len() == 0);
    while i < list.len()
        invariant
            i <= list.len(),
            all == texts(list@),
            out@ == joined_lines(all.take(i as int)),
        decreases list.len() - i,
    {
        proof {
            let now = all.take(i + 1);
            assert(now.drop_last() == all.take(i as int));
            assert(now.last() == list@[i as int]@);
            reveal_strlit("\n");
            assert("\n"@ =~= seq!['\n']);
            if i == 0 {
                assert(now.len() == 1);
                assert(out@ + list@[i as int]@ =~= now[0]);
            }
        }
        if i > 0 {
            out.append("\n");
        }
        out.append(list[i].as_str());
        i += 1;
    }
    assert(all.take(list.len() as int) == all);
    out
}

/// Whether a query parameter is set to `expected`.
pub fn query_flag(value: Option<&str>, expected: &str) -> (r: bool)
    ensures
        r == (value.deep_view() == Some(expected@)),
{
    match value {
        Some(v) => same_text(v, expected),
        None => false,
    }
}

/// One drug entry as the page of a check-in shows it.
#[derive(Clone, Debug, PartialEq, Eq)]
pub struct DrugView {
    pub substance: String,
    pub dose: String,
    pub route: String,
    pub has_notes: bool,
    pub notes: String,
}

pub struct DrugViewView {
    pub substance: Seq<char>,
    pub dose: Seq<char>,
    pub route: Seq<char>,
    pub has_notes: bool,
    pub notes: Seq<char>,
}

impl View for DrugView {
    type V = DrugViewView;

    open spec fn view(&self) -> DrugViewView {
        DrugViewView {
            substance: self.substance@,
            dose: self.dose@,
            route: self.route@,
            has_notes: self.has_notes,
            notes: self.notes@,
        }
    }
}

/// The text of an optional text: empty where it is missing.
pub open spec fn or_empty(text: Option<Seq<char>>) -> Seq<char> {
    match text {
        Some(t) => t,
        None => Seq::empty(),
    }
}

/// A drug entry as the page of a check-in shows it: a missing route reads
/// `n/a`, and notes count only where they are not empty.
pub open spec fn shown_drug(drug: DrugEntryView) -> DrugViewView {
    DrugViewView {
        substance: drug.substance,
        dose: drug.dose,
        route: match drug.route {
            Some(t) => t,
            None => crate::models::checkin::no_route(),
        },
        has_notes: or_empty(drug.notes).len() > 0,
        notes: or_empty(drug.notes),
    }
}

/// The drug entries of a check-in as its page shows them.
pub open spec fn shown_drugs(drugs: Seq<DrugEntryView>) -> Seq<DrugViewView> {
    Seq::new(drugs.len(), |i: int| shown_drug(drugs[i]))
}

/// The views of a sequence of shown drug entries.
pub open spec fn drug_view_views(v: Seq<DrugView>) -> Seq<DrugViewView> {
    Seq::new(v.len(), |i: int| v[i]@)
}

/// A drug entry as the page of a check-in shows it.
pub fn drug_view(drug: &DrugEntry) -> (r: DrugView)
    ensures
        r@ == shown_drug(drug@),
{
    let notes = drug.notes_display().to_owned();
    let has_notes = !notes.as_str().is_empty();
    DrugView {
        substance: drug.substance.clone(),
        dose: drug.dose.clone(),
        route: drug.route_text().to_owned(),
        has_notes,
        notes,
    }
}

/// One check-in as its page shows it.
#[derive(Clone, Debug, PartialEq, Eq)]
pub struct CheckinDetailData {
    pub timestamp: String,
    pub mood: i32,
    pub high_level: i32,
    pub status_tags: Vec<String>,
    pub has_status_tags: bool,
    pub safety_answer: String,
    pub has_notes: bool,
    pub notes: String,
    pub drugs: Vec<DrugView>,
    pub has_drugs: bool,
    pub notifications: Vec<String>,
    pub has_notifications: bool,
}

pub struct CheckinDetailView {
    pub timestamp: Seq<char>,
    pub mood: int,
    pub high_level: int,
    pub status_tags: Seq<Seq<char>>,
    pub has_status_tags: bool,
    pub safety_answer: Seq<char>,
    pub has_notes: bool,
    pub notes: Seq<char>,
    pub drugs: Seq<DrugViewView>,
    pub has_drugs: bool,
    pub notifications: Seq<Seq<char>>,
    pub has_notifications: bool,
}

impl View for CheckinDetailData {
    type V = CheckinDetailView;

    open spec fn view(&self) -> CheckinDetailView {
        CheckinDetailView {
            timestamp: self.timestamp@,
            mood: self.mood as int,
            high_level: self.high_level as int,
            status_tags: texts(self.status_tags@),
            has_status_tags: self.has_status_tags,
            safety_answer: self.safety_answer@,
            has_notes: self.has_notes,
            notes: self.notes@,
            drugs: drug_view_views(self.drugs@),
            has_drugs: self.has_drugs,
            notifications: texts(self.notifications@),
            has_notifications: self.has_notifications,
        }
    }
}

/// A check-in as its page shows it, its instant written as `when`. Each
/// list comes with the word whether it holds anything.
pub open spec fn detail_of(checkin: CheckinView, when: Seq<char>) -> CheckinDetailView {
    CheckinDetailView {
        timestamp: when,
        mood: checkin.mood,
        high_level: checkin.high_level,
        status_tags: checkin.status_tags,
        has_status_tags: checkin.status_tags.len() > 0,
        safety_answer: match checkin.safety_answer {
            Some(t) => t,
            None => crate::models::checkin::no_safety_answer(),
        },
        has_notes: or_empty(checkin.notes).len() > 0,
        notes: or_empty(checkin.notes),
        drugs: shown_drugs(checkin.drugs),
        has_drugs: checkin.drugs.len() > 0,
        notifications: checkin.auto_notifications.notified_contacts,
        has_notifications: checkin.auto_notifications.notified_contacts.len() > 0,
    }
}

/// A check-in as its page shows it, its instant written as `when`.
pub fn checkin_detail_with(checkin: &Checkin, when: String) -> (r: CheckinDetailData)
    ensures
        r@ == detail_of(checkin@, when@),
{
    let mut tags: Vec<String> = Vec::new();
    assert(texts(tags@) =~= Seq::<Seq<char>>::empty());
    append_texts(&mut tags, &checkin.status_tags);
    assert(texts(tags@) =~= texts(checkin.status_tags@));
    let mut reached: Vec<String> = Vec::new();
    assert(texts(reached@) =~= Seq::<Seq<char>>::empty());
    append_texts(&mut reached, &checkin.auto_notifications.notified_contacts);
    assert(texts(reached@) =~= texts(checkin.auto_notifications.notified_contacts@));
    let mut drugs: Vec<DrugView> = Vec::new();
    let mut i: usize = 0;
    while i < checkin.drugs.len()
        invariant
            i <= checkin.drugs.len(),
            drugs@.len() == i,
            forall|k: int| 0 <= k < i ==> (#[trigger] drugs@[k])@ == shown_drug(checkin.drugs@[k]@),
        decreases checkin.drugs.len() - i,
    {
        drugs.push(drug_view(&checkin.drugs[i]));
        i += 1;
    }
    assert(drug_view_views(drugs@) =~= shown_drugs(drug_views(checkin.drugs@)));
    let notes = checkin.notes_display().to_owned();
    let has_notes = !notes.as_str().is_empty();
    let has_tags = tags.len() > 0;
    let has_drugs = drugs.len() > 0;
    let has_notifications = reached.len() > 0;
    CheckinDetailData {
        timestamp: when,
        mood: checkin.mood,
        high_level: checkin.high_level,
        status_tags: tags,
        has_status_tags: has_tags,
        safety_answer: checkin.safety_answer_text().to_owned(),
        has_notes,
        notes,
        drugs,
        has_drugs,
        notifications: reached,
        has_notifications,
    }
}

/// One line of the list of trips.
#[derive(Clone, Debug, PartialEq, Eq)]
pub struct TripSummary {
    pub title: String,
    pub main_substance: String,
    pub mood_span: String,
    pub checkin_count: usize,
}

pub struct TripSummaryView {
    pub title: Seq<char>,
    pub main_substance: Seq<char>,
    pub mood_span: Seq<char>,
    pub checkin_count: nat,
}

impl View for TripSummary {
    type V = TripSummaryView;

    open spec fn view(&self) -> TripSummaryView {
        TripSummaryView {
            title: self.title@,
            main_substance: self.main_substance@,
            mood_span: self.mood_span@,
            checkin_count: self.checkin_count as nat,
        }
    }
}

/// The views of a sequence of trips.
pub open spec fn trip_views(v: Seq<TripSummary>) -> Seq<TripSummaryView> {
    Seq::new(v.len(), |i: int| v[i]@)
}

/// The trip that a check-in stands for, under the title `title`: none for a
/// check-in without drugs; else a trip of one check-in, named after the first
/// substance.
pub open spec fn trip_of(checkin: CheckinView, title: Seq<char>) -> Option<TripSummaryView> {
    if checkin.drugs.len() == 0 {
        None
    } else {
        Some(
            TripSummaryView {
                title,
                main_substance: checkin.drugs[0].substance,
                mood_span: mood_label_of(checkin.mood),
                checkin_count: 1,
            },
        )
    }
}

/// The trips of the first `n` check-ins of a listing, in the listing's
/// order, the trip of check-in `i` titled `titles[i]`.
pub open spec fn trips_of(checkins: Seq<Checkin>, titles: Seq<Seq<char>>, n: int) -> Seq<
    TripSummaryView,
>
    decreases n,
{
    if n <= 0 {
        Seq::empty()
    } else {
        match trip_of(checkins[n - 1]@, titles[n - 1]) {
            Some(trip) => trips_of(checkins, titles, n - 1).push(trip),
            None => trips_of(checkins, titles, n - 1),
        }
    }
}

/// The trip that a check-in stands for, under the title `title`.
pub fn trip_summary_with(checkin: &Checkin, title: String) -> (r: Option<TripSummary>)
    ensures
        match trip_of(checkin@, title@) {
            Some(trip) => r is Some && r->Some_0@ == trip,
            None => r is None,
        },
{
    if checkin.drugs.len() == 0 {
        None
    } else {
        assert(drug_views(checkin.drugs@)[0] == checkin.drugs@[0]@);
        Some(
            TripSummary {
                title,
                main_substance: checkin.drugs[0].substance.clone(),
                mood_span: mood_label(checkin.mood),
                checkin_count: 1,
            },
        )
    }
}

/// The trips of a listing: one for each check-in that took drugs, in the
/// listing's order. Each is titled with its day in the machine's time zone,
/// so the titles are not determined by the listing; the rest is.
pub fn trip_summaries(checkins: &Vec<Checkin>) -> (r: Vec<TripSummary>)
    ensures
        exists|titles: Seq<Seq<char>>|
            titles.len() == checkins@.len() && trip_views(r@) == #[trigger] trips_of(
                checkins@,
                titles,
                checkins@.len() as int,
            ),
{
    let mut out: Vec<TripSummary> = Vec::new();
    let ghost mut titles: Seq<Seq<char>> = Seq::empty();
    let mut i: usize = 0;
    assert(trip_views(out@) =~= trips_of(checkins@, titles, 0));
    while i < checkins.len()
        invariant
            i <= checkins.len(),
            titles.len() == i,
            trip_views(out@) == trips_of(checkins@, titles, i as int),
        decreases checkins.len() - i,
    {
        let title = match checkins[i].timestamp.format_local("%d.%m.%Y") {
            Some(day) => day,
            None => String::new(),
        };
        let ghost before_titles = titles;
        proof {
            titles = titles.push(title@);
            lemma_trips_ignore_later_titles(checkins@, before_titles, titles, i as int);
        }
        match trip_summary_with(&checkins[i], title) {
            Some(trip) => {
                let ghost before = out@;
                out.push(trip);
                assert(trip_views(out@) =~= trip_views(before).push(trip@));
            },
            None => {},
        }
        i += 1;
    }
    out
}

/// The trips of the first `n` check-ins depend on the first `n` titles only.
proof fn lemma_trips_ignore_later_titles(
    checkins: Seq<Checkin>,
    a: Seq<Seq<char>>,
    b: Seq<Seq<char>>,
    n: int,
)
    requires
        0 <= n <= a.len(),
        n <= b.len(),
        forall|i: int| 0 <= i < n ==> a[i] == b[i],
    ensures
        trips_of(checkins, a, n) == trips_of(checkins, b, n),
    decreases n,
{
    if n > 0 {
        lemma_trips_ignore_later_titles(checkins, a, b, n - 1);
    }
}

} // verus!
