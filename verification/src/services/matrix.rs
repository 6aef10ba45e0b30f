//! The notification service: whether to notify, whom, with which words, and
//! what to record of the outcome. Sending is the caller's part.

use crate::clock::{utc_text, Timestamp};
use crate::error::{AppError, AppErrorView};
use crate::models::checkin::Checkin;
use crate::models::settings::{GlobalConfig, UserConfig, UserConfigView};
use crate::services::contacts::{contacts_of, nonblank_trimmed};
use crate::text::{
    concat, decimal, decimal_of, is_blank, is_blank_text, replace_all, replaced, texts, trim,
    trimmed,
};
use matrix_sdk::ruma::UserId;
use url::Url;
use vstd::prelude::*;

verus! {

/// What `url` says against a text as an absolute URL, or `None` where it
/// accepts the text.
pub uninterp spec fn url_failure(s: Seq<char>) -> Option<Seq<char>>;

/// Parses the text with `url::Url::parse` and hands back the complaint, as
/// the error's `Display` impl writes it, or `None` where the text is accepted.
/// The contract names the result: it depends on the text alone.
#[verifier::external_body]
fn check_url(s: &str) -> (r: Option<String>)
    ensures
        r.deep_view() == url_failure(s@),
{
    Url::parse(s).err().map(|e| e.to_string())
}

/// Whether `ruma` accepts a text as the identifier of a Matrix user.
pub uninterp spec fn is_user_id(s: Seq<char>) -> bool;

/// Parses the text with `matrix_sdk::ruma::UserId::parse` and says whether it
/// was accepted. The contract names the answer: it depends on the text alone.
#[verifier::external_body]
fn check_user_id(s: &str) -> (r: bool)
    ensures
        r == is_user_id(s@),
{
    UserId::parse(s).is_ok()
}

/// The strftime pattern of the instant in a message.
pub open spec fn message_time_pattern() -> Seq<char> {
    "%d.%m.%Y %H:%M"@
}

/// The words of the test message.
pub open spec fn test_message() -> Seq<char> {
    "Hi 💖, das ist eine Testnachricht aus deinem Mood-Tracker. Alles funktioniert super kawaii!"@
}

/// A template with its four placeholders filled in, one after the other:
/// the name, the mood, the intensity, the instant.
pub open spec fn filled(
    template: Seq<char>,
    username: Seq<char>,
    mood: Seq<char>,
    high: Seq<char>,
    when: Seq<char>,
) -> Seq<char> {
    replaced(
        replaced(
            replaced(replaced(template, "{username}"@, username), "{mood}"@, mood),
            "{high_level}"@,
            high,
        ),
        "{timestamp}"@,
        when,
    )
}

/// The check-in behind an optional reference.
pub open spec fn owned(checkin: Option<&Checkin>) -> Option<Checkin> {
    match checkin {
        Some(c) => Some(*c),
        None => None,
    }
}

/// The mood as a message shows it: unknown where there is no check-in.
pub open spec fn mood_text_of(checkin: Option<Checkin>) -> Seq<char> {
    match checkin {
        Some(c) => decimal_of(c.mood as int),
        None => "unbekannt"@,
    }
}

/// The intensity as a message shows it: zero where there is no check-in.
pub open spec fn high_text_of(checkin: Option<Checkin>) -> Seq<char> {
    match checkin {
        Some(c) => decimal_of(c.high_level as int),
        None => "0"@,
    }
}

/// The instant as a message shows it: nothing where it cannot be written as
/// a date.
pub open spec fn when_text_of(at: Timestamp) -> Seq<char> {
    match utc_text(at.secs as int, at.nanos as int, message_time_pattern()) {
        Some(t) => t,
        None => Seq::empty(),
    }
}

/// The message for a tenant: the template filled in from the configuration,
/// the check-in and the instant.
pub open spec fn rendered(
    template: Seq<char>,
    cfg: UserConfigView,
    checkin: Option<Checkin>,
    at: Timestamp,
) -> Seq<char> {
    filled(
        template,
        cfg.display_name,
        mood_text_of(checkin),
        high_text_of(checkin),
        when_text_of(at),
    )
}

/// What it takes to speak for the tenant at the messaging service.
#[derive(Clone, Debug, PartialEq, Eq)]
pub struct SessionPlan {
    pub homeserver: String,
    pub user_id: String,
    pub device_id: String,
    pub access_token: String,
}

pub struct SessionPlanView {
    pub homeserver: Seq<char>,
    pub user_id: Seq<char>,
    pub device_id: Seq<char>,
    pub access_token: Seq<char>,
}

impl View for SessionPlan {
    type V = SessionPlanView;

    open spec fn view(&self) -> SessionPlanView {
        SessionPlanView {
            homeserver: self.homeserver@,
            user_id: self.user_id@,
            device_id: self.device_id@,
            access_token: self.access_token@,
        }
    }
}

/// A message to send: as whom, with which words, to whom.
#[derive(Clone, Debug, PartialEq, Eq)]
pub struct Dispatch {
    pub session: SessionPlan,
    pub message: String,
    pub contacts: Vec<String>,
}

pub struct DispatchView {
    pub session: SessionPlanView,
    pub message: Seq<char>,
    pub contacts: Seq<Seq<char>>,
}

impl View for Dispatch {
    type V = DispatchView;

    open spec fn view(&self) -> DispatchView {
        DispatchView {
            session: self.session@,
            message: self.message@,
            contacts: texts(self.contacts@),
        }
    }
}

/// What became of the attempt to reach one contact.
#[derive(Clone, Debug, PartialEq, Eq)]
pub enum Delivery {
    /// The message went out.
    Sent,
    /// The service failed; the text says why.
    Failed(String),
}

/// What is said of a configured user identifier that is none.
pub open spec fn bad_user_id() -> AppErrorView {
    AppErrorView::BadRequest("Matrix User ID ist ungültig."@)
}

/// The texts of `s` that are identifiers of Matrix users, in order.
pub open spec fn user_ids_among(s: Seq<Seq<char>>) -> Seq<Seq<char>>
    decreases s.len(),
{
    if s.len() == 0 {
        Seq::empty()
    } else if is_user_id(s.last()) {
        user_ids_among(s.drop_last()).push(s.last())
    } else {
        user_ids_among(s.drop_last())
    }
}

/// The addresses that a notification is sent to: the contacts trimmed,
/// blank ones and those that are no user identifiers left out.
pub open spec fn targets_of(contacts: Seq<Seq<char>>) -> Seq<Seq<char>> {
    user_ids_among(nonblank_trimmed(contacts))
}

/// Whether the tenant has the messaging service switched on: an access token
/// is set.
pub open spec fn enabled(cfg: UserConfigView) -> bool {
    !is_blank_text(cfg.matrix_access_token)
}

/// The device identifier to use, if a usable one is set.
pub open spec fn device_of(cfg: UserConfigView) -> Option<Seq<char>> {
    match cfg.matrix_device_id {
        Some(d) => if is_blank_text(d) {
            None
        } else {
            Some(trimmed(d))
        },
        None => None,
    }
}

/// The error for a homeserver address that is no URL.
pub open spec fn bad_homeserver(why: Seq<char>) -> AppErrorView {
    AppErrorView::BadRequest("Ungültige Homeserver URL: "@ + why)
}

/// How to speak for the tenant, given what the URL parser said of the
/// homeserver address: not at all without a token or a device, an error for
/// an address that is no URL, and the session otherwise.
pub open spec fn session_decision(cfg: UserConfigView, url_complaint: Option<Seq<char>>) -> Result<
    Option<SessionPlanView>,
    AppErrorView,
> {
    if !enabled(cfg) {
        Ok(None)
    } else {
        match device_of(cfg) {
            None => Ok(None),
            Some(device) => match url_complaint {
                Some(why) => Err(bad_homeserver(why)),
                None => Ok(
                    Some(
                        SessionPlanView {
                            homeserver: cfg.homeserver_url,
                            user_id: cfg.matrix_user_id,
                            device_id: device,
                            access_token: trimmed(cfg.matrix_access_token),
                        },
                    ),
                ),
            },
        }
    }
}

/// `r` is the decision `d`, and where a message goes out it has the words
/// `message` and goes to `contacts`.
pub open spec fn is_dispatch(
    r: Result<Option<Dispatch>, AppError>,
    d: Result<Option<SessionPlanView>, AppErrorView>,
    message: Seq<char>,
    contacts: Seq<Seq<char>>,
) -> bool {
    match d {
        Err(e) => r is Err && r->Err_0@ == e,
        Ok(None) => r is Ok && r->Ok_0 is None,
        Ok(Some(session)) => r is Ok && r->Ok_0 is Some && r->Ok_0->Some_0@ == (DispatchView {
            session,
            message,
            contacts,
        }),
    }
}

/// `r` is the decision `d`.
pub open spec fn is_session(
    r: Result<Option<SessionPlan>, AppError>,
    d: Result<Option<SessionPlanView>, AppErrorView>,
) -> bool {
    match d {
        Err(e) => r is Err && r->Err_0@ == e,
        Ok(None) => r is Ok && r->Ok_0 is None,
        Ok(Some(session)) => r is Ok && r->Ok_0 is Some && r->Ok_0->Some_0@ == session,
    }
}

/// One attempt to reach a contact, and what became of it.
#[derive(Clone, Debug, PartialEq, Eq)]
pub struct Attempt {
    pub target: String,
    pub outcome: Delivery,
}

/// `i` is the first attempt that failed.
pub open spec fn is_first_failure(attempts: Seq<Attempt>, i: int) -> bool {
    &&& 0 <= i < attempts.len()
    &&& attempts[i].outcome is Failed
    &&& forall|k: int| 0 <= k < i ==> !(attempts[k].outcome is Failed)
}

/// The targets that were reached, in order.
pub open spec fn reached(attempts: Seq<Attempt>) -> Seq<Seq<char>>
    decreases attempts.len(),
{
    if attempts.len() == 0 {
        Seq::empty()
    } else if attempts.last().outcome is Sent {
        reached(attempts.drop_last()).push(attempts.last().target@)
    } else {
        reached(attempts.drop_last())
    }
}

#[derive(Clone, Copy, Debug, Default, PartialEq, Eq)]
pub struct MatrixService;

impl MatrixService {
    pub fn new() -> MatrixService {
        MatrixService
    }

    /// Whether the tenant has the messaging service switched on.
    pub fn is_enabled(&self, user_cfg: &UserConfig) -> (r: bool)
        ensures
            r == enabled(user_cfg@),
    {
        !is_blank(user_cfg.matrix_access_token.as_str())
    }

    /// The contacts of a configuration, in order, trimmed, blank ones left
    /// out.
    pub fn collect_contacts(&self, user_cfg: &UserConfig) -> (r: Vec<String>)
        ensures
            texts(r@) == contacts_of(user_cfg@),
    {
        crate::services::contacts::collect_contacts(user_cfg)
    }

    /// A template with its four placeholders filled in.
    pub fn fill_template(template: &str, username: &str, mood: &str, high: &str, when: &str) -> (r:
        String)
        ensures
            r@ == filled(template@, username@, mood@, high@, when@),
    {
        let a = replace_all(template, "{username}", username);
        let b = replace_all(a.as_str(), "{mood}", mood);
        let c = replace_all(b.as_str(), "{high_level}", high);
        replace_all(c.as_str(), "{timestamp}", when)
    }

    /// The message for a tenant: the template filled in from the
    /// configuration, the check-in and the instant.
    pub fn render_template(
        &self,
        template: &str,
        user_cfg: &UserConfig,
        checkin: Option<&Checkin>,
        timestamp: Timestamp,
    ) -> (r: String)
        ensures
            r@ == rendered(
                template@,
                user_cfg@,
                owned(checkin),
                timestamp,
            ),
    {
        let mood = match checkin {
            Some(c) => decimal(c.mood),
            None => "unbekannt".to_owned(),
        };
        let high = match checkin {
            Some(c) => decimal(c.high_level),
            None => "0".to_owned(),
        };
        let when = match timestamp.format_utc("%d.%m.%Y %H:%M") {
            Some(t) => t,
            None => String::new(),
        };
        MatrixService::fill_template(
            template,
            user_cfg.display_name.as_str(),
            mood.as_str(),
            high.as_str(),
            when.as_str(),
        )
    }

    /// How to speak for the tenant, given what the URL parser said of the
    /// homeserver address.
    pub fn plan_session(user_cfg: &UserConfig, url_complaint: Option<String>) -> (r: Result<
        Option<SessionPlan>,
        AppError,
    >)
        ensures
            is_session(r, session_decision(user_cfg@, url_complaint.deep_view())),
    {
        let token = trim(user_cfg.matrix_access_token.as_str());
        if token.as_str().is_empty() {
            return Ok(None);
        }
        let device = match &user_cfg.matrix_device_id {
            Some(d) => {
                let t = trim(d.as_str());
                if t.as_str().is_empty() {
                    return Ok(None);
                }
                t
            },
            None => {
                return Ok(None);
            },
        };
        match url_complaint {
            Some(why) => Err(
                AppError::BadRequest(concat("Ungültige Homeserver URL: ", why.as_str())),
            ),
            None => Ok(
                Some(
                    SessionPlan {
                        homeserver: user_cfg.homeserver_url.clone(),
                        user_id: user_cfg.matrix_user_id.clone(),
                        device_id: device,
                        access_token: token,
                    },
                ),
            ),
        }
    }

    /// How to speak for the tenant: not at all without a token or a device,
    /// an error for a homeserver address that is no URL.
    pub fn prepare_client(&self, user_cfg: &UserConfig) -> (r: Result<Option<SessionPlan>, AppError>)
        ensures
            is_session(r, session_decision(user_cfg@, url_failure(user_cfg@.homeserver_url))),
    {
        let complaint = check_url(user_cfg.homeserver_url.as_str());
        MatrixService::plan_session(user_cfg, complaint)
    }

    /// The message to send, if any, as whom and to whom.
    fn dispatch(&self, user_cfg: &UserConfig, message: String, contacts: Vec<String>) -> (r: Result<
        Option<Dispatch>,
        AppError,
    >)
        ensures
            is_dispatch(
                r,
                session_decision(user_cfg@, url_failure(user_cfg@.homeserver_url)),
                message@,
                texts(contacts@),
            ),
    {
        match self.prepare_client(user_cfg) {
            Ok(Some(session)) => Ok(Some(Dispatch { session, message, contacts })),
            Ok(None) => Ok(None),
            Err(e) => Err(e),
        }
    }

    /// The notification for a low mood: the low-mood template filled in from
    /// the check-in, to the tenant's contacts. Nothing goes out where the
    /// service is switched off.
    pub fn send_low_mood_notification(
        &self,
        user_cfg: &UserConfig,
        global_cfg: &GlobalConfig,
        checkin: &Checkin,
    ) -> (r: Result<Option<Dispatch>, AppError>)
        ensures
            is_dispatch(
                r,
                session_decision(user_cfg@, url_failure(user_cfg@.homeserver_url)),
                rendered(
                    global_cfg@.low_mood_message_template,
                    user_cfg@,
                    Some(*checkin),
                    checkin.timestamp,
                ),
                contacts_of(user_cfg@),
            ),
    {
        let message = self.render_template(
            global_cfg.low_mood_message_template.as_str(),
            user_cfg,
            Some(checkin),
            checkin.timestamp,
        );
        let contacts = self.collect_contacts(user_cfg);
        self.dispatch(user_cfg, message, contacts)
    }

    /// The notification for a call for help made at `now`.
    pub fn panic_notification_at(
        &self,
        user_cfg: &UserConfig,
        global_cfg: &GlobalConfig,
        checkin: Option<&Checkin>,
        now: Timestamp,
    ) -> (r: Result<Option<Dispatch>, AppError>)
        ensures
            is_dispatch(
                r,
                session_decision(user_cfg@, url_failure(user_cfg@.homeserver_url)),
                rendered(
                    global_cfg@.panic_message_template,
                    user_cfg@,
                    owned(checkin),
                    now,
                ),
                contacts_of(user_cfg@),
            ),
    {
        let message = self.render_template(
            global_cfg.panic_message_template.as_str(),
            user_cfg,
            checkin,
            now,
        );
        let contacts = self.collect_contacts(user_cfg);
        self.dispatch(user_cfg, message, contacts)
    }

    /// The notification for a call for help made now. The instant in the
    /// message is whatever the clock gives; the rest is as
    /// `panic_notification_at` states it.
    pub fn send_panic_notification(
        &self,
        user_cfg: &UserConfig,
        global_cfg: &GlobalConfig,
        checkin: Option<&Checkin>,
    ) -> (r: Result<Option<Dispatch>, AppError>)
        ensures
            exists|now: Timestamp|
                is_dispatch(
                    r,
                    session_decision(user_cfg@, url_failure(user_cfg@.homeserver_url)),
                    #[trigger] rendered(
                        global_cfg@.panic_message_template,
                        user_cfg@,
                        owned(checkin),
                        now,
                    ),
                    contacts_of(user_cfg@),
                ),
    {
        let now = Timestamp::now();
        let r = self.panic_notification_at(user_cfg, global_cfg, checkin, now);
        assert(is_dispatch(
            r,
            session_decision(user_cfg@, url_failure(user_cfg@.homeserver_url)),
            rendered(
                global_cfg@.panic_message_template,
                user_cfg@,
                owned(checkin),
                now,
            ),
            contacts_of(user_cfg@),
        ));
        r
    }

    /// The test message, to the tenant's own address.
    pub fn send_test_message(&self, user_cfg: &UserConfig) -> (r: Result<Option<Dispatch>, AppError>)
        ensures
            is_dispatch(
                r,
                session_decision(user_cfg@, url_failure(user_cfg@.homeserver_url)),
                test_message(),
                seq![user_cfg@.matrix_user_id],
            ),
    {
        let message = "Hi 💖, das ist eine Testnachricht aus deinem Mood-Tracker. Alles funktioniert super kawaii!".to_owned();
        let mut contacts: Vec<String> = Vec::new();
        contacts.push(user_cfg.matrix_user_id.clone());
        assert(texts(contacts@) =~= seq![user_cfg@.matrix_user_id]);
        self.dispatch(user_cfg, message, contacts)
    }

    /// Whether the session speaks for a user that the service can know: its
    /// user identifier must be one.
    pub fn check_identity(plan: &SessionPlan) -> (r: Result<(), AppError>)
        ensures
            is_user_id(plan@.user_id) <==> r is Ok,
            r matches Err(e) ==> e@ == bad_user_id(),
    {
        if check_user_id(plan.user_id.as_str()) {
            Ok(())
        } else {
            Err(AppError::BadRequest("Matrix User ID ist ungültig.".to_owned()))
        }
    }

    /// The addresses to try, in order: the contacts trimmed, blank ones and
    /// those that are no user identifiers left out.
    pub fn notify_targets(contacts: &Vec<String>) -> (r: Vec<String>)
        ensures
            texts(r@) == targets_of(texts(contacts@)),
    {
        let cleaned = crate::services::contacts::clean_list(contacts);
        let mut out: Vec<String> = Vec::new();
        let ghost all = texts(cleaned@);
        assert(texts(out@) =~= user_ids_among(all.take(0)));
        let mut i: usize = 0;
        while i < cleaned.len()
            invariant
                i <= cleaned.len(),
                all == texts(cleaned@),
                texts(out@) == user_ids_among(all.take(i as int)),
            decreases cleaned.len() - i,
        {
            proof {
                let now = all.take(i + 1);
                assert(now.drop_last() == all.take(i as int));
                assert(now.last() == cleaned@[i as int]@);
            }
            if check_user_id(cleaned[i].as_str()) {
                let ghost before = out@;
                out.push(cleaned[i].clone());
                assert(texts(out@) =~= texts(before).push(cleaned@[i as int]@));
            }
            i += 1;
        }
        assert(all.take(cleaned.len() as int) == all);
        out
    }

    /// Whether the run ends with this attempt: the first failure of the
    /// service ends it, and no further contact is tried.
    pub fn ends_run(outcome: &Delivery) -> (r: bool)
        ensures
            r == (*outcome is Failed),
    {
        match outcome {
            Delivery::Failed(_) => true,
            _ => false,
        }
    }

    /// Who was reached, given the attempts made. A failure of the service
    /// fails the whole run.
    pub fn notify_contacts(&self, attempts: &Vec<Attempt>) -> (r: Result<Vec<String>, AppError>)
        ensures
            (exists|i: int| is_first_failure(attempts@, i)) <==> r is Err,
            forall|i: int|
                is_first_failure(attempts@, i) ==> (r matches Err(e) && e@ == AppErrorView::Other(
                    attempts@[i].outcome->Failed_0@,
                )),
            r matches Ok(names) ==> texts(names@) == reached(attempts@),
    {
        let mut out: Vec<String> = Vec::new();
        assert(texts(out@) =~= reached(attempts@.take(0)));
        let mut i: usize = 0;
        while i < attempts.len()
            invariant
                i <= attempts.len(),
                forall|k: int| 0 <= k < i ==> !(attempts@[k].outcome is Failed),
                texts(out@) == reached(attempts@.take(i as int)),
            decreases attempts.len() - i,
        {
            proof {
                let now = attempts@.take(i + 1);
                assert(now.drop_last() == attempts@.take(i as int));
                assert(now.last() == attempts@[i as int]);
            }
            match &attempts[i].outcome {
                Delivery::Sent => {
                    let ghost before = out@;
                    out.push(attempts[i].target.clone());
                    assert(texts(out@) =~= texts(before).push(attempts@[i as int].target@));
                },
                Delivery::Failed(why) => {
                    assert(is_first_failure(attempts@, i as int));
                    assert forall|j: int| is_first_failure(attempts@, j) implies j == i by {
                        if j < i {
                        } else if j > i {
                        }
                    }
                    return Err(AppError::Other(why.clone()));
                },
            }
            i += 1;
        }
        assert(attempts@.take(attempts.len() as int) == attempts@);
        Ok(out)
    }
}

} // verus!
