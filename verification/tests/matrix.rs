use mood::clock::Timestamp;
use mood::error::AppError;
use mood::models::checkin::Checkin;
use mood::models::settings::{GlobalConfig, UserConfig};
use mood::services::matrix::{Attempt, Delivery, Dispatch, MatrixService, SessionPlan};

fn ready() -> UserConfig {
    let mut cfg = UserConfig::for_new_user("mia");
    cfg.display_name = "Mia".to_string();
    cfg.matrix_access_token = " tok ".to_string();
    cfg.matrix_device_id = Some(" DEV1 ".to_string());
    cfg.matrix_user_id = "@mia:matrix.org".to_string();
    cfg.primary_contact = Some("@a:matrix.org".to_string());
    cfg.emergency_contacts = vec![" @b:matrix.org".to_string(), "".to_string(), "@a:matrix.org".to_string()];
    cfg
}

fn session() -> SessionPlan {
    SessionPlan {
        homeserver: "https://matrix.org".to_string(),
        user_id: "@mia:matrix.org".to_string(),
        device_id: "DEV1".to_string(),
        access_token: "tok".to_string(),
    }
}

fn checkin() -> Checkin {
    let mut c = Checkin::with_identity("c1".to_string(), "u1", Timestamp::new(1431648000, 0));
    c.mood = -4;
    c.high_level = 8;
    c
}

#[test]
fn enabled_needs_a_token() {
    let m = MatrixService::new();
    let mut cfg = UserConfig::default();
    assert!(m.is_enabled(&cfg));
    cfg.matrix_access_token = "  ".to_string();
    assert!(!m.is_enabled(&cfg));
    cfg.matrix_access_token = String::new();
    assert!(!m.is_enabled(&cfg));
}

#[test]
fn collect_contacts_keeps_repetitions() {
    let m = MatrixService::new();
    assert_eq!(m.collect_contacts(&ready()), vec!["@a:matrix.org", "@b:matrix.org", "@a:matrix.org"]);
    assert_eq!(m.collect_contacts(&UserConfig::default()), Vec::<String>::new());
}

#[test]
fn template_is_filled_in() {
    assert_eq!(
        MatrixService::fill_template("{username}: {mood} {high_level}/10 {timestamp} {mood}", "Mia", "-4", "8", "now"),
        "Mia: -4 8/10 now -4"
    );
    assert_eq!(MatrixService::fill_template("plain", "a", "b", "c", "d"), "plain");
    assert_eq!(
        MatrixService::fill_template("{username}", "{mood}", "x", "c", "d"),
        "x"
    );
}

#[test]
fn render_template_uses_checkin_and_utc_time() {
    let m = MatrixService::new();
    let text = m.render_template(
        "{username}|{mood}|{high_level}|{timestamp}",
        &ready(),
        Some(&checkin()),
        Timestamp::new(1431648000, 0),
    );
    assert_eq!(text, "Mia|-4|8|15.05.2015 00:00");
    let text = m.render_template("{username}|{mood}|{high_level}|{timestamp}", &ready(), None, Timestamp::new(0, 0));
    assert_eq!(text, "Mia|unbekannt|0|01.01.1970 00:00");
    let text = m.render_template("{timestamp}!", &ready(), None, Timestamp::new(i64::MAX, 0));
    assert_eq!(text, "!");
}

#[test]
fn session_needs_token_and_device() {
    let m = MatrixService::new();
    assert_eq!(m.prepare_client(&ready()), Ok(Some(session())));
    let mut no_token = ready();
    no_token.matrix_access_token = " ".to_string();
    assert_eq!(m.prepare_client(&no_token), Ok(None));
    let mut no_device = ready();
    no_device.matrix_device_id = None;
    assert_eq!(m.prepare_client(&no_device), Ok(None));
    no_device.matrix_device_id = Some("  ".to_string());
    assert_eq!(m.prepare_client(&no_device), Ok(None));
}

#[test]
fn session_refuses_bad_homeserver() {
    let m = MatrixService::new();
    let mut cfg = ready();
    cfg.homeserver_url = "matrix.org".to_string();
    assert_eq!(
        m.prepare_client(&cfg),
        Err(AppError::BadRequest("Ungültige Homeserver URL: relative URL without a base".to_string()))
    );
    cfg.matrix_device_id = None;
    assert_eq!(m.prepare_client(&cfg), Ok(None));
    assert_eq!(
        MatrixService::plan_session(&ready(), Some("empty host".to_string())),
        Err(AppError::BadRequest("Ungültige Homeserver URL: empty host".to_string()))
    );
    assert_eq!(MatrixService::plan_session(&ready(), None), Ok(Some(session())));
}

#[test]
fn low_mood_notification_is_dispatched() {
    let m = MatrixService::new();
    let mut global = GlobalConfig::default();
    global.low_mood_message_template = "{username} {mood} {high_level} {timestamp}".to_string();
    let d = m.send_low_mood_notification(&ready(), &global, &checkin());
    assert_eq!(
        d,
        Ok(Some(Dispatch {
            session: session(),
            message: "Mia -4 8 15.05.2015 00:00".to_string(),
            contacts: vec!["@a:matrix.org".to_string(), "@b:matrix.org".to_string(), "@a:matrix.org".to_string()],
        }))
    );
    let mut off = ready();
    off.matrix_access_token = String::new();
    assert_eq!(m.send_low_mood_notification(&off, &global, &checkin()), Ok(None));
}

#[test]
fn panic_notification_is_dispatched() {
    let m = MatrixService::new();
    let mut global = GlobalConfig::default();
    global.panic_message_template = "{username} {mood} {high_level} {timestamp}".to_string();
    let at = m.panic_notification_at(&ready(), &global, None, Timestamp::new(0, 0)).unwrap().unwrap();
    assert_eq!(at.message, "Mia unbekannt 0 01.01.1970 00:00");
    assert_eq!(at.session, session());
    let now = m.send_panic_notification(&ready(), &global, Some(&checkin())).unwrap().unwrap();
    assert!(now.message.starts_with("Mia -4 8 "));
    assert_eq!(now.message.len(), "Mia -4 8 ".len() + 16);
    assert_eq!(now.contacts.len(), 3);
    let mut bad = ready();
    bad.homeserver_url = "::".to_string();
    assert!(matches!(m.send_panic_notification(&bad, &global, None), Err(AppError::BadRequest(_))));
}

#[test]
fn test_message_goes_to_own_address() {
    let m = MatrixService::new();
    let d = m.send_test_message(&ready()).unwrap().unwrap();
    assert_eq!(d.contacts, vec!["@mia:matrix.org"]);
    assert_eq!(
        d.message,
        "Hi 💖, das ist eine Testnachricht aus deinem Mood-Tracker. Alles funktioniert super kawaii!"
    );
    let mut off = ready();
    off.matrix_device_id = None;
    assert_eq!(m.send_test_message(&off), Ok(None));
}

#[test]
fn notify_targets_are_trimmed_addresses() {
    assert_eq!(
        MatrixService::notify_targets(&vec![
            " @a:matrix.org ".to_string(),
            " ".to_string(),
            "nonsense".to_string(),
            "@b:example.org".to_string(),
            "a:matrix.org".to_string(),
            "@nocolon".to_string(),
        ]),
        vec!["@a:matrix.org", "@b:example.org"]
    );
    assert_eq!(MatrixService::notify_targets(&Vec::new()), Vec::<String>::new());
}

#[test]
fn session_identity_is_checked() {
    assert_eq!(MatrixService::check_identity(&session()), Ok(()));
    let mut bad = session();
    bad.user_id = "mia".to_string();
    assert_eq!(
        MatrixService::check_identity(&bad),
        Err(AppError::BadRequest("Matrix User ID ist ungültig.".to_string()))
    );
    bad.user_id = "@mia".to_string();
    assert!(MatrixService::check_identity(&bad).is_err());
}

fn attempt(target: &str, outcome: Delivery) -> Attempt {
    Attempt { target: target.to_string(), outcome }
}

#[test]
fn notify_records_who_was_reached() {
    let m = MatrixService::new();
    let attempts = vec![attempt("@a:m", Delivery::Sent), attempt("@b:m", Delivery::Sent)];
    assert_eq!(m.notify_contacts(&attempts), Ok(vec!["@a:m".to_string(), "@b:m".to_string()]));
    assert_eq!(m.notify_contacts(&Vec::new()), Ok(Vec::new()));
}

#[test]
fn notify_fails_on_first_service_failure() {
    let m = MatrixService::new();
    let attempts = vec![
        attempt("@a:m", Delivery::Sent),
        attempt("@b:m", Delivery::Failed("timeout".to_string())),
        attempt("@c:m", Delivery::Failed("later".to_string())),
    ];
    assert_eq!(m.notify_contacts(&attempts), Err(AppError::Other("timeout".to_string())));
    assert!(MatrixService::ends_run(&Delivery::Failed("x".to_string())));
    assert!(!MatrixService::ends_run(&Delivery::Sent));
}
