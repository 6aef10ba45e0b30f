use mood::clock::Timestamp;
use mood::models::checkin::{AutoNotifications, Checkin, DrugEntry, PanicEvent};
use mood::models::settings::UserConfig;
use mood::error::AppError;
use mood::models::settings::GlobalConfig;
use mood::routes::admin::{
    apply_global_settings, dashboard_events, format_datetime, global_settings_commit_message,
    is_role_name, manual_commit_message, panic_mood_text, panic_summary, panic_summary_with,
    pick_datetime_text, GlobalSettingsForm, PanicEventSummary,
};
use mood::routes::public::{
    login_failure, login_form, password_mismatch, register_failure, register_form,
    render_login_error, render_register_error, LoginTemplate, RegisterTemplate,
};
use mood::routes::user::{
    apply_settings, build_drug_entries, build_drug_entries_with, checkin_commit_message,
    checkin_location, clamp, clean, clean_at, danger_message, drug_start_times, fill_checkin,
    format_timestamp, is_panic, mood_label, mood_scale, panic_commit_message, panic_event_at,
    panic_event_now, parse_datetime, pick_datetime, record_notifications, route_options,
    safety_answer_words, settings_commit_message, spark_points, status_options, week_moods,
    wants_low_mood_notification, widget_high_percent, widget_high_text, widget_mood_text,
    checkin_detail_with, config_or_default, contacts_text, drug_view, query_flag, trip_summaries,
    trip_summary_with,
    CheckinForm, CheckinSummary, DrugView, MoodScaleMark, SettingsForm, TripSummary,
};

fn form() -> CheckinForm {
    CheckinForm {
        mood: -4,
        high_level: 8,
        safety_answer: "ok".to_string(),
        notes: None,
        status_tags: Vec::new(),
        drugs_substance: Vec::new(),
        drugs_dose: Vec::new(),
        drugs_route: Vec::new(),
        drugs_start_time: Vec::new(),
        drugs_notes: Vec::new(),
    }
}

fn strings(v: &[&str]) -> Vec<String> {
    v.iter().map(|s| s.to_string()).collect()
}

fn checkin_at(secs: i64, mood: i32) -> Checkin {
    let mut c = Checkin::with_identity(format!("c{}", secs), "u1", Timestamp::new(secs, 0));
    c.mood = mood;
    c
}

#[test]
fn moods_have_labels() {
    let expected = [
        (-5, "Katastrophe 😭"),
        (-4, "Sehr schwer 😢"),
        (-3, "Ziemlich mies 😢"),
        (-2, "Traurig 😔"),
        (-1, "Down 😔"),
        (0, "Neutral 😶"),
        (1, "Vorsichtig ok 🙂"),
        (2, "Ganz gut 🙂"),
        (3, "Leicht euphorisch ✨"),
        (4, "Strahlend 💖"),
        (5, "Übertrieben gut ✨"),
        (6, "Übertrieben gut ✨"),
        (-6, "Übertrieben gut ✨"),
    ];
    for (value, label) in expected {
        assert_eq!(mood_label(value), label);
    }
}

#[test]
fn danger_depends_on_mood_and_intensity() {
    let warning = "Achtung: du bist gerade ziemlich down und stark berauscht 😰 – vielleicht wäre es gut, mit jemandem zu reden 💕";
    let steady = "Du scheinst gerade recht stabil zu sein 💖";
    assert_eq!(danger_message(-1, 7), Some(warning.to_string()));
    assert_eq!(danger_message(-5, 10), Some(warning.to_string()));
    assert_eq!(danger_message(-1, 6), None);
    assert_eq!(danger_message(0, 7), None);
    assert_eq!(danger_message(0, 3), Some(steady.to_string()));
    assert_eq!(danger_message(5, 0), Some(steady.to_string()));
    assert_eq!(danger_message(0, 4), None);
    assert_eq!(danger_message(-1, 3), None);
}

#[test]
fn form_options() {
    let options = status_options();
    let values: Vec<&str> = options.iter().map(|o| o.value).collect();
    assert_eq!(values, vec!["calm", "emotional", "overwhelmed", "restless"]);
    assert_eq!(options[0].label, "stabil 😊");
    assert_eq!(options[0].description, "ruhig und geerdet");
    assert_eq!(options[3].label, "körperlich unruhig 🫀");
    assert_eq!(options[3].description, "viel Energie im Körper");
    assert_eq!(
        route_options(),
        vec!["oral", "nasal", "sublingual", "inhalation", "intravenös", "rektal", "transdermal"]
    );
}

#[test]
fn levels_are_clamped() {
    assert_eq!(clamp(-9, -5, 5), -5);
    assert_eq!(clamp(9, -5, 5), 5);
    assert_eq!(clamp(3, -5, 5), 3);
    assert_eq!(clamp(-5, -5, 5), -5);
    assert_eq!(clamp(11, 0, 10), 10);
    assert_eq!(clamp(i32::MIN, 0, 10), 0);
}

#[test]
fn texts_are_cleaned() {
    assert_eq!(clean("  a b "), Some("a b".to_string()));
    assert_eq!(clean("   "), None);
    assert_eq!(clean(""), None);
    let column = strings(&[" x ", " "]);
    assert_eq!(clean_at(&column, 0), Some("x".to_string()));
    assert_eq!(clean_at(&column, 1), None);
    assert_eq!(clean_at(&column, 2), None);
}

#[test]
fn safety_answers() {
    assert_eq!(safety_answer_words("ok"), "Mir geht's gut 💖");
    assert_eq!(safety_answer_words("high"), "Ich bin sehr high, aber komme klar 🌀");
    assert_eq!(safety_answer_words("panic"), "Ich glaube, ich brauche Hilfe 😰");
    assert_eq!(safety_answer_words("anything"), "Ich glaube, ich brauche Hilfe 😰");
    assert!(is_panic("panic"));
    assert!(!is_panic("Panic"));
    assert!(!is_panic("ok"));
}

#[test]
fn datetimes_are_parsed() {
    assert_eq!(parse_datetime(""), None);
    assert_eq!(parse_datetime("2015-05-15T00:00:00Z"), Some(Timestamp::new(1431648000, 0)));
    assert_eq!(parse_datetime("2015-05-15T01:00:00+01:00"), Some(Timestamp::new(1431648000, 0)));
    assert!(parse_datetime("2015-05-15T10:30").is_some());
    assert_eq!(parse_datetime("soon"), None);
    let a = Some(Timestamp::new(1, 0));
    let b = Some(Timestamp::new(2, 0));
    assert_eq!(pick_datetime(true, a, b), None);
    assert_eq!(pick_datetime(false, a, b), a);
    assert_eq!(pick_datetime(false, None, b), b);
    assert_eq!(pick_datetime(false, None, None), None);
}

#[test]
fn drug_rows_become_entries() {
    let mut f = form();
    f.drugs_substance = strings(&[" LSD ", "  ", "MDMA", "Koffein"]);
    f.drugs_dose = strings(&["100ug", "5", " "]);
    f.drugs_route = strings(&["oral", "nasal", ""]);
    f.drugs_start_time = strings(&[" 2015-05-15T00:00:00Z ", "", "bogus"]);
    f.drugs_notes = strings(&["", "x", " viel "]);
    let entries = build_drug_entries(&f);
    assert_eq!(
        entries,
        vec![
            DrugEntry {
                substance: "LSD".to_string(),
                dose: "100ug".to_string(),
                route: Some("oral".to_string()),
                start_time: Some(Timestamp::new(1431648000, 0)),
                notes: None,
            },
            DrugEntry {
                substance: "MDMA".to_string(),
                dose: "unbekannt".to_string(),
                route: None,
                start_time: None,
                notes: Some("viel".to_string()),
            },
            DrugEntry {
                substance: "Koffein".to_string(),
                dose: "unbekannt".to_string(),
                route: None,
                start_time: None,
                notes: None,
            },
        ]
    );
    assert_eq!(
        drug_start_times(&f),
        vec![Some(Timestamp::new(1431648000, 0)), None, None, None]
    );
    let with = build_drug_entries_with(&f, &vec![None, None, Some(Timestamp::new(9, 0))]);
    assert_eq!(with.len(), 3);
    assert_eq!(with[0].start_time, None);
    assert_eq!(with[1].start_time, Some(Timestamp::new(9, 0)));
    assert_eq!(with[2].start_time, None);
    assert_eq!(build_drug_entries(&form()), Vec::new());
}

#[test]
fn form_fills_checkin() {
    let mut f = form();
    f.mood = -9;
    f.high_level = 12;
    f.safety_answer = "panic".to_string();
    f.notes = Some("  müde ".to_string());
    f.status_tags = strings(&["calm", "restless"]);
    let blank = Checkin::with_identity("c1".to_string(), "u1", Timestamp::new(1, 0));
    let drugs = vec![DrugEntry {
        substance: "x".to_string(),
        dose: "1".to_string(),
        route: None,
        start_time: None,
        notes: None,
    }];
    let c = fill_checkin(blank.clone(), &f, drugs.clone());
    assert_eq!(c.id, "c1");
    assert_eq!(c.user_uuid, "u1");
    assert_eq!(c.timestamp, Timestamp::new(1, 0));
    assert_eq!(c.mood, -5);
    assert_eq!(c.high_level, 10);
    assert_eq!(c.safety_answer, Some("Ich glaube, ich brauche Hilfe 😰".to_string()));
    assert!(!c.feels_safe);
    assert_eq!(c.notes, Some("müde".to_string()));
    assert_eq!(c.status_tags, strings(&["calm", "restless"]));
    assert_eq!(c.drugs, drugs);
    assert_eq!(c.auto_notifications, AutoNotifications::default());
    let mut quiet = form();
    quiet.notes = Some("   ".to_string());
    let c = fill_checkin(blank, &quiet, Vec::new());
    assert_eq!(c.mood, -4);
    assert_eq!(c.high_level, 8);
    assert_eq!(c.notes, None);
    assert!(c.feels_safe);
    assert_eq!(c.safety_answer, Some("Mir geht's gut 💖".to_string()));
}

#[test]
fn low_mood_notification_needs_consent_and_threshold() {
    let mut cfg = UserConfig::default();
    assert!(wants_low_mood_notification(&cfg, &checkin_at(1, 0)));
    assert!(!wants_low_mood_notification(&cfg, &checkin_at(1, 1)));
    assert!(!wants_low_mood_notification(&cfg, &checkin_at(1, 2)));
    cfg.auto_notify_on_low_mood = false;
    assert!(!wants_low_mood_notification(&cfg, &checkin_at(1, -5)));
}

#[test]
fn triggers_are_independent() {
    let none = record_notifications(None, None);
    assert_eq!(none, AutoNotifications::default());
    let low = record_notifications(Some(strings(&["@a"])), None);
    assert!(low.mood_threshold_triggered && !low.panic_triggered);
    assert_eq!(low.notified_contacts, strings(&["@a"]));
    let panic = record_notifications(None, Some(strings(&["@b"])));
    assert!(!panic.mood_threshold_triggered && panic.panic_triggered);
    let both = record_notifications(Some(strings(&["@a", "@b"])), Some(strings(&["@b", "@c"])));
    assert!(both.mood_threshold_triggered && both.panic_triggered);
    assert_eq!(both.notified_contacts, strings(&["@a", "@b", "@b", "@c"]));
    let nobody = record_notifications(Some(Vec::new()), Some(strings(&["@c"])));
    assert!(!nobody.mood_threshold_triggered && nobody.panic_triggered);
    assert_eq!(nobody.notified_contacts, strings(&["@c"]));
}

#[test]
fn panic_events_carry_last_levels() {
    let last = {
        let mut c = checkin_at(5, -3);
        c.high_level = 9;
        c
    };
    let e = panic_event_at("e1".to_string(), "u1", Timestamp::new(9, 0), Some(&last), strings(&["@a"]));
    assert_eq!(
        e,
        PanicEvent {
            id: "e1".to_string(),
            user_uuid: "u1".to_string(),
            timestamp: Timestamp::new(9, 0),
            mood_at_panic: Some(-3),
            high_level_at_panic: Some(9),
            notified_contacts: strings(&["@a"]),
        }
    );
    let fresh = panic_event_now("u1", None, Vec::new());
    assert_eq!(fresh.id.len(), 36);
    assert_eq!(fresh.user_uuid, "u1");
    assert_eq!(fresh.mood_at_panic, None);
    assert_eq!(fresh.high_level_at_panic, None);
}

#[test]
fn commit_messages_and_locations() {
    assert_eq!(checkin_commit_message("mia"), "feat: neues Mood-Checkin für mia 🌸");
    assert_eq!(panic_commit_message("mia"), "feat: Panic-Event für mia 😰");
    assert_eq!(settings_commit_message("mia"), "chore: Matrix-Konfiguration von mia aktualisiert 💕");
    assert_eq!(checkin_location("c1"), "/me/checkins/c1");
}

#[test]
fn settings_form_is_applied() {
    let f = SettingsForm {
        display_name: " Mia ".to_string(),
        homeserver_url: " https://m.org ".to_string(),
        matrix_user_id: " @mia:m.org".to_string(),
        matrix_access_token: "tok ".to_string(),
        matrix_device_id: Some("  ".to_string()),
        primary_contact: Some(" @a:m.org ".to_string()),
        emergency_contacts: Some("@b:m.org\r\n\n  @c:m.org  \n".to_string()),
        auto_notify_on_low_mood: None,
        auto_notify_threshold: -2,
    };
    let cfg = apply_settings(UserConfig::for_new_user("mia"), &f);
    assert_eq!(cfg.username, "mia");
    assert_eq!(cfg.display_name, "Mia");
    assert_eq!(cfg.homeserver_url, "https://m.org");
    assert_eq!(cfg.matrix_user_id, "@mia:m.org");
    assert_eq!(cfg.matrix_access_token, "tok");
    assert_eq!(cfg.matrix_device_id, None);
    assert_eq!(cfg.primary_contact, Some("@a:m.org".to_string()));
    assert_eq!(cfg.emergency_contacts, strings(&["@b:m.org", "@c:m.org"]));
    assert!(!cfg.auto_notify_on_low_mood);
    assert_eq!(cfg.auto_notify_threshold, -2);
    let lines = "a\nb\r\n \n\nc";
    let expected: Vec<String> =
        lines.lines().map(|l| l.trim().to_string()).filter(|l| !l.is_empty()).collect();
    let g = SettingsForm { emergency_contacts: Some(lines.to_string()), auto_notify_on_low_mood: Some("on".to_string()), ..f.clone() };
    let cfg = apply_settings(UserConfig::default(), &g);
    assert_eq!(cfg.emergency_contacts, expected);
    assert!(cfg.auto_notify_on_low_mood);
    let h = SettingsForm { emergency_contacts: None, ..f };
    assert!(apply_settings(UserConfig::default(), &h).emergency_contacts.is_empty());
}

#[test]
fn summaries() {
    let mut c = checkin_at(1431648000, -2);
    c.high_level = 4;
    let s = CheckinSummary::with_time(&c, "15.05.2015 00:00".to_string());
    assert_eq!(
        s,
        CheckinSummary {
            id: "c1431648000".to_string(),
            timestamp: "15.05.2015 00:00".to_string(),
            high_level: 4,
            mood_label: "Traurig 😔".to_string(),
        }
    );
    let auto = CheckinSummary::from(&c);
    assert_eq!(auto.id, s.id);
    assert_eq!(auto.mood_label, s.mood_label);
    assert_eq!(auto.timestamp.len(), 16);
    assert_eq!(auto.timestamp, format_timestamp(c.timestamp));
    assert_eq!(
        CheckinSummary::default(),
        CheckinSummary { id: String::new(), timestamp: String::new(), high_level: 0, mood_label: String::new() }
    );
    assert_eq!(format_timestamp(Timestamp::new(i64::MAX, 0)), "");
}

#[test]
fn mood_scale_lights_latest() {
    let scale = mood_scale(Some(-4));
    assert_eq!(scale.len(), 11);
    for (i, mark) in scale.iter().enumerate() {
        assert_eq!(*mark, MoodScaleMark { value: i as i32 - 5, active: i == 1 });
    }
    assert!(mood_scale(None).iter().all(|m| !m.active));
    assert!(mood_scale(Some(9)).iter().all(|m| !m.active));
}

#[test]
fn spark_points_are_ten_newest_oldest_first() {
    let listing: Vec<Checkin> = (0..12).map(|i| checkin_at(100 - i, i as i32 - 5)).collect();
    let points = spark_points(&listing);
    assert_eq!(points.len(), 10);
    assert_eq!(points[0], (Timestamp::new(91, 0), 4));
    assert_eq!(points[9], (Timestamp::new(100, 0), -5));
    let few = spark_points(&listing[..2].to_vec());
    assert_eq!(few, vec![(Timestamp::new(99, 0), -4), (Timestamp::new(100, 0), -5)]);
    assert_eq!(spark_points(&Vec::new()), Vec::new());
}

#[test]
fn widget_texts() {
    let mut c = checkin_at(1, -4);
    c.high_level = 8;
    assert_eq!(widget_mood_text(Some(&c)), "-4");
    assert_eq!(widget_mood_text(None), "?");
    assert_eq!(widget_high_text(Some(&c)), "8/10");
    assert_eq!(widget_high_text(None), "0/10");
    assert_eq!(widget_high_percent(Some(&c)), 80);
    assert_eq!(widget_high_percent(None), 0);
    c.high_level = i32::MAX;
    assert_eq!(widget_high_percent(Some(&c)), i32::MAX);
    c.high_level = i32::MIN;
    assert_eq!(widget_high_percent(Some(&c)), i32::MIN);
}

#[test]
fn week_moods_count_last_seven_days() {
    let now = Timestamp::new(1_000_000, 0);
    let listing = vec![
        checkin_at(1_000_000, 2),
        checkin_at(1_000_000 - 604_800, -4),
        checkin_at(1_000_000 - 604_801, 5),
        checkin_at(2_000_000, 1),
    ];
    assert_eq!(week_moods(&listing, now), (-1, 3));
    assert_eq!(week_moods(&Vec::new(), now), (0, 0));
    assert_eq!(week_moods(&listing, Timestamp::new(i64::MIN, 0)), (4, 4));
}

#[test]
fn admin_helpers() {
    assert!(is_role_name("user"));
    assert!(is_role_name("admin"));
    assert!(!is_role_name("root"));
    assert!(!is_role_name(""));
    let mut e = PanicEvent {
        id: "e".to_string(),
        user_uuid: "u".to_string(),
        timestamp: Timestamp::new(1, 0),
        mood_at_panic: Some(-3),
        high_level_at_panic: None,
        notified_contacts: Vec::new(),
    };
    assert_eq!(panic_mood_text(&e), "-3");
    e.mood_at_panic = None;
    assert_eq!(panic_mood_text(&e), "?");
    let many: Vec<PanicEvent> = (0..7).map(|i| PanicEvent { id: format!("e{}", i), ..e.clone() }).collect();
    let shown = dashboard_events(many.clone());
    assert_eq!(shown, many[..5].to_vec());
    assert_eq!(dashboard_events(many[..3].to_vec()), many[..3].to_vec());
    assert_eq!(format_datetime("gestern".to_string()), "gestern");
    assert_eq!(format_datetime("2015-05-15T00:00:00Z".to_string()).len(), 16);
    assert_eq!(pick_datetime_text("raw".to_string(), Some("shown".to_string())), "shown");
    assert_eq!(pick_datetime_text("raw".to_string(), None), "raw");
    assert_eq!(mood::routes::admin::format_timestamp(Timestamp::new(i64::MIN, 0)), "");
}

#[test]
fn login_form_after_refusal() {
    assert_eq!(
        login_form(),
        LoginTemplate { show_error: false, error_message: String::new(), identifier: String::new() }
    );
    assert_eq!(
        render_login_error("mia".to_string(), "nope".to_string()),
        LoginTemplate { show_error: true, error_message: "nope".to_string(), identifier: "mia".to_string() }
    );
    assert_eq!(
        login_failure("mia".to_string(), AppError::Unauthorized),
        Ok(LoginTemplate {
            show_error: true,
            error_message: "Login fehlgeschlagen 😿 – bitte prüfe deine Daten.".to_string(),
            identifier: "mia".to_string(),
        })
    );
    assert_eq!(
        login_failure("mia".to_string(), AppError::BadRequest("leer".to_string())),
        Ok(render_login_error("mia".to_string(), "leer".to_string()))
    );
    assert_eq!(
        login_failure("mia".to_string(), AppError::Database("down".to_string())),
        Err(AppError::Database("down".to_string()))
    );
    assert_eq!(login_failure("mia".to_string(), AppError::NotFound), Err(AppError::NotFound));
}

#[test]
fn register_form_after_refusal() {
    assert_eq!(
        register_form(),
        RegisterTemplate {
            show_error: false,
            error_message: String::new(),
            username: String::new(),
            email: String::new(),
        }
    );
    let again = RegisterTemplate {
        show_error: true,
        error_message: "Die Passwörter stimmen nicht überein 💔".to_string(),
        username: "mia".to_string(),
        email: "m@x".to_string(),
    };
    assert_eq!(password_mismatch("mia".to_string(), "m@x".to_string(), "a", "b"), Some(again));
    assert_eq!(password_mismatch("mia".to_string(), "m@x".to_string(), "a", "a"), None);
    assert_eq!(
        register_failure("mia".to_string(), "m@x".to_string(), AppError::BadRequest("kurz".to_string())),
        Ok(render_register_error("mia".to_string(), "m@x".to_string(), "kurz".to_string()))
    );
    assert_eq!(
        register_failure("mia".to_string(), "m@x".to_string(), AppError::Unauthorized),
        Err(AppError::Unauthorized)
    );
}

#[test]
fn admin_summaries_and_settings() {
    let e = PanicEvent {
        id: "e".to_string(),
        user_uuid: "u-1".to_string(),
        timestamp: Timestamp::new(1431648000, 0),
        mood_at_panic: Some(2),
        high_level_at_panic: None,
        notified_contacts: Vec::new(),
    };
    assert_eq!(
        panic_summary_with(&e, "then".to_string()),
        PanicEventSummary { when: "then".to_string(), username: "u-1".to_string(), mood_text: "2".to_string() }
    );
    let auto = panic_summary(&e);
    assert_eq!(auto.username, "u-1");
    assert_eq!(auto.mood_text, "2");
    assert_eq!(auto.when.len(), 16);
    let form = GlobalSettingsForm {
        default_low_mood_threshold: -1,
        default_auto_notify_on_low_mood: None,
        low_mood_message_template: "low".to_string(),
        panic_message_template: "panic".to_string(),
    };
    assert_eq!(
        apply_global_settings(form.clone()),
        GlobalConfig {
            default_low_mood_threshold: -1,
            default_auto_notify_on_low_mood: false,
            low_mood_message_template: "low".to_string(),
            panic_message_template: "panic".to_string(),
        }
    );
    let ticked = GlobalSettingsForm { default_auto_notify_on_low_mood: Some("on".to_string()), ..form };
    assert!(apply_global_settings(ticked).default_auto_notify_on_low_mood);
    assert_eq!(manual_commit_message(), "chore: manueller Commit aus Admin-Panel 💾");
    assert_eq!(global_settings_commit_message(), "chore: globale Einstellungen aktualisiert ✨");
}

#[test]
fn contacts_are_shown_one_to_a_line() {
    assert_eq!(contacts_text(&strings(&["@a", "@b", "@c"])), "@a\n@b\n@c");
    assert_eq!(contacts_text(&strings(&["@a"])), "@a");
    assert_eq!(contacts_text(&Vec::new()), "");
    assert_eq!(contacts_text(&strings(&["", "x"])), "\nx");
    assert_eq!(contacts_text(&strings(&["a", "b"])), strings(&["a", "b"]).join("\n"));
}

#[test]
fn query_flags() {
    assert!(query_flag(Some("sent"), "sent"));
    assert!(!query_flag(Some("sent "), "sent"));
    assert!(!query_flag(None, "sent"));
}

#[test]
fn checkin_details() {
    let mut c = checkin_at(5, -2);
    c.high_level = 3;
    c.status_tags = strings(&["calm"]);
    c.notes = Some(String::new());
    c.drugs = vec![
        DrugEntry {
            substance: "LSD".to_string(),
            dose: "100ug".to_string(),
            route: None,
            start_time: None,
            notes: Some("ok".to_string()),
        },
        DrugEntry {
            substance: "MDMA".to_string(),
            dose: "1".to_string(),
            route: Some("oral".to_string()),
            start_time: None,
            notes: Some(String::new()),
        },
    ];
    c.auto_notifications.notified_contacts = strings(&["@a"]);
    let d = checkin_detail_with(&c, "when".to_string());
    assert_eq!(d.timestamp, "when");
    assert_eq!(d.mood, -2);
    assert_eq!(d.high_level, 3);
    assert_eq!(d.status_tags, strings(&["calm"]));
    assert!(d.has_status_tags);
    assert_eq!(d.safety_answer, "Kein Safety-Check angegeben 🌱");
    assert!(!d.has_notes);
    assert_eq!(d.notes, "");
    assert!(d.has_drugs);
    assert_eq!(
        d.drugs,
        vec![
            DrugView {
                substance: "LSD".to_string(),
                dose: "100ug".to_string(),
                route: "n/a".to_string(),
                has_notes: true,
                notes: "ok".to_string(),
            },
            DrugView {
                substance: "MDMA".to_string(),
                dose: "1".to_string(),
                route: "oral".to_string(),
                has_notes: false,
                notes: String::new(),
            },
        ]
    );
    assert_eq!(drug_view(&c.drugs[0]), d.drugs[0]);
    assert!(d.has_notifications);
    assert_eq!(d.notifications, strings(&["@a"]));
    let plain = checkin_detail_with(&checkin_at(5, 0), String::new());
    assert!(!plain.has_status_tags && !plain.has_drugs && !plain.has_notifications && !plain.has_notes);
}

#[test]
fn trips_are_checkins_with_drugs() {
    let mut with = checkin_at(1431648000, 3);
    with.drugs = vec![DrugEntry {
        substance: "LSD".to_string(),
        dose: "1".to_string(),
        route: None,
        start_time: None,
        notes: None,
    }];
    let without = checkin_at(7, 0);
    assert_eq!(
        trip_summary_with(&with, "day".to_string()),
        Some(TripSummary {
            title: "day".to_string(),
            main_substance: "LSD".to_string(),
            mood_span: "Leicht euphorisch ✨".to_string(),
            checkin_count: 1,
        })
    );
    assert_eq!(trip_summary_with(&without, "day".to_string()), None);
    let trips = trip_summaries(&vec![without.clone(), with.clone(), without, with]);
    assert_eq!(trips.len(), 2);
    assert_eq!(trips[0].main_substance, "LSD");
    assert_eq!(trips[0].title.len(), 10);
    assert_eq!(trips[1].checkin_count, 1);
}

#[test]
fn pages_fall_back_to_default_configuration() {
    let mut cfg = UserConfig::default();
    cfg.display_name = "Mia".to_string();
    assert_eq!(config_or_default(Ok(cfg.clone()), "mia"), cfg);
    assert_eq!(config_or_default(Err(AppError::NotFound), "mia"), UserConfig::for_new_user("mia"));
    assert_eq!(
        config_or_default(Err(AppError::Corrupt("x".to_string())), "mia"),
        UserConfig::for_new_user("mia")
    );
}
