//! The process-wide configuration and the configuration of one tenant.

use crate::text::{opt_text, texts};
use vstd::prelude::*;

verus! {

/// Process-wide defaults and message templates.
#[derive(Clone, Debug, PartialEq, Eq)]
pub struct GlobalConfig {
    pub default_low_mood_threshold: i32,
    pub default_auto_notify_on_low_mood: bool,
    pub low_mood_message_template: String,
    pub panic_message_template: String,
}

pub struct GlobalConfigView {
    pub default_low_mood_threshold: int,
    pub default_auto_notify_on_low_mood: bool,
    pub low_mood_message_template: Seq<char>,
    pub panic_message_template: Seq<char>,
}

impl View for GlobalConfig {
    type V = GlobalConfigView;

    open spec fn view(&self) -> GlobalConfigView {
        GlobalConfigView {
            default_low_mood_threshold: self.default_low_mood_threshold as int,
            default_auto_notify_on_low_mood: self.default_auto_notify_on_low_mood,
            low_mood_message_template: self.low_mood_message_template@,
            panic_message_template: self.panic_message_template@,
        }
    }
}

impl GlobalConfigView {
    /// The configuration that is written where none exists yet.
    pub open spec fn initial() -> GlobalConfigView {
        GlobalConfigView {
            default_low_mood_threshold: 1,
            default_auto_notify_on_low_mood: true,
            low_mood_message_template: "Hey 💕, hier ist der Mood-Tracker von {username}. Stimmung: {mood}, Rausch: {high_level}/10 am {timestamp}. Nur ein kleiner Hinweis, dass ein kurzer Check-in gut tun könnte 🌸"@,
            panic_message_template: "ALARM 💖: {username} hat in der App 'Ich brauche Hilfe' gedrückt. Stimmung: {mood} / Rausch: {high_level}/10. Vielleicht magst du kurz nach ihnen schauen 💕"@,
        }
    }
}

impl Default for GlobalConfig {
    fn default() -> (r: GlobalConfig)
        ensures
            r@ == GlobalConfigView::initial(),
    {
        GlobalConfig {
            default_low_mood_threshold: 1,
            default_auto_notify_on_low_mood: true,
            low_mood_message_template: "Hey 💕, hier ist der Mood-Tracker von {username}. Stimmung: {mood}, Rausch: {high_level}/10 am {timestamp}. Nur ein kleiner Hinweis, dass ein kurzer Check-in gut tun könnte 🌸".to_owned(),
            panic_message_template: "ALARM 💖: {username} hat in der App 'Ich brauche Hilfe' gedrückt. Stimmung: {mood} / Rausch: {high_level}/10. Vielleicht magst du kurz nach ihnen schauen 💕".to_owned(),
        }
    }
}

/// What one tenant has set: how to reach the messaging service, whom to tell,
/// and when.
#[derive(Clone, Debug, PartialEq, Eq)]
pub struct UserConfig {
    pub username: String,
    pub display_name: String,
    pub homeserver_url: String,
    pub matrix_user_id: String,
    pub matrix_access_token: String,
    pub matrix_device_id: Option<String>,
    pub primary_contact: Option<String>,
    pub emergency_contacts: Vec<String>,
    pub auto_notify_on_low_mood: bool,
    pub auto_notify_threshold: i32,
}

pub struct UserConfigView {
    pub username: Seq<char>,
    pub display_name: Seq<char>,
    pub homeserver_url: Seq<char>,
    pub matrix_user_id: Seq<char>,
    pub matrix_access_token: Seq<char>,
    pub matrix_device_id: Option<Seq<char>>,
    pub primary_contact: Option<Seq<char>>,
    pub emergency_contacts: Seq<Seq<char>>,
    pub auto_notify_on_low_mood: bool,
    pub auto_notify_threshold: int,
}

impl View for UserConfig {
    type V = UserConfigView;

    open spec fn view(&self) -> UserConfigView {
        UserConfigView {
            username: self.username@,
            display_name: self.display_name@,
            homeserver_url: self.homeserver_url@,
            matrix_user_id: self.matrix_user_id@,
            matrix_access_token: self.matrix_access_token@,
            matrix_device_id: opt_text(self.matrix_device_id),
            primary_contact: opt_text(self.primary_contact),
            emergency_contacts: texts(self.emergency_contacts@),
            auto_notify_on_low_mood: self.auto_notify_on_low_mood,
            auto_notify_threshold: self.auto_notify_threshold as int,
        }
    }
}

impl UserConfigView {
    /// The configuration of a tenant of whom nothing is known.
    pub open spec fn initial() -> UserConfigView {
        UserConfigView {
            username: "cutie"@,
            display_name: "Cutie"@,
            homeserver_url: "https://matrix.org"@,
            matrix_user_id: "@cutie:matrix.org"@,
            matrix_access_token: "SECRET"@,
            matrix_device_id: None,
            primary_contact: None,
            emergency_contacts: Seq::empty(),
            auto_notify_on_low_mood: true,
            auto_notify_threshold: 1,
        }
    }

    /// The configuration that a new tenant starts with: the defaults, under
    /// the tenant's own name.
    pub open spec fn seeded(name: Seq<char>) -> UserConfigView {
        UserConfigView { username: name, display_name: name, ..UserConfigView::initial() }
    }
}

impl Default for UserConfig {
    fn default() -> (r: UserConfig)
        ensures
            r@ == UserConfigView::initial(),
    {
        let r = UserConfig {
            username: "cutie".to_owned(),
            display_name: "Cutie".to_owned(),
            homeserver_url: "https://matrix.org".to_owned(),
            matrix_user_id: "@cutie:matrix.org".to_owned(),
            matrix_access_token: "SECRET".to_owned(),
            matrix_device_id: None,
            primary_contact: None,
            emergency_contacts: Vec::new(),
            auto_notify_on_low_mood: true,
            auto_notify_threshold: 1,
        };
        assert(texts(r.emergency_contacts@) =~= Seq::empty());
        r
    }
}

impl UserConfig {
    /// The starting configuration of a tenant called `username`.
    pub fn for_new_user(username: &str) -> (r: UserConfig)
        ensures
            r@ == UserConfigView::seeded(username@),
    {
        let mut r = UserConfig::default();
        r.username = username.to_owned();
        r.display_name = username.to_owned();
        r
    }
}

} // verus!
