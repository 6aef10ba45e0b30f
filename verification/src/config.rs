//! The configuration of the process, with its defaults.

use crate::text::opt_text;
use vstd::prelude::*;

verus! {

#[derive(Clone, Debug, PartialEq, Eq)]
pub struct AppConfig {
    pub database_url: String,
    pub listen_addr: String,
    pub ai_root: String,
    pub repo_root: String,
    pub cookie_secret: String,
}

pub struct AppConfigView {
    pub database_url: Seq<char>,
    pub listen_addr: Seq<char>,
    pub ai_root: Seq<char>,
    pub repo_root: Seq<char>,
    pub cookie_secret: Seq<char>,
}

impl View for AppConfig {
    type V = AppConfigView;

    open spec fn view(&self) -> AppConfigView {
        AppConfigView {
            database_url: self.database_url@,
            listen_addr: self.listen_addr@,
            ai_root: self.ai_root@,
            repo_root: self.repo_root@,
            cookie_secret: self.cookie_secret@,
        }
    }
}

/// A setting, or its default where it is not set.
pub open spec fn or_default(value: Option<Seq<char>>, default: Seq<char>) -> Seq<char> {
    match value {
        Some(v) => v,
        None => default,
    }
}

/// A setting, or its default where it is not set.
pub fn setting(value: Option<String>, default: &str) -> (r: String)
    ensures
        r@ == or_default(opt_text(value), default@),
{
    match value {
        Some(v) => v,
        None => default.to_owned(),
    }
}

impl AppConfig {
    /// The configuration from what the environment sets. What is not set
    /// takes its default: a local database file, the loopback address, the
    /// directory `ai` for the documents, the current directory for the
    /// repository, and a fixed cookie secret.
    pub fn from_values(
        database_url: Option<String>,
        listen_addr: Option<String>,
        ai_root: Option<String>,
        repo_root: Option<String>,
        cookie_secret: Option<String>,
        current_dir: &str,
    ) -> (r: AppConfig)
        ensures
            r@ == (AppConfigView {
                database_url: or_default(opt_text(database_url), "sqlite://mood.db"@),
                listen_addr: or_default(opt_text(listen_addr), "127.0.0.1:3000"@),
                ai_root: or_default(opt_text(ai_root), "ai"@),
                repo_root: or_default(opt_text(repo_root), current_dir@),
                cookie_secret: or_default(
                    opt_text(cookie_secret),
                    "change-me-super-secret-kawaii-cookie"@,
                ),
            }),
    {
        AppConfig {
            database_url: setting(database_url, "sqlite://mood.db"),
            listen_addr: setting(listen_addr, "127.0.0.1:3000"),
            ai_root: setting(ai_root, "ai"),
            repo_root: setting(repo_root, current_dir),
            cookie_secret: setting(cookie_secret, "change-me-super-secret-kawaii-cookie"),
        }
    }
}

} // verus!
