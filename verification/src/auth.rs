//! Accounts: who the caller is, what a registration and a login must meet,
//! and how passwords are kept.

use crate::clock::Timestamp;
use crate::error::{AppError, AppErrorView};
use crate::ids::{fresh_id, is_uuid_text};
use crate::models::session::Session;
use crate::models::user::UserRole;
use crate::text::{concat, contains, has_infix, same_text, trim, trimmed};
use argon2::password_hash::rand_core::OsRng;
use argon2::password_hash::{PasswordHash, PasswordHasher, PasswordVerifier, SaltString};
use argon2::Argon2;
use vstd::prelude::*;

verus! {

/// The least number of bytes a password must have.
pub const MIN_PASSWORD_LENGTH: usize = 8;

/// The name of the cookie that carries the session.
pub open spec fn session_cookie_name() -> Seq<char> {
    "kawaii_session"@
}

/// Whether `argon2` finds that `password` belongs to the stored hash `hash`,
/// or its complaint where `hash` is no password hash.
pub uninterp spec fn password_verdict(hash: Seq<char>, password: Seq<char>) -> Result<
    bool,
    Seq<char>,
>;

/// `argon2` finds that `password` belongs to the stored hash `hash`.
pub open spec fn verifies(hash: Seq<char>, password: Seq<char>) -> bool {
    password_verdict(hash, password) == Ok::<bool, Seq<char>>(true)
}

/// Parses the stored hash with `PasswordHash::new` and checks the password
/// against it with `Argon2::default().verify_password`. A hash that does not
/// parse gives the parser's complaint; any failure of the check counts as a
/// password that does not belong. The contract names the result: it depends
/// on the two texts alone.
#[verifier::external_body]
fn check_password(hash: &str, password: &str) -> (r: Result<bool, String>)
    ensures
        match password_verdict(hash@, password@) {
            Ok(b) => r == Ok::<bool, String>(b),
            Err(why) => r is Err && r->Err_0@ == why,
        },
{
    let parsed = PasswordHash::new(hash).map_err(|e| e.to_string())?;
    Ok(Argon2::default().verify_password(password.as_bytes(), &parsed).is_ok())
}

/// Draws a salt with `SaltString::generate` from the system's random source
/// and hashes the password with `Argon2::default().hash_password`. The salt is
/// random, so two calls differ; claimed is what `argon2` documents of every
/// hash it hands out: the password it was made from verifies against it. A
/// failure comes back as its text.
#[verifier::external_body]
fn derive_hash(password: &str) -> (r: Result<String, String>)
    ensures
        r matches Ok(hash) ==> verifies(hash@, password@),
{
    let salt = SaltString::generate(&mut OsRng);
    match Argon2::default().hash_password(password.as_bytes(), &salt) {
        Ok(hash) => Ok(hash.to_string()),
        Err(e) => Err(e.to_string()),
    }
}

/// The caller, once known.
#[derive(Clone, Debug, PartialEq, Eq)]
pub struct AuthenticatedUser {
    pub id: i64,
    pub uuid: String,
    pub username: String,
    pub role: UserRole,
}

pub struct AuthenticatedUserView {
    pub id: int,
    pub uuid: Seq<char>,
    pub username: Seq<char>,
    pub role: UserRole,
}

impl View for AuthenticatedUser {
    type V = AuthenticatedUserView;

    open spec fn view(&self) -> AuthenticatedUserView {
        AuthenticatedUserView {
            id: self.id as int,
            uuid: self.uuid@,
            username: self.username@,
            role: self.role,
        }
    }
}

/// The caller of a request: known or not.
#[derive(Clone, Debug, PartialEq, Eq)]
pub struct CurrentUser(pub Option<AuthenticatedUser>);

impl Default for CurrentUser {
    fn default() -> (r: CurrentUser)
        ensures
            r.0 is None,
    {
        CurrentUser(None)
    }
}

/// An account row as far as a login reads it.
#[derive(Clone, Debug, PartialEq, Eq)]
pub struct AccountRow {
    pub id: i64,
    pub uuid: String,
    pub username: String,
    pub role: String,
    pub password_hash: String,
}

/// An account that passed registration and has yet to be stored.
#[derive(Clone, Debug, PartialEq, Eq)]
pub struct NewAccount {
    pub uuid: String,
    pub username: String,
    pub email: String,
    pub password_hash: String,
    pub role: UserRole,
    pub created_at: Timestamp,
}

/// The attributes of the session cookie.
#[derive(Clone, Debug, PartialEq, Eq)]
pub struct SessionCookie {
    pub name: String,
    pub value: String,
    pub path: String,
    pub http_only: bool,
    pub same_site_lax: bool,
}

/// The role that a stored name stands for: `admin` is the administrator,
/// everything else an ordinary user.
pub open spec fn role_of(name: Seq<char>) -> UserRole {
    if name == "admin"@ {
        UserRole::Admin
    } else {
        UserRole::User
    }
}

/// The number of bytes of a text in UTF-8, as the machine counts them.
pub open spec fn byte_len(s: Seq<char>) -> usize {
    vstd::utf8::encode_utf8(s).len() as usize
}

/// What is said of a password that is too short.
pub open spec fn short_password() -> AppErrorView {
    AppErrorView::BadRequest("Passwort muss mindestens 8 Zeichen lang sein."@)
}

/// What is said of a registration without name or address.
pub open spec fn missing_fields() -> AppErrorView {
    AppErrorView::BadRequest("Bitte Nutzername und E-Mail ausfüllen."@)
}

/// What is said of an address without `@`.
pub open spec fn bad_email() -> AppErrorView {
    AppErrorView::BadRequest("Bitte eine gültige E-Mail-Adresse eingeben."@)
}

/// What is said of a login without a name.
pub open spec fn missing_identifier() -> AppErrorView {
    AppErrorView::BadRequest("Bitte Nutzername oder E-Mail eingeben."@)
}

/// What is said of a name or address that is taken.
pub open spec fn already_taken() -> AppErrorView {
    AppErrorView::BadRequest("Nutzername oder E-Mail bereits vergeben."@)
}

/// What a registration must meet, in the order in which it is checked: a
/// name and an address, an `@` in the address, a password long enough.
pub open spec fn registration_fault(
    username: Seq<char>,
    email: Seq<char>,
    password: Seq<char>,
) -> Option<AppErrorView> {
    if trimmed(username).len() == 0 || trimmed(email).len() == 0 {
        Some(missing_fields())
    } else if !has_infix(trimmed(email), "@"@) {
        Some(bad_email())
    } else if byte_len(password) < MIN_PASSWORD_LENGTH {
        Some(short_password())
    } else {
        None
    }
}

/// Whether a failure of the account store says that a name or address is
/// taken: its code is 2067, or its message speaks of `UNIQUE`.
pub open spec fn is_unique_violation(code: Option<Seq<char>>, message: Seq<char>) -> bool {
    code == Some("2067"@) || has_infix(message, "UNIQUE"@)
}

/// What a login comes to, given the account found under the identifier and
/// what the password check said.
pub open spec fn login_outcome(row: Option<AccountRow>, verdict: Result<bool, Seq<char>>) -> Result<
    AuthenticatedUserView,
    AppErrorView,
> {
    match row {
        None => Err(AppErrorView::Unauthorized),
        Some(account) => match verdict {
            Err(why) => Err(AppErrorView::Other(why)),
            Ok(false) => Err(AppErrorView::Unauthorized),
            Ok(true) => Ok(
                AuthenticatedUserView {
                    id: account.id as int,
                    uuid: account.uuid@,
                    username: account.username@,
                    role: role_of(account.role@),
                },
            ),
        },
    }
}

/// `r` is the outcome `o`.
pub open spec fn is_login(
    r: Result<AuthenticatedUser, AppError>,
    o: Result<AuthenticatedUserView, AppErrorView>,
) -> bool {
    match o {
        Ok(user) => r is Ok && r->Ok_0@ == user,
        Err(e) => r is Err && r->Err_0@ == e,
    }
}

impl CurrentUser {
    /// The caller, or `Unauthorized` where the caller is not known.
    pub fn require_user(&self) -> (r: Result<&AuthenticatedUser, AppError>)
        ensures
            self.0 is Some <==> r is Ok,
            r matches Ok(user) ==> *user == self.0->Some_0,
            r matches Err(e) ==> e@ == AppErrorView::Unauthorized,
    {
        match &self.0 {
            Some(user) => Ok(user),
            None => Err(AppError::Unauthorized),
        }
    }

    /// The caller if an administrator; `Unauthorized` where the caller is not
    /// known, `Forbidden` where the caller is an ordinary user.
    pub fn require_admin(&self) -> (r: Result<&AuthenticatedUser, AppError>)
        ensures
            (self.0 matches Some(user) && user.role == UserRole::Admin) <==> r is Ok,
            r matches Ok(user) ==> *user == self.0->Some_0,
            r matches Err(e) ==> e@ == if self.0 is None {
                AppErrorView::Unauthorized
            } else {
                AppErrorView::Forbidden
            },
    {
        match self.require_user() {
            Ok(user) => {
                if user.role == UserRole::Admin {
                    Ok(user)
                } else {
                    Err(AppError::Forbidden)
                }
            },
            Err(e) => Err(e),
        }
    }
}

pub fn unauthorized() -> (e: AppError)
    ensures
        e@ == AppErrorView::Unauthorized,
{
    AppError::Unauthorized
}

pub fn forbidden() -> (e: AppError)
    ensures
        e@ == AppErrorView::Forbidden,
{
    AppError::Forbidden
}

/// The role that a stored name stands for.
pub fn parse_role(role: &str) -> (r: UserRole)
    ensures
        r == role_of(role@),
{
    if same_text(role, "admin") {
        UserRole::Admin
    } else {
        UserRole::User
    }
}

/// A password must have at least eight bytes.
pub fn validate_password(password: &str) -> (r: Result<(), AppError>)
    ensures
        byte_len(password@) >= MIN_PASSWORD_LENGTH <==> r is Ok,
        r matches Err(e) ==> e@ == short_password(),
{
    if password.len() < MIN_PASSWORD_LENGTH {
        Err(AppError::BadRequest("Passwort muss mindestens 8 Zeichen lang sein.".to_owned()))
    } else {
        Ok(())
    }
}

/// Whether a failure of the account store says that a name or address is
/// taken.
pub fn matches_unique_constraint(code: Option<&str>, message: &str) -> (r: bool)
    ensures
        r == is_unique_violation(code.deep_view(), message@),
{
    let by_code = match code {
        Some(c) => same_text(c, "2067"),
        None => false,
    };
    by_code || contains(message, "UNIQUE")
}

/// The error for a failure of the account store: a taken name or address is
/// the caller's fault, anything else the store's.
pub fn match_unique_error(code: Option<&str>, message: &str) -> (e: AppError)
    ensures
        e@ == if is_unique_violation(code.deep_view(), message@) {
            already_taken()
        } else {
            AppErrorView::Database(message@)
        },
{
    if matches_unique_constraint(code, message) {
        AppError::BadRequest("Nutzername oder E-Mail bereits vergeben.".to_owned())
    } else {
        AppError::Database(message.to_owned())
    }
}

/// The hash under which a password is kept: one against which the password
/// verifies. The salt is random: two calls differ. A failure of the hashing
/// is reported as it is.
pub fn hash_password(password: &str) -> (r: Result<String, AppError>)
    ensures
        r matches Ok(hash) ==> verifies(hash@, password@),
        r matches Err(e) ==> e@ is Other,
{
    match derive_hash(password) {
        Ok(hash) => Ok(hash),
        Err(why) => Err(AppError::Other(why)),
    }
}

/// Whether the password belongs to the stored hash; a stored hash that is
/// none is an error.
pub fn verify_password(hash: &str, password: &str) -> (r: Result<bool, AppError>)
    ensures
        match password_verdict(hash@, password@) {
            Ok(b) => r == Ok::<bool, AppError>(b),
            Err(why) => r is Err && r->Err_0@ == AppErrorView::Other(why),
        },
{
    match check_password(hash, password) {
        Ok(b) => Ok(b),
        Err(why) => Err(AppError::Other(why)),
    }
}

/// Checks a registration and hands back the name and the address, trimmed.
pub fn validate_registration(username: &str, email: &str, password: &str) -> (r: Result<
    (String, String),
    AppError,
>)
    ensures
        registration_fault(username@, email@, password@) is None <==> r is Ok,
        r matches Ok(pair) ==> pair.0@ == trimmed(username@) && pair.1@ == trimmed(email@),
        r matches Err(e) ==> Some(e@) == registration_fault(username@, email@, password@),
{
    let name = trim(username);
    let address = trim(email);
    if name.as_str().is_empty() || address.as_str().is_empty() {
        return Err(AppError::BadRequest("Bitte Nutzername und E-Mail ausfüllen.".to_owned()));
    }
    if !contains(address.as_str(), "@") {
        return Err(
            AppError::BadRequest("Bitte eine gültige E-Mail-Adresse eingeben.".to_owned()),
        );
    }
    match validate_password(password) {
        Ok(()) => Ok((name, address)),
        Err(e) => Err(e),
    }
}

/// The account for a registration that passed the checks, with the hash
/// under which its password is kept, a fresh identifier and the instant of
/// its making.
pub fn new_account(username: String, email: String, password_hash: String, uuid: String, now:
    Timestamp) -> (r: NewAccount)
    ensures
        r.uuid == uuid,
        r.username == username,
        r.email == email,
        r.password_hash == password_hash,
        r.role == UserRole::User,
        r.created_at == now,
{
    NewAccount { uuid, username, email, password_hash, role: UserRole::User, created_at: now }
}

/// A registration: checked, the password hashed, the account given a fresh
/// identifier and stamped with the current instant. A registration that fails
/// a check is refused with the check's error before anything is hashed.
pub fn register_user(username: &str, email: &str, password: &str) -> (r: Result<
    NewAccount,
    AppError,
>)
    ensures
        r is Ok ==> registration_fault(username@, email@, password@) is None,
        r matches Ok(account) ==> account.username@ == trimmed(username@) && account.email@
            == trimmed(email@) && account.role == UserRole::User && is_uuid_text(account.uuid@),
        registration_fault(username@, email@, password@) matches Some(fault) ==> (r matches Err(e)
            && e@ == fault),
{
    match validate_registration(username, email, password) {
        Ok((name, address)) => match hash_password(password) {
            Ok(hash) => Ok(new_account(name, address, hash, fresh_id(), Timestamp::now())),
            Err(e) => Err(e),
        },
        Err(e) => Err(e),
    }
}

/// The caller that a stored account stands for.
pub fn registered(id: i64, account: &NewAccount) -> (r: AuthenticatedUser)
    ensures
        r@ == (AuthenticatedUserView {
            id: id as int,
            uuid: account.uuid@,
            username: account.username@,
            role: UserRole::User,
        }),
{
    AuthenticatedUser {
        id,
        uuid: account.uuid.clone(),
        username: account.username.clone(),
        role: UserRole::User,
    }
}

/// The identifier of a login, trimmed; one that is blank is refused.
pub fn login_identifier(identifier: &str) -> (r: Result<String, AppError>)
    ensures
        trimmed(identifier@).len() > 0 <==> r is Ok,
        r matches Ok(id) ==> id@ == trimmed(identifier@),
        r matches Err(e) ==> e@ == missing_identifier(),
{
    let id = trim(identifier);
    if id.as_str().is_empty() {
        Err(AppError::BadRequest("Bitte Nutzername oder E-Mail eingeben.".to_owned()))
    } else {
        Ok(id)
    }
}

/// The caller that an account row stands for.
pub fn user_from_row(row: &AccountRow) -> (r: AuthenticatedUser)
    ensures
        r@ == (AuthenticatedUserView {
            id: row.id as int,
            uuid: row.uuid@,
            username: row.username@,
            role: role_of(row.role@),
        }),
{
    AuthenticatedUser {
        id: row.id,
        uuid: row.uuid.clone(),
        username: row.username.clone(),
        role: parse_role(row.role.as_str()),
    }
}

/// What a login comes to, given the account found and what the password
/// check said.
pub fn conclude_login(row: Option<&AccountRow>, verdict: Result<bool, String>) -> (r: Result<
    AuthenticatedUser,
    AppError,
>)
    ensures
        is_login(
            r,
            login_outcome(
                match row {
                    Some(a) => Some(*a),
                    None => None,
                },
                match verdict {
                    Ok(b) => Ok(b),
                    Err(why) => Err(why@),
                },
            ),
        ),
{
    match row {
        None => Err(AppError::Unauthorized),
        Some(account) => match verdict {
            Err(why) => Err(AppError::Other(why)),
            Ok(false) => Err(AppError::Unauthorized),
            Ok(true) => Ok(user_from_row(account)),
        },
    }
}

/// A login: no account under the identifier and a password that does not
/// belong are both `Unauthorized`; a stored hash that is none is an error.
pub fn authenticate_user(row: Option<&AccountRow>, password: &str) -> (r: Result<
    AuthenticatedUser,
    AppError,
>)
    ensures
        is_login(
            r,
            match row {
                Some(a) => login_outcome(Some(*a), password_verdict(a.password_hash@, password@)),
                None => Err(AppErrorView::Unauthorized),
            },
        ),
{
    match row {
        None => Err(AppError::Unauthorized),
        Some(account) => {
            let verdict = check_password(account.password_hash.as_str(), password);
            conclude_login(row, verdict)
        },
    }
}

/// A new session of an account: a fresh identifier, made and last seen at
/// `now`, without an end.
pub fn session_at(id: String, user_id: i64, now: Timestamp) -> (r: Session)
    ensures
        r.id == id,
        r.user_id == user_id,
        r.created_at == now,
        r.last_seen_at == now,
        r.expires_at is None,
{
    Session { id, user_id, created_at: now, last_seen_at: now, expires_at: None }
}

/// A new session of an account, made now under a fresh identifier.
pub fn create_session(user_id: i64) -> (r: Session)
    ensures
        r.user_id == user_id,
        is_uuid_text(r.id@),
        r.created_at == r.last_seen_at,
        r.expires_at is None,
{
    session_at(fresh_id(), user_id, Timestamp::now())
}

/// The cookie that carries a session: for the whole site, kept from scripts,
/// sent along on ordinary navigation only.
pub fn apply_session_cookie(session_id: &str) -> (r: SessionCookie)
    ensures
        r.name@ == session_cookie_name(),
        r.value@ == session_id@,
        r.path@ == "/"@,
        r.http_only,
        r.same_site_lax,
{
    SessionCookie {
        name: "kawaii_session".to_owned(),
        value: session_id.to_owned(),
        path: "/".to_owned(),
        http_only: true,
        same_site_lax: true,
    }
}

/// The cookie whose removal ends a session at the caller's side: the
/// session's cookie without a value.
pub fn clear_session_cookie() -> (r: SessionCookie)
    ensures
        r.name@ == session_cookie_name(),
        r.value@ == ""@,
        r.path@ == "/"@,
{
    SessionCookie {
        name: "kawaii_session".to_owned(),
        value: "".to_owned(),
        path: "/".to_owned(),
        http_only: false,
        same_site_lax: false,
    }
}

/// The message of the commit that records a new account.
pub fn registration_commit_message(username: &str) -> (r: String)
    ensures
        r@ == "feat: neuer Account für "@ + username@ + " 💖"@,
{
    let a = concat("feat: neuer Account für ", username);
    concat(a.as_str(), " 💖")
}

} // verus!
