use mood::auth::{
    apply_session_cookie, authenticate_user, clear_session_cookie, conclude_login, create_session,
    forbidden, hash_password, login_identifier, match_unique_error, matches_unique_constraint,
    new_account, parse_role, register_user, registered, registration_commit_message, session_at,
    unauthorized, user_from_row, validate_password, validate_registration, verify_password, AccountRow,
    AuthenticatedUser, CurrentUser, MIN_PASSWORD_LENGTH,
};
use mood::clock::Timestamp;
use mood::error::AppError;
use mood::models::user::UserRole;

fn user(role: UserRole) -> AuthenticatedUser {
    AuthenticatedUser { id: 7, uuid: "u-7".to_string(), username: "mia".to_string(), role }
}

fn row(hash: &str, role: &str) -> AccountRow {
    AccountRow {
        id: 7,
        uuid: "u-7".to_string(),
        username: "mia".to_string(),
        role: role.to_string(),
        password_hash: hash.to_string(),
    }
}

#[test]
fn require_user_needs_a_known_caller() {
    assert_eq!(CurrentUser(None).require_user(), Err(AppError::Unauthorized));
    assert_eq!(CurrentUser::default().require_user(), Err(AppError::Unauthorized));
    let known = CurrentUser(Some(user(UserRole::User)));
    assert_eq!(known.require_user(), Ok(&user(UserRole::User)));
}

#[test]
fn require_admin_needs_the_role() {
    assert_eq!(CurrentUser(None).require_admin(), Err(AppError::Unauthorized));
    assert_eq!(CurrentUser(Some(user(UserRole::User))).require_admin(), Err(AppError::Forbidden));
    let admin = CurrentUser(Some(user(UserRole::Admin)));
    assert_eq!(admin.require_admin(), Ok(&user(UserRole::Admin)));
}

#[test]
fn refusals() {
    assert_eq!(unauthorized(), AppError::Unauthorized);
    assert_eq!(forbidden(), AppError::Forbidden);
}

#[test]
fn roles_are_parsed() {
    assert_eq!(parse_role("admin"), UserRole::Admin);
    assert_eq!(parse_role("user"), UserRole::User);
    assert_eq!(parse_role("Admin"), UserRole::User);
    assert_eq!(parse_role(""), UserRole::User);
}

#[test]
fn passwords_need_eight_bytes() {
    assert_eq!(MIN_PASSWORD_LENGTH, 8);
    assert_eq!(validate_password("12345678"), Ok(()));
    assert_eq!(
        validate_password("1234567"),
        Err(AppError::BadRequest("Passwort muss mindestens 8 Zeichen lang sein.".to_string()))
    );
    assert_eq!(validate_password("ääää"), Ok(()));
    assert!(validate_password("äää").is_err());
    assert!(validate_password("").is_err());
}

#[test]
fn unique_violations_are_recognised() {
    assert!(matches_unique_constraint(Some("2067"), "whatever"));
    assert!(matches_unique_constraint(None, "UNIQUE constraint failed: users.email"));
    assert!(matches_unique_constraint(Some("1"), "is not UNIQUE"));
    assert!(!matches_unique_constraint(Some("1555"), "FOREIGN KEY constraint failed"));
    assert!(!matches_unique_constraint(None, "unique"));
    assert_eq!(
        match_unique_error(Some("2067"), "x"),
        AppError::BadRequest("Nutzername oder E-Mail bereits vergeben.".to_string())
    );
    assert_eq!(match_unique_error(None, "disk I/O error"), AppError::Database("disk I/O error".to_string()));
}

#[test]
fn hashes_verify_their_password() {
    let hash = hash_password("correct horse").unwrap();
    assert!(hash.starts_with("$argon2"));
    assert_ne!(hash, "correct horse");
    assert_ne!(hash_password("correct horse").unwrap(), hash);
    assert_eq!(verify_password(&hash, "correct horse"), Ok(true));
    for password in ["", "ä", "a b\tc", "12345678901234567890123456789012345678901234567890"] {
        let made = hash_password(password).unwrap();
        assert_eq!(verify_password(&made, password), Ok(true));
    }
    assert_eq!(verify_password(&hash, "wrong horse"), Ok(false));
    assert!(matches!(verify_password("not a hash", "x"), Err(AppError::Other(_))));
}

#[test]
fn registration_is_checked_in_order() {
    assert_eq!(
        validate_registration("  ", "a@b", "12345678"),
        Err(AppError::BadRequest("Bitte Nutzername und E-Mail ausfüllen.".to_string()))
    );
    assert_eq!(
        validate_registration("mia", " ", "1"),
        Err(AppError::BadRequest("Bitte Nutzername und E-Mail ausfüllen.".to_string()))
    );
    assert_eq!(
        validate_registration("mia", "mia.example", "1"),
        Err(AppError::BadRequest("Bitte eine gültige E-Mail-Adresse eingeben.".to_string()))
    );
    assert_eq!(
        validate_registration("mia", "mia@example", "1"),
        Err(AppError::BadRequest("Passwort muss mindestens 8 Zeichen lang sein.".to_string()))
    );
    assert_eq!(
        validate_registration(" mia ", " mia@example.org ", "12345678"),
        Ok(("mia".to_string(), "mia@example.org".to_string()))
    );
}

#[test]
fn registration_makes_an_account() {
    let account = register_user(" mia ", "mia@example.org", "12345678").unwrap();
    assert_eq!(account.username, "mia");
    assert_eq!(account.email, "mia@example.org");
    assert_eq!(account.role, UserRole::User);
    assert_eq!(account.uuid.len(), 36);
    assert_eq!(verify_password(&account.password_hash, "12345678"), Ok(true));
    assert!(matches!(register_user("mia", "nope", "12345678"), Err(AppError::BadRequest(_))));
    let made = new_account(
        "a".to_string(),
        "b".to_string(),
        "c".to_string(),
        "d".to_string(),
        Timestamp::new(1, 2),
    );
    assert_eq!(made.uuid, "d");
    assert_eq!(made.created_at, Timestamp::new(1, 2));
    assert_eq!(
        registered(9, &made),
        AuthenticatedUser { id: 9, uuid: "d".to_string(), username: "a".to_string(), role: UserRole::User }
    );
    assert_eq!(registration_commit_message("mia"), "feat: neuer Account für mia 💖");
}

#[test]
fn login_identifier_is_trimmed() {
    assert_eq!(login_identifier(" mia "), Ok("mia".to_string()));
    assert_eq!(
        login_identifier(" \t"),
        Err(AppError::BadRequest("Bitte Nutzername oder E-Mail eingeben.".to_string()))
    );
}

#[test]
fn login_outcomes() {
    let hash = hash_password("12345678").unwrap();
    let account = row(&hash, "admin");
    assert_eq!(authenticate_user(Some(&account), "12345678"), Ok(user(UserRole::Admin)));
    assert_eq!(authenticate_user(Some(&account), "87654321"), Err(AppError::Unauthorized));
    assert_eq!(authenticate_user(None, "12345678"), Err(AppError::Unauthorized));
    assert!(matches!(authenticate_user(Some(&row("garbage", "user")), "x"), Err(AppError::Other(_))));
    assert_eq!(conclude_login(Some(&account), Ok(true)), Ok(user(UserRole::Admin)));
    assert_eq!(conclude_login(Some(&account), Ok(false)), Err(AppError::Unauthorized));
    assert_eq!(conclude_login(None, Ok(true)), Err(AppError::Unauthorized));
    assert_eq!(
        conclude_login(Some(&account), Err("bad hash".to_string())),
        Err(AppError::Other("bad hash".to_string()))
    );
    assert_eq!(user_from_row(&row("h", "something")), user(UserRole::User));
}

#[test]
fn sessions_are_fresh() {
    let s = create_session(7);
    assert_eq!(s.user_id, 7);
    assert_eq!(s.id.len(), 36);
    assert_eq!(s.created_at, s.last_seen_at);
    assert_eq!(s.expires_at, None);
    assert_ne!(create_session(7).id, s.id);
    let at = session_at("s1".to_string(), 3, Timestamp::new(5, 6));
    assert_eq!(at.id, "s1");
    assert_eq!(at.created_at, Timestamp::new(5, 6));
    assert_eq!(at.last_seen_at, Timestamp::new(5, 6));
}

#[test]
fn session_cookies() {
    let c = apply_session_cookie("s1");
    assert_eq!(c.name, "kawaii_session");
    assert_eq!(c.value, "s1");
    assert_eq!(c.path, "/");
    assert!(c.http_only);
    assert!(c.same_site_lax);
    let gone = clear_session_cookie();
    assert_eq!(gone.name, "kawaii_session");
    assert_eq!(gone.value, "");
    assert_eq!(gone.path, "/");
}
