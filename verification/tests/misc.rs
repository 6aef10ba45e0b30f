use mood::config::{setting, AppConfig};
use mood::error::AppError;
use mood::ids::{fresh_id, fresh_suffix};
use mood::state::cookie_key_material;

#[test]
fn errors_have_status_codes() {
    assert_eq!(AppError::NotFound.status_code(), 404);
    assert_eq!(AppError::Unauthorized.status_code(), 401);
    assert_eq!(AppError::Forbidden.status_code(), 403);
    assert_eq!(AppError::NotImplemented.status_code(), 501);
    assert_eq!(AppError::BadRequest("x".to_string()).status_code(), 400);
    assert_eq!(AppError::Config("x".to_string()).status_code(), 500);
    assert_eq!(AppError::Io("x".to_string()).status_code(), 500);
    assert_eq!(AppError::Database("x".to_string()).status_code(), 500);
    assert_eq!(AppError::Git("x".to_string()).status_code(), 500);
    assert_eq!(AppError::Other("x".to_string()).status_code(), 500);
    assert_eq!(AppError::Corrupt("x".to_string()).status_code(), 500);
    assert_eq!(AppError::Serialization("x".to_string()).status_code(), 500);
}

#[test]
fn errors_have_messages() {
    assert_eq!(AppError::NotFound.message(), "not found");
    assert_eq!(AppError::Unauthorized.message(), "unauthorized");
    assert_eq!(AppError::Forbidden.message(), "forbidden");
    assert_eq!(AppError::NotImplemented.message(), "not implemented");
    assert_eq!(AppError::Config("bad".to_string()).message(), "config error: bad");
    assert_eq!(AppError::Io("denied".to_string()).message(), "denied");
    assert_eq!(AppError::Database("locked".to_string()).message(), "locked");
    assert_eq!(AppError::Git("index".to_string()).message(), "index");
    assert_eq!(AppError::Other("odd".to_string()).message(), "odd");
    assert_eq!(AppError::BadRequest("nope".to_string()).message(), "nope");
    assert_eq!(AppError::Corrupt("eof".to_string()).message(), "corrupt document: eof");
    assert_eq!(AppError::Serialization("nan".to_string()).message(), "serialization error: nan");
}

#[test]
fn config_takes_defaults() {
    let c = AppConfig::from_values(None, None, None, None, None, "/srv/app");
    assert_eq!(
        c,
        AppConfig {
            database_url: "sqlite://mood.db".to_string(),
            listen_addr: "127.0.0.1:3000".to_string(),
            ai_root: "ai".to_string(),
            repo_root: "/srv/app".to_string(),
            cookie_secret: "change-me-super-secret-kawaii-cookie".to_string(),
        }
    );
    let c = AppConfig::from_values(
        Some("sqlite://x.db".to_string()),
        Some("0.0.0.0:80".to_string()),
        Some("/data".to_string()),
        Some("/repo".to_string()),
        Some("s3cret".to_string()),
        "/srv/app",
    );
    assert_eq!(c.database_url, "sqlite://x.db");
    assert_eq!(c.listen_addr, "0.0.0.0:80");
    assert_eq!(c.ai_root, "/data");
    assert_eq!(c.repo_root, "/repo");
    assert_eq!(c.cookie_secret, "s3cret");
    assert_eq!(setting(None, "d"), "d");
    assert_eq!(setting(Some("v".to_string()), "d"), "v");
}

#[test]
fn cookie_key_is_sha512_of_secret() {
    let digest = cookie_key_material("abc");
    let hex: String = digest.iter().map(|b| format!("{:02x}", b)).collect();
    assert_eq!(
        hex,
        "ddaf35a193617abacc417349ae20413112e6fa4e89a97ea20a9eeee64b55d39a2192992a274fc1a836ba3c23a3feebbd454d4423643ce80e2a9ac94fa54ca49f"
    );
    assert_eq!(cookie_key_material("").len(), 64);
}

#[test]
fn fresh_ids_have_uuid_shape() {
    let id = fresh_id();
    assert_eq!(id.len(), 36);
    for (i, c) in id.chars().enumerate() {
        if i == 8 || i == 13 || i == 18 || i == 23 {
            assert_eq!(c, '-');
        } else {
            assert!(c.is_ascii_digit() || ('a'..='f').contains(&c), "{}", id);
        }
    }
    assert_ne!(fresh_id(), id);
}

#[test]
fn fresh_suffixes_are_hex() {
    let s = fresh_suffix();
    assert_eq!(s.len(), 32);
    assert!(s.chars().all(|c| c.is_ascii_digit() || ('a'..='f').contains(&c)));
    assert_ne!(fresh_suffix(), s);
    assert_eq!(mood::text::remove_char("123e4567-e89b-12d3-a456-426614174000", '-').len(), 32);
}
