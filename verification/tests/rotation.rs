use argon2::PasswordHasher;
use auth_core::AppError;
use auth_core::model::{ClientMeta, LoginRequest, Role, User};
use auth_core::state::AppState;

const NOW: i64 = 1_700_000_000;
const THIRTY_DAYS: i64 = 2_592_000;

fn state() -> AppState {
    AppState::new(
        b"jwt-signing-key-0123456789abcdef".to_vec(),
        "myapp".to_string(),
        "myapp-client".to_string(),
        7200,
        b"refresh-digest-key-0123456789abc".to_vec(),
    )
}

fn hash_pw(pw: &str) -> String {
    let h: argon2::PasswordHash = argon2::Argon2::default().hash_password(pw.as_bytes()).unwrap();
    h.to_string()
}

fn logged_in(s: &mut AppState) -> String {
    s.add_user(User {
        id: 1,
        username: "alice".to_string(),
        password_hash: hash_pw("pw"),
        role: Role::User,
        is_active: true,
        token_version: 0,
        failed_login_attempts: 0,
        locked_until: None,
        last_login_at: None,
        password_changed_at: None,
    })
    .unwrap();
    let req = LoginRequest { username: "alice".to_string(), password: "pw".to_string() };
    let (_, cookie) = s.login(&req, ClientMeta { user_agent: Some("test agent".to_string()), ip: Some("127.0.0.1".to_string()) }, NOW).unwrap();
    cookie.value
}

#[test]
fn test_rotation_happy_path() {
    let mut s = state();
    let s0 = logged_in(&mut s);
    let (resp, cookie) = s.refresh(Some(&s0), NOW + 10).unwrap();
    assert_eq!(resp.token_type, "Bearer");
    assert_eq!(resp.expires_in, 7200);
    assert_eq!(cookie.name, "refresh_token");
    assert_eq!(cookie.path, "/auth");
    assert_eq!(cookie.value.len(), 43);
    assert_ne!(cookie.value, s0);
    assert_eq!(cookie.expires_at, NOW + 10 + THIRTY_DAYS);
    // the fresh access token names the same account
    let id = s.validate_access_token(&resp.access_token, NOW + 10).unwrap();
    assert_eq!(id.id, 1);
    // exactly one extra row: the replaced one stays, revoked
    assert_eq!(s.refresh_tokens.len(), 2);
    assert!(s.refresh_tokens[0].revoked_at.is_some());
    assert!(s.refresh_tokens[1].revoked_at.is_none());
    // the client metadata from login was recorded on the first row
    assert_eq!(s.refresh_tokens[0].user_agent.as_deref(), Some("test agent"));
    assert_eq!(s.refresh_tokens[0].ip.as_deref(), Some("127.0.0.1"));
}

#[test]
fn test_rotated_secret_single_use() {
    let mut s = state();
    let s0 = logged_in(&mut s);
    // two rotations presenting the same starting secret: exactly one succeeds
    let first = s.refresh(Some(&s0), NOW + 1);
    let second = s.refresh(Some(&s0), NOW + 1);
    assert!(first.is_ok());
    assert_eq!(second.unwrap_err(), AppError::Unauthorized);
    // reuse of the rotated secret keeps failing, regardless of elapsed time
    let much_later = NOW + THIRTY_DAYS * 3;
    assert_eq!(s.refresh(Some(&s0), much_later).unwrap_err(), AppError::Unauthorized);
    assert!(s.reuse_detected(&s0));
    // while the replacement from the one successful rotation still works
    let s1 = first.unwrap().1.value;
    assert!(!s.reuse_detected(&s1));
    assert!(s.refresh(Some(&s1), NOW + 2).is_ok());
}

#[test]
fn test_refresh_missing_or_unknown_secret() {
    let mut s = state();
    let _ = logged_in(&mut s);
    assert_eq!(s.refresh(None, NOW).unwrap_err(), AppError::Unauthorized);
    let garbage = "not-a-secret".to_string();
    assert_eq!(s.refresh(Some(&garbage), NOW).unwrap_err(), AppError::Unauthorized);
    assert!(!s.reuse_detected(&garbage));
}

#[test]
fn test_refresh_expired_secret() {
    let mut s = state();
    let s0 = logged_in(&mut s);
    // valid strictly before expiry, dead at and after it
    assert!(s.refresh(Some(&s0), NOW + THIRTY_DAYS - 1).is_ok());
    let mut s2 = state();
    let s0b = logged_in(&mut s2);
    assert_eq!(s2.refresh(Some(&s0b), NOW + THIRTY_DAYS).unwrap_err(), AppError::Unauthorized);
}

#[test]
fn test_logout_revokes_and_clears() {
    let mut s = state();
    let s0 = logged_in(&mut s);
    let cleared = s.logout(Some(&s0), NOW + 5);
    assert_eq!(cleared.name, "refresh_token");
    assert_eq!(cleared.value, "");
    assert_eq!(cleared.path, "/auth");
    assert_eq!(cleared.expires_at, 0);
    assert_eq!(s.refresh(Some(&s0), NOW + 6).unwrap_err(), AppError::Unauthorized);
    // logging out again, or with no cookie, is not an error
    let again = s.logout(Some(&s0), NOW + 7);
    assert_eq!(again.value, "");
    let none = s.logout(None, NOW + 8);
    assert_eq!(none.value, "");
}

#[test]
fn test_multi_device_sessions_are_independent() {
    let mut s = state();
    let s0 = logged_in(&mut s);
    let req = LoginRequest { username: "alice".to_string(), password: "pw".to_string() };
    let (_, c2) = s.login(&req, ClientMeta::none(), NOW + 1).unwrap();
    let s1 = c2.value;
    // revoking one chain leaves the other alive
    s.logout(Some(&s0), NOW + 2);
    assert_eq!(s.refresh(Some(&s0), NOW + 3).unwrap_err(), AppError::Unauthorized);
    assert!(s.refresh(Some(&s1), NOW + 3).is_ok());
}

#[test]
fn test_revoke_all_kills_every_session() {
    let mut s = state();
    let s0 = logged_in(&mut s);
    let req = LoginRequest { username: "alice".to_string(), password: "pw".to_string() };
    let (_, c2) = s.login(&req, ClientMeta::none(), NOW + 1).unwrap();
    let s1 = c2.value;
    s.revoke_all(1, NOW + 2);
    assert_eq!(s.refresh(Some(&s0), NOW + 3).unwrap_err(), AppError::Unauthorized);
    assert_eq!(s.refresh(Some(&s1), NOW + 3).unwrap_err(), AppError::Unauthorized);
}

#[test]
fn test_issue_refresh_token_unknown_user() {
    let mut s = state();
    let e = s.issue_refresh_token(42, ClientMeta::none(), NOW).unwrap_err();
    assert_eq!(e, AppError::NotFound);
}
