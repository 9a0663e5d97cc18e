use argon2::PasswordHasher;
use auth_core::AppError;
use auth_core::model::{ClientMeta, LoginRequest, Role, User};
use auth_core::state::AppState;

const NOW: i64 = 1_700_000_000;

fn state() -> AppState {
    AppState::new(
        b"jwt-signing-key-0123456789abcdef".to_vec(),
        "myapp".to_string(),
        "myapp-client".to_string(),
        7200,
        b"refresh-digest-key-0123456789abc".to_vec(),
    )
}

fn hash_pw(pw: &str) -> String {
    let h: argon2::PasswordHash = argon2::Argon2::default().hash_password(pw.as_bytes()).unwrap();
    h.to_string()
}

fn plain_user(id: u64, name: &str, pw_hash: String) -> User {
    User {
        id,
        username: name.to_string(),
        password_hash: pw_hash,
        role: Role::User,
        is_active: true,
        token_version: 0,
        failed_login_attempts: 0,
        locked_until: None,
        last_login_at: None,
        password_changed_at: None,
    }
}

fn login_req(name: &str, pw: &str) -> LoginRequest {
    LoginRequest { username: name.to_string(), password: pw.to_string() }
}

#[test]
fn test_login_success_token_validates() {
    let mut s = state();
    s.add_user(plain_user(1, "alice", hash_pw("correct horse"))).unwrap();
    let (resp, cookie) = s.login(&login_req("alice", "correct horse"), ClientMeta::none(), NOW).unwrap();
    assert_eq!(resp.token_type, "Bearer");
    assert_eq!(resp.expires_in, 7200);
    assert_eq!(cookie.name, "refresh_token");
    assert_eq!(cookie.path, "/auth");
    assert!(cookie.http_only && cookie.secure);
    assert_eq!(cookie.value.len(), 43);
    assert_eq!(cookie.expires_at, NOW + 2_592_000);
    let id = s.validate_access_token(&resp.access_token, NOW).unwrap();
    assert_eq!(id.id, 1);
    assert_eq!(id.username, "alice");
    assert_eq!(id.role, Role::User);
    let back = auth_core::session::me(&id);
    assert_eq!(back.id, 1);
    assert_eq!(back.username, "alice");
    let u = &s.users[s.find_user_by_id(1).unwrap()];
    assert_eq!(u.failed_login_attempts, 0);
    assert_eq!(u.last_login_at, Some(NOW));
}

#[test]
fn test_login_failures_indistinguishable() {
    let mut s = state();
    s.add_user(plain_user(1, "alice", hash_pw("pw"))).unwrap();
    let wrong_pw = s.login(&login_req("alice", "nope"), ClientMeta::none(), NOW).unwrap_err();
    let unknown = s.login(&login_req("bob", "pw"), ClientMeta::none(), NOW).unwrap_err();
    assert_eq!(wrong_pw, AppError::InvalidCredentials);
    assert_eq!(unknown, AppError::InvalidCredentials);
    assert_eq!(wrong_pw, unknown);
}

#[test]
fn test_verify_credentials_not_found_internally() {
    let mut s = state();
    let e = s.verify_credentials(&"ghost".to_string(), &"pw".to_string(), NOW).unwrap_err();
    assert_eq!(e, AppError::NotFound);
    assert_eq!(e.public_kind(), AppError::InvalidCredentials);
    assert_eq!(AppError::InvalidCredentials.public_kind(), AppError::InvalidCredentials);
    assert_eq!(AppError::AccountLocked.public_kind(), AppError::AccountLocked);
    assert_eq!(AppError::Forbidden.public_kind(), AppError::Forbidden);
}

#[test]
fn test_lockout_after_five_failures() {
    let mut s = state();
    s.add_user(plain_user(1, "alice", hash_pw("right"))).unwrap();
    for k in 0..5 {
        let e = s.login(&login_req("alice", "wrong"), ClientMeta::none(), NOW + k).unwrap_err();
        assert_eq!(e, AppError::InvalidCredentials);
    }
    // the sixth attempt fails even with the correct password
    let e = s.login(&login_req("alice", "right"), ClientMeta::none(), NOW + 5).unwrap_err();
    assert_eq!(e, AppError::AccountLocked);
    // still locked shortly before the window ends
    let e = s.login(&login_req("alice", "right"), ClientMeta::none(), NOW + 4 + 899).unwrap_err();
    assert_eq!(e, AppError::AccountLocked);
    // once 15 minutes have elapsed since the lock was set, it succeeds
    assert!(s.login(&login_req("alice", "right"), ClientMeta::none(), NOW + 4 + 900).is_ok());
}

#[test]
fn test_success_resets_failure_counter() {
    let mut s = state();
    s.add_user(plain_user(1, "alice", hash_pw("right"))).unwrap();
    for _ in 0..4 {
        s.login(&login_req("alice", "wrong"), ClientMeta::none(), NOW).unwrap_err();
    }
    assert!(s.login(&login_req("alice", "right"), ClientMeta::none(), NOW).is_ok());
    for _ in 0..4 {
        s.login(&login_req("alice", "wrong"), ClientMeta::none(), NOW).unwrap_err();
    }
    // eight failures in all, but never five consecutive: not locked
    assert!(s.login(&login_req("alice", "right"), ClientMeta::none(), NOW).is_ok());
}

#[test]
fn test_account_disabled() {
    let mut s = state();
    let mut u = plain_user(1, "alice", hash_pw("pw"));
    u.is_active = false;
    s.add_user(u).unwrap();
    let e = s.login(&login_req("alice", "pw"), ClientMeta::none(), NOW).unwrap_err();
    assert_eq!(e, AppError::AccountDisabled);
}

#[test]
fn test_add_user_rejects_duplicates() {
    let mut s = state();
    s.add_user(plain_user(1, "alice", "x".to_string())).unwrap();
    let dup_name = s.add_user(plain_user(2, "alice", "x".to_string())).unwrap_err();
    assert_eq!(dup_name, AppError::BadRequest);
    let dup_id = s.add_user(plain_user(1, "bob", "x".to_string())).unwrap_err();
    assert_eq!(dup_id, AppError::BadRequest);
    assert!(s.add_user(plain_user(2, "bob", "x".to_string())).is_ok());
}

#[test]
fn test_list_users() {
    let mut s = state();
    s.add_user(plain_user(1, "alice", "x".to_string())).unwrap();
    let mut admin = plain_user(2, "root", "y".to_string());
    admin.role = Role::Admin;
    s.add_user(admin).unwrap();
    let rows = s.list_users();
    assert_eq!(rows.len(), 2);
    assert_eq!(rows[0].id, 1);
    assert_eq!(rows[0].username, "alice");
    assert_eq!(rows[0].role, Role::User);
    assert_eq!(rows[1].id, 2);
    assert_eq!(rows[1].username, "root");
    assert_eq!(rows[1].role, Role::Admin);
}

#[test]
fn test_http_error_mapping() {
    assert_eq!(AppError::NotFound.public_kind().http_parts(), (401, "unauthorized".to_string()));
    assert_eq!(AppError::InvalidCredentials.http_parts(), (401, "unauthorized".to_string()));
    assert_eq!(AppError::AccountLocked.http_parts(), (401, "unauthorized".to_string()));
    assert_eq!(AppError::AccountDisabled.http_parts(), (401, "unauthorized".to_string()));
    assert_eq!(AppError::Unauthorized.http_parts(), (401, "unauthorized".to_string()));
    assert_eq!(AppError::Forbidden.http_parts(), (403, "forbidden".to_string()));
    assert_eq!(AppError::BadRequest.http_parts(), (400, "bad_request".to_string()));
    assert_eq!(AppError::Internal.http_parts(), (500, "internal_error".to_string()));
}

#[test]
fn test_role_tags_round_trip() {
    assert_eq!(auth_core::model::role_str(Role::User), "user");
    assert_eq!(auth_core::model::role_str(Role::Admin), "admin");
    assert_eq!(auth_core::model::role_from_str(&"user".to_string()), Some(Role::User));
    assert_eq!(auth_core::model::role_from_str(&"admin".to_string()), Some(Role::Admin));
    assert_eq!(auth_core::model::role_from_str(&"root".to_string()), None);
}

#[test]
fn test_password_wrappers() {
    let h = hash_pw("secret-phrase");
    assert!(auth_core::crypto::verify_password(&"secret-phrase".to_string(), &h));
    assert!(!auth_core::crypto::verify_password(&"Secret-phrase".to_string(), &h));
    assert!(!auth_core::crypto::verify_password(&"".to_string(), &h));
    // a malformed stored digest verifies as a mismatch, not a panic
    assert!(!auth_core::crypto::verify_password(&"pw".to_string(), &"not-a-phc-string".to_string()));
}

#[test]
fn test_refresh_digest_wrapper() {
    let key = b"refresh-digest-key-0123456789abc".to_vec();
    let a = auth_core::crypto::hash_refresh_token(&"tok-a".to_string(), &key).unwrap();
    let b = auth_core::crypto::hash_refresh_token(&"tok-a".to_string(), &key).unwrap();
    let c = auth_core::crypto::hash_refresh_token(&"tok-b".to_string(), &key).unwrap();
    let d = auth_core::crypto::hash_refresh_token(&"tok-a".to_string(), &b"other-key".to_vec()).unwrap();
    assert_eq!(a, b);
    assert_eq!(a.len(), 43);
    assert_ne!(a, c);
    assert_ne!(a, d);
    assert_ne!(a, "tok-a");
}

#[test]
fn test_generate_refresh_token_shape() {
    let a = auth_core::crypto::generate_refresh_token().unwrap();
    let b = auth_core::crypto::generate_refresh_token().unwrap();
    assert_eq!(a.len(), 43);
    assert_eq!(b.len(), 43);
    assert_ne!(a, b);
    let j = auth_core::crypto::new_jti().unwrap();
    assert_eq!(j.len(), 36);
    let j2 = auth_core::crypto::new_jti().unwrap();
    assert_ne!(j, j2);
}
