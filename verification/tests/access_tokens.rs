use argon2::PasswordHasher;
use auth_core::AppError;
use auth_core::authz::{require_admin, require_role, role_allowed};
use auth_core::model::{AuthUser, ClientMeta, LoginRequest, Role, User};
use auth_core::state::AppState;

const NOW: i64 = 1_700_000_000;

fn state_with(ttl: i64, issuer: &str, audience: &str) -> AppState {
    AppState::new(
        b"jwt-signing-key-0123456789abcdef".to_vec(),
        issuer.to_string(),
        audience.to_string(),
        ttl,
        b"refresh-digest-key-0123456789abc".to_vec(),
    )
}

fn state() -> AppState {
    state_with(7200, "myapp", "myapp-client")
}

fn hash_pw(pw: &str) -> String {
    let h: argon2::PasswordHash = argon2::Argon2::default().hash_password(pw.as_bytes()).unwrap();
    h.to_string()
}

fn alice(pw_hash: String) -> User {
    User {
        id: 1,
        username: "alice".to_string(),
        password_hash: pw_hash,
        role: Role::User,
        is_active: true,
        token_version: 0,
        failed_login_attempts: 0,
        locked_until: None,
        last_login_at: None,
        password_changed_at: None,
    }
}

fn login(s: &mut AppState) -> String {
    let req = LoginRequest { username: "alice".to_string(), password: "pw".to_string() };
    s.login(&req, ClientMeta::none(), NOW).unwrap().0.access_token
}

#[test]
fn test_expiry_with_leeway() {
    let mut s = state();
    s.add_user(alice(hash_pw("pw"))).unwrap();
    let token = login(&mut s);
    // expiry is issuance + ttl; 30 seconds of clock-skew leeway past it
    assert!(s.validate_access_token(&token, NOW + 7200).is_ok());
    assert!(s.validate_access_token(&token, NOW + 7200 + 30).is_ok());
    let e = s.validate_access_token(&token, NOW + 7200 + 31).unwrap_err();
    assert_eq!(e, AppError::Unauthorized);
}

#[test]
fn test_tampered_or_foreign_token_rejected() {
    let mut s = state();
    s.add_user(alice(hash_pw("pw"))).unwrap();
    let token = login(&mut s);
    // flip the last character of the signature
    let mut tampered = token.clone();
    let tail = tampered.pop().unwrap();
    tampered.push(if tail == 'A' { 'B' } else { 'A' });
    assert_eq!(s.validate_access_token(&tampered, NOW).unwrap_err(), AppError::Unauthorized);
    // a token signed under another key is rejected too
    let mut other = state();
    other.jwt_secret = b"a-completely-different-signing-k".to_vec();
    other.add_user(alice(hash_pw("pw"))).unwrap();
    let foreign = login(&mut other);
    assert_eq!(s.validate_access_token(&foreign, NOW).unwrap_err(), AppError::Unauthorized);
    assert_eq!(s.validate_access_token(&"garbage".to_string(), NOW).unwrap_err(), AppError::Unauthorized);
}

#[test]
fn test_issuer_and_audience_enforced() {
    let mut s = state();
    s.add_user(alice(hash_pw("pw"))).unwrap();
    let token = login(&mut s);
    let mut wrong_iss = state_with(7200, "otherapp", "myapp-client");
    wrong_iss.add_user(alice(hash_pw("pw"))).unwrap();
    assert_eq!(wrong_iss.validate_access_token(&token, NOW).unwrap_err(), AppError::Unauthorized);
    let mut wrong_aud = state_with(7200, "myapp", "other-client");
    wrong_aud.add_user(alice(hash_pw("pw"))).unwrap();
    assert_eq!(wrong_aud.validate_access_token(&token, NOW).unwrap_err(), AppError::Unauthorized);
}

#[test]
fn test_ttl_clamped_to_administrative_range() {
    let mut low = state_with(5, "myapp", "myapp-client");
    low.add_user(alice(hash_pw("pw"))).unwrap();
    let req = LoginRequest { username: "alice".to_string(), password: "pw".to_string() };
    let (resp, _) = low.login(&req, ClientMeta::none(), NOW).unwrap();
    assert_eq!(resp.expires_in, 60);
    let mut high = state_with(1_000_000, "myapp", "myapp-client");
    high.add_user(alice(hash_pw("pw"))).unwrap();
    let (resp, _) = high.login(&req, ClientMeta::none(), NOW).unwrap();
    assert_eq!(resp.expires_in, 7200);
    let mut mid = state_with(900, "myapp", "myapp-client");
    mid.add_user(alice(hash_pw("pw"))).unwrap();
    let (resp, _) = mid.login(&req, ClientMeta::none(), NOW).unwrap();
    assert_eq!(resp.expires_in, 900);
    assert!(mid.validate_access_token(&resp.access_token, NOW + 900 + 30).is_ok());
    assert!(mid.validate_access_token(&resp.access_token, NOW + 900 + 31).is_err());
}

#[test]
fn test_forced_logout_invalidates_outstanding_tokens() {
    let mut s = state();
    s.add_user(alice(hash_pw("pw"))).unwrap();
    let req = LoginRequest { username: "alice".to_string(), password: "pw".to_string() };
    let (resp, cookie) = s.login(&req, ClientMeta::none(), NOW).unwrap();
    assert!(s.validate_access_token(&resp.access_token, NOW + 1).is_ok());
    s.force_logout(1, NOW + 2).unwrap();
    // the unexpired, correctly signed token now fails validation
    let e = s.validate_access_token(&resp.access_token, NOW + 3).unwrap_err();
    assert_eq!(e, AppError::Unauthorized);
    // and every refresh session is dead
    assert_eq!(s.refresh(Some(&cookie.value), NOW + 3).unwrap_err(), AppError::Unauthorized);
    // logging in again works and issues a token under the new version
    let (resp2, _) = s.login(&req, ClientMeta::none(), NOW + 4).unwrap();
    assert!(s.validate_access_token(&resp2.access_token, NOW + 5).is_ok());
}

#[test]
fn test_bump_token_version_errors() {
    let mut s = state();
    assert_eq!(s.bump_token_version(9).unwrap_err(), AppError::NotFound);
    assert_eq!(s.force_logout(9, NOW).unwrap_err(), AppError::NotFound);
    let mut maxed = alice("x".to_string());
    maxed.token_version = i64::MAX;
    s.add_user(maxed).unwrap();
    assert_eq!(s.bump_token_version(1).unwrap_err(), AppError::Internal);
}

#[test]
fn test_token_issued_before_password_change_rejected() {
    let mut s = state();
    let mut u = alice(hash_pw("pw"));
    // the password changed after this token will be issued
    u.password_changed_at = Some(NOW + 100);
    s.add_user(u).unwrap();
    let req = LoginRequest { username: "alice".to_string(), password: "pw".to_string() };
    let (resp, _) = s.login(&req, ClientMeta::none(), NOW).unwrap();
    // unexpired and correctly signed, but issued before the change
    let e = s.validate_access_token(&resp.access_token, NOW + 200).unwrap_err();
    assert_eq!(e, AppError::Unauthorized);
    // a token issued at or after the change passes
    let (resp2, _) = s.login(&req, ClientMeta::none(), NOW + 100).unwrap();
    assert!(s.validate_access_token(&resp2.access_token, NOW + 200).is_ok());
}

#[test]
fn test_disabled_account_invalidates_tokens() {
    let mut s = state();
    s.add_user(alice(hash_pw("pw"))).unwrap();
    let token = login(&mut s);
    assert!(s.validate_access_token(&token, NOW).is_ok());
    let idx = s.find_user_by_id(1).unwrap();
    let mut u = s.users[idx].clone();
    u.is_active = false;
    s.users[idx] = u;
    assert_eq!(s.validate_access_token(&token, NOW).unwrap_err(), AppError::Unauthorized);
}

#[test]
fn test_auth_middleware() {
    let mut s = state();
    s.add_user(alice(hash_pw("pw"))).unwrap();
    let token = login(&mut s);
    assert_eq!(s.auth_mw(None, NOW).unwrap_err(), AppError::Unauthorized);
    let id = s.auth_mw(Some(&token), NOW).unwrap();
    assert_eq!(id.id, 1);
    assert_eq!(id.username, "alice");
}

#[test]
fn test_role_gate() {
    let user = AuthUser { id: 1, username: "alice".to_string(), role: Role::User };
    let admin = AuthUser { id: 2, username: "root".to_string(), role: Role::Admin };
    let admins_only = vec![Role::Admin];
    let anyone = vec![Role::User, Role::Admin];
    // no identity at all: Unauthorized
    assert_eq!(require_role(None, &admins_only).unwrap_err(), AppError::Unauthorized);
    assert_eq!(require_admin(None).unwrap_err(), AppError::Unauthorized);
    // valid identity outside the required set: Forbidden
    assert_eq!(require_role(Some(&user), &admins_only).unwrap_err(), AppError::Forbidden);
    assert_eq!(require_admin(Some(&user)).unwrap_err(), AppError::Forbidden);
    // role inside the set passes
    assert!(require_role(Some(&admin), &admins_only).is_ok());
    assert!(require_role(Some(&user), &anyone).is_ok());
    assert!(require_admin(Some(&admin)).is_ok());
    assert!(role_allowed(Role::User, &anyone));
    assert!(!role_allowed(Role::User, &admins_only));
    assert!(!role_allowed(Role::Admin, &vec![]));
}

#[test]
fn test_decode_claims_wrong_key_is_none() {
    let mut s = state();
    s.add_user(alice(hash_pw("pw"))).unwrap();
    let token = login(&mut s);
    let right = auth_core::crypto::decode_claims(&token, b"jwt-signing-key-0123456789abcdef");
    let claims = right.unwrap();
    assert_eq!(claims.sub, 1);
    assert_eq!(claims.username, "alice");
    assert_eq!(claims.role, "user");
    assert_eq!(claims.iat, NOW);
    assert_eq!(claims.exp, NOW + 7200);
    assert_eq!(claims.iss, "myapp");
    assert_eq!(claims.aud, "myapp-client");
    assert_eq!(claims.token_version, 0);
    assert_eq!(claims.jti.len(), 36);
    assert!(auth_core::crypto::decode_claims(&token, b"wrong-key").is_none());
}
