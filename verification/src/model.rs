//! Data model of the engine: user records, refresh-token rows, access-token
//! claims, and the request/response shapes of the session protocols.

use vstd::prelude::*;

verus! {

/// Number of consecutive failed login attempts after which an account locks.
pub const LOCK_THRESHOLD: u32 = 5;

/// How long a lockout lasts, in seconds (15 minutes).
pub const LOCK_SECONDS: i64 = 900;

/// Lifetime of a refresh token, in seconds (30 days).
pub const REFRESH_TTL_SECONDS: i64 = 2592000;

/// Lower bound of the administrative range for the access-token lifetime,
/// in seconds (1 minute).
pub const ACCESS_TTL_MIN: i64 = 60;

/// Upper bound of the administrative range for the access-token lifetime,
/// in seconds (2 hours).
pub const ACCESS_TTL_MAX: i64 = 7200;

/// Clock-skew leeway granted when checking an access token's expiry, in seconds.
pub const CLOCK_LEEWAY: i64 = 30;

/// Largest timestamp the engine accepts as the current time; keeps every
/// expiry computation inside `i64`.
pub const MAX_TIME: i64 = i64::MAX - REFRESH_TTL_SECONDS;

/// A user's role. A closed set of tags rather than a free string, so that a
/// misspelled role cannot silently widen or narrow anyone's authority.
#[derive(Clone, Copy, Debug, PartialEq, Eq, Structural)]
pub enum Role {
    User,
    Admin,
}

/// Canonical string tag of a role, as it travels inside signed claims.
pub open spec fn spec_role_str(role: Role) -> Seq<char> {
    match role {
        Role::User => "user"@,
        Role::Admin => "admin"@,
    }
}

/// Exec counterpart of [`spec_role_str`].
pub fn role_str(role: Role) -> (r: String)
    ensures
        r@ == spec_role_str(role),
{
    match role {
        Role::User => "user".to_owned(),
        Role::Admin => "admin".to_owned(),
    }
}

/// Parses a role tag; `None` for any string outside the closed set.
pub open spec fn spec_role_from_str(s: Seq<char>) -> Option<Role> {
    if s == "user"@ {
        Some(Role::User)
    } else if s == "admin"@ {
        Some(Role::Admin)
    } else {
        None
    }
}

/// Exec counterpart of [`spec_role_from_str`].
pub fn role_from_str(s: &String) -> (r: Option<Role>)
    ensures
        r == spec_role_from_str(s@),
{
    let user_tag: String = "user".to_owned();
    let admin_tag: String = "admin".to_owned();
    if *s == user_tag {
        Some(Role::User)
    } else if *s == admin_tag {
        Some(Role::Admin)
    } else {
        None
    }
}

/// An identity record. Lockout counters and the token version are the only
/// fields this engine mutates; creation and deletion are owned elsewhere.
#[derive(Debug)]
pub struct User {
    pub id: u64,
    pub username: String,
    /// Opaque password digest in PHC string form; never a plaintext password.
    pub password_hash: String,
    pub role: Role,
    pub is_active: bool,
    /// Bumped to invalidate every outstanding access token at once.
    pub token_version: i64,
    /// Consecutive failed login attempts; capped at [`LOCK_THRESHOLD`].
    pub failed_login_attempts: u32,
    pub locked_until: Option<i64>,
    pub last_login_at: Option<i64>,
    pub password_changed_at: Option<i64>,
}

impl Clone for User {
    fn clone(&self) -> (r: Self)
        ensures
            r == *self,
    {
        User {
            id: self.id,
            username: self.username.clone(),
            password_hash: self.password_hash.clone(),
            role: self.role,
            is_active: self.is_active,
            token_version: self.token_version,
            failed_login_attempts: self.failed_login_attempts,
            locked_until: self.locked_until,
            last_login_at: self.last_login_at,
            password_changed_at: self.password_changed_at,
        }
    }
}

impl User {
    /// Field sanity carried by every stored user record.
    pub open spec fn wf(self) -> bool {
        self.failed_login_attempts <= LOCK_THRESHOLD
    }
}

/// Client metadata recorded when a session is opened.
#[derive(Debug)]
pub struct ClientMeta {
    pub user_agent: Option<String>,
    pub ip: Option<String>,
}

impl ClientMeta {
    /// No metadata at all.
    pub fn none() -> (r: ClientMeta)
        ensures
            r.user_agent is None,
            r.ip is None,
    {
        ClientMeta { user_agent: None, ip: None }
    }
}

/// A session handle: one row per issued refresh secret. Only the keyed
/// digest of the secret is stored, never the secret itself; rows are revoked
/// in place, never deleted, so that reuse of a rotated secret stays visible.
#[derive(Debug)]
pub struct RefreshTokenRecord {
    pub id: u64,
    pub user_id: u64,
    /// Keyed digest of the opaque secret.
    pub token_hash: String,
    /// Client metadata recorded at issuance.
    pub user_agent: Option<String>,
    pub ip: Option<String>,
    pub expires_at: i64,
    pub revoked_at: Option<i64>,
    pub created_at: i64,
}

impl Clone for RefreshTokenRecord {
    fn clone(&self) -> (r: Self)
        ensures
            r == *self,
    {
        RefreshTokenRecord {
            id: self.id,
            user_id: self.user_id,
            token_hash: self.token_hash.clone(),
            user_agent: match &self.user_agent {
                Some(ua) => Some(ua.clone()),
                None => None,
            },
            ip: match &self.ip {
                Some(ip) => Some(ip.clone()),
                None => None,
            },
            expires_at: self.expires_at,
            revoked_at: self.revoked_at,
            created_at: self.created_at,
        }
    }
}

/// The signed, stateless structure embedded in an access token. Immutable
/// once signed; its authority is bounded by its expiry and re-checked
/// against the user row at validation time.
#[derive(Debug)]
pub struct Claims {
    /// Subject: the user id.
    pub sub: u64,
    pub username: String,
    /// Role tag, as produced by [`role_str`].
    pub role: String,
    /// Issued-at, in unix seconds.
    pub iat: i64,
    /// Expiry, in unix seconds.
    pub exp: i64,
    pub iss: String,
    pub aud: String,
    /// Unique token id.
    pub jti: String,
    /// Copy of the user's token version at issuance time.
    pub token_version: i64,
}

/// Mathematical image of [`Claims`].
pub ghost struct ClaimsView {
    pub sub: u64,
    pub username: Seq<char>,
    pub role: Seq<char>,
    pub iat: i64,
    pub exp: i64,
    pub iss: Seq<char>,
    pub aud: Seq<char>,
    pub jti: Seq<char>,
    pub token_version: i64,
}

impl View for Claims {
    type V = ClaimsView;

    open spec fn view(&self) -> ClaimsView {
        ClaimsView {
            sub: self.sub,
            username: self.username@,
            role: self.role@,
            iat: self.iat,
            exp: self.exp,
            iss: self.iss@,
            aud: self.aud@,
            jti: self.jti@,
            token_version: self.token_version,
        }
    }
}

/// The identity established for a request after its access token validated.
#[derive(Debug)]
pub struct AuthUser {
    pub id: u64,
    pub username: String,
    pub role: Role,
}

impl Clone for AuthUser {
    fn clone(&self) -> (r: Self)
        ensures
            r == *self,
    {
        AuthUser { id: self.id, username: self.username.clone(), role: self.role }
    }
}

/// Credentials presented to the login protocol.
#[derive(Debug)]
pub struct LoginRequest {
    pub username: String,
    pub password: String,
}

/// Body returned by the login and refresh protocols.
#[derive(Debug)]
pub struct LoginResponse {
    pub access_token: String,
    /// Always the literal tag `Bearer`.
    pub token_type: String,
    /// Seconds until the access token expires.
    pub expires_in: i64,
}

/// One row of the administrative user listing.
#[derive(Debug)]
pub struct UsersResponse {
    pub id: u64,
    pub username: String,
    pub role: Role,
}

/// Instruction to the transport layer to set (or clear) the refresh cookie:
/// scoped to the authentication path, HTTP-only and secure, so the secret
/// never reaches scripts and never travels in the clear.
#[derive(Debug)]
pub struct RefreshCookie {
    /// Always the literal tag `refresh_token`.
    pub name: String,
    /// The plaintext refresh secret, or empty when clearing.
    pub value: String,
    /// Always the literal `/auth` path.
    pub path: String,
    /// Unix seconds; 0 when clearing.
    pub expires_at: i64,
    pub http_only: bool,
    pub secure: bool,
}

} // verus!
