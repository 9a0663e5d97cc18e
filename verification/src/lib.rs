//! Session and credential lifecycle engine: password verification with
//! brute-force lockout, signed access-token issuance and validation,
//! opaque refresh-token rotation with reuse detection, and role-based
//! authorization decisions.

use vstd::prelude::*;

pub mod authz;
pub mod credentials;
pub mod crypto;
pub mod model;
pub mod session;
pub mod state;
pub mod tokens;
pub mod users;
pub mod vault;

verus! {

/// Error taxonomy of the engine.
#[derive(Clone, Copy, Debug, PartialEq, Eq, Structural)]
pub enum AppError {
    /// No record matches the lookup; collapsed with `InvalidCredentials`
    /// at the public login surface to prevent username enumeration.
    NotFound,
    /// The password did not match the stored hash.
    InvalidCredentials,
    /// The account is locked out after repeated failures.
    AccountLocked,
    /// The account's active flag is false.
    AccountDisabled,
    /// Missing, invalid, expired or stale token or refresh secret.
    Unauthorized,
    /// Valid identity, insufficient role.
    Forbidden,
    /// Malformed input.
    BadRequest,
    /// Storage or crypto infrastructure failure, opaque to callers.
    Internal,
}

impl AppError {
    /// The externally visible error kind: unauthenticated login failures
    /// surface uniformly, so that unknown-user and wrong-password outcomes
    /// are indistinguishable to a caller.
    pub fn public_kind(&self) -> (r: AppError)
        ensures
            r == if *self is NotFound || *self is InvalidCredentials {
                AppError::InvalidCredentials
            } else {
                *self
            },
    {
        match self {
            AppError::NotFound => AppError::InvalidCredentials,
            AppError::InvalidCredentials => AppError::InvalidCredentials,
            e => *e,
        }
    }

    /// The HTTP status and stable code tag under which this error kind
    /// leaves the service: every unauthenticated failure surfaces as 401
    /// under one tag, a role denial as 403, malformed input as 400, and an
    /// infrastructure failure as an opaque 500.
    pub fn http_parts(&self) -> (r: (u16, String))
        ensures
            r.0 == spec_http_status(*self),
            r.1@ == spec_http_code(*self),
    {
        match self {
            AppError::Forbidden => (403, "forbidden".to_owned()),
            AppError::BadRequest => (400, "bad_request".to_owned()),
            AppError::Internal => (500, "internal_error".to_owned()),
            _ => (401, "unauthorized".to_owned()),
        }
    }
}

/// The HTTP status of each error kind: the security-relevant distinctions
/// among unauthenticated failures stay inside the engine.
pub open spec fn spec_http_status(e: AppError) -> u16 {
    match e {
        AppError::Forbidden => 403,
        AppError::BadRequest => 400,
        AppError::Internal => 500,
        _ => 401,
    }
}

/// The stable machine-readable tag of each error kind.
pub open spec fn spec_http_code(e: AppError) -> Seq<char> {
    match e {
        AppError::Forbidden => "forbidden"@,
        AppError::BadRequest => "bad_request"@,
        AppError::Internal => "internal_error"@,
        _ => "unauthorized"@,
    }
}

} // verus!
