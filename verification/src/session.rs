//! The session orchestrator: composes the credential verifier, the access
//! token issuer and the refresh-token vault into the login, refresh,
//! logout and identity protocols that the transport layer drives.

use vstd::prelude::*;

use crate::AppError;
use crate::credentials::{attempt_outcome, attempt_update, lemma_named_index_unique};
use crate::crypto::{claims_of, digest_of, hash_refresh_token, new_jti, password_matches};
use crate::model::{
    AuthUser, ClientMeta, LoginRequest, LoginResponse, MAX_TIME, REFRESH_TTL_SECONDS,
    RefreshCookie, User, spec_role_str,
};
use crate::state::{AppState, has_user_id, has_user_named};
use crate::tokens::{claims_accepted, spec_clamped_ttl, validation_result};
use crate::vault::{has_live_token, revoked_row, token_live};

verus! {

/// The error a login attempt surfaces, resolved against the user table. An
/// unknown username and a wrong password are indistinguishable from
/// outside — both `InvalidCredentials` — so usernames cannot be enumerated;
/// a locked or disabled account keeps its own kind.
pub open spec fn login_denied(
    users: Seq<User>,
    username: Seq<char>,
    password: Seq<char>,
    now: i64,
) -> Option<AppError> {
    if !has_user_named(users, username) {
        Some(AppError::InvalidCredentials)
    } else {
        let i = choose|i: int| 0 <= i < users.len() && (#[trigger] users[i]).username@ == username;
        match attempt_outcome(users[i], password_matches(password, users[i].password_hash@), now) {
            Ok(()) => None,
            Err(e) => Some(
                if e is NotFound || e is InvalidCredentials {
                    AppError::InvalidCredentials
                } else {
                    e
                },
            ),
        }
    }
}

impl AppState {
    /// The login protocol: verifies the credentials (mutating the lockout
    /// state in the same step), then issues an access token and a refresh
    /// secret. Succeeds exactly on a known, active, unlocked account with a
    /// matching password — barring an `Internal` infrastructure failure —
    /// and then returns a response whose fresh access token's claims
    /// validate against the post-login state and name the account as
    /// subject, together with the refresh cookie to set.
    pub fn login(&mut self, req: &LoginRequest, meta: ClientMeta, now: i64) -> (r: Result<
        (LoginResponse, RefreshCookie),
        AppError,
    >)
        requires
            old(self).wf(),
            0 <= now <= MAX_TIME,
        ensures
            final(self).wf(),
            final(self).same_config(*old(self)),
            login_denied(old(self).users@, req.username@, req.password@, now) matches Some(e)
                ==> r == Err::<(LoginResponse, RefreshCookie), AppError>(e),
            login_denied(old(self).users@, req.username@, req.password@, now) is None ==> (r is Ok
                || r == Err::<(LoginResponse, RefreshCookie), AppError>(AppError::Internal)),
            r is Err ==> final(self).refresh_tokens@ == old(self).refresh_tokens@ && final(self).next_refresh_id == old(self).next_refresh_id,
            !has_user_named(old(self).users@, req.username@) ==> final(self).users@ == old(self).users@,
            forall|i: int|
                0 <= i < old(self).users@.len() && (#[trigger] old(self).users@[i]).username@
                    == req.username@ ==> final(self).users@ =~= old(self).users@.update(
                    i,
                    attempt_update(
                        old(self).users@[i],
                        password_matches(req.password@, old(self).users@[i].password_hash@),
                        now,
                    ),
                ),
            r matches Ok((resp, cookie)) ==> exists|i: int|
                #![trigger old(self).users@[i]]
                {
                    let u0 = old(self).users@[i];
                    let t = final(self).refresh_tokens@.last();
                    &&& 0 <= i < old(self).users@.len()
                    &&& u0.username@ == req.username@
                    &&& password_matches(req.password@, u0.password_hash@)
                    &&& resp.token_type@ == "Bearer"@
                    &&& resp.expires_in == spec_clamped_ttl(old(self).access_token_ttl)
                    &&& cookie.name@ == "refresh_token"@
                    &&& cookie.path@ == "/auth"@
                    &&& cookie.http_only
                    &&& cookie.secure
                    &&& cookie.expires_at == now + REFRESH_TTL_SECONDS
                    &&& cookie.value@.len() == 43
                    &&& final(self).refresh_tokens@ =~= old(self).refresh_tokens@.push(t)
                    &&& t.token_hash@ == digest_of(cookie.value@, old(self).refresh_secret@)
                    &&& t.user_id == u0.id
                    &&& t.user_agent == meta.user_agent
                    &&& t.ip == meta.ip
                    &&& t.expires_at == now + REFRESH_TTL_SECONDS
                    &&& t.revoked_at is None
                    &&& claims_of(resp.access_token@, old(self).jwt_secret@) matches Some(c) && {
                        &&& c.sub == u0.id
                        &&& c.username == u0.username@
                        &&& c.role == spec_role_str(u0.role)
                        &&& c.iat == now
                        &&& c.exp == now + spec_clamped_ttl(old(self).access_token_ttl)
                        &&& c.iss == old(self).jwt_issuer@
                        &&& c.aud == old(self).jwt_audience@
                        &&& c.token_version == u0.token_version
                        &&& ((u0.password_changed_at matches Some(pc) ==> pc <= now)
                            ==> claims_accepted(
                            final(self).users@,
                            c,
                            old(self).jwt_issuer@,
                            old(self).jwt_audience@,
                            now,
                        ))
                    }
                },
    {
        let user = match self.verify_credentials(&req.username, &req.password, now) {
            Err(e) => {
                return Err(e.public_kind());
            },
            Ok(u) => u,
        };
        proof {
            let users0 = old(self).users@;
            assert(has_user_named(users0, req.username@));
            let jj = choose|i: int|
                0 <= i < users0.len() && (#[trigger] users0[i]).username@ == req.username@;
            lemma_named_index_unique(users0, req.username@, jj);
        }
        let jti = match new_jti() {
            Ok(j) => j,
            Err(_) => {
                return Err(AppError::Internal);
            },
        };
        let (token, expires_in) = match self.issue_access_token(
            user.id,
            &user.username,
            user.role,
            user.token_version,
            jti,
            now,
        ) {
            Ok(t) => t,
            Err(_) => {
                proof {
                    assert(false);
                }
                return Err(AppError::Internal);
            },
        };
        let (secret, refresh_exp) = match self.issue_refresh_token(user.id, meta, now) {
            Ok(p) => p,
            Err(_) => {
                return Err(AppError::Internal);
            },
        };
        let resp = LoginResponse {
            access_token: token,
            token_type: "Bearer".to_owned(),
            expires_in,
        };
        let cookie = RefreshCookie {
            name: "refresh_token".to_owned(),
            value: secret,
            path: "/auth".to_owned(),
            expires_at: refresh_exp,
            http_only: true,
            secure: true,
        };
        Ok((resp, cookie))
    }

    /// The refresh protocol: rotates the presented refresh secret — the
    /// matched row is revoked and its replacement issued in one atomic
    /// step — then mints a fresh access token from the user snapshot read
    /// at rotation time. A missing cookie, an unknown or expired secret, or
    /// a reused (already rotated) secret is `Unauthorized`. The random
    /// draws happen before the rotation and signing cannot fail, so every
    /// error leaves the state unchanged; once it succeeds the presented
    /// secret is dead for good.
    pub fn refresh(&mut self, presented: Option<&String>, now: i64) -> (r: Result<
        (LoginResponse, RefreshCookie),
        AppError,
    >)
        requires
            old(self).wf(),
            0 <= now <= MAX_TIME,
        ensures
            final(self).wf(),
            final(self).users@ == old(self).users@,
            final(self).same_config(*old(self)),
            presented is None ==> r == Err::<(LoginResponse, RefreshCookie), AppError>(
                AppError::Unauthorized,
            ) && final(self).refresh_tokens@ == old(self).refresh_tokens@,
            r is Err ==> r == Err::<(LoginResponse, RefreshCookie), AppError>(AppError::Unauthorized)
                || r == Err::<(LoginResponse, RefreshCookie), AppError>(AppError::Internal),
            r is Err ==> final(self).refresh_tokens@ == old(self).refresh_tokens@ && final(self).next_refresh_id == old(self).next_refresh_id,
            presented matches Some(s) ==> (r == Err::<(LoginResponse, RefreshCookie), AppError>(
                AppError::Unauthorized,
            ) <==> !has_live_token(
                old(self).refresh_tokens@,
                digest_of(s@, old(self).refresh_secret@),
                now,
            )),
            presented matches Some(s) ==> (r is Ok ==> forall|t2: i64|
                !has_live_token(
                    final(self).refresh_tokens@,
                    digest_of(s@, old(self).refresh_secret@),
                    t2,
                )),
            presented matches Some(s) ==> r matches Ok((resp, cookie)) ==> {
                let t = final(self).refresh_tokens@.last();
                &&& resp.token_type@ == "Bearer"@
                &&& resp.expires_in == spec_clamped_ttl(old(self).access_token_ttl)
                &&& cookie.name@ == "refresh_token"@
                &&& cookie.path@ == "/auth"@
                &&& cookie.http_only
                &&& cookie.secure
                &&& cookie.expires_at == now + REFRESH_TTL_SECONDS
                &&& cookie.value@.len() == 43
                &&& t.token_hash@ == digest_of(cookie.value@, old(self).refresh_secret@)
                &&& t.expires_at == now + REFRESH_TTL_SECONDS
                &&& t.revoked_at is None
                &&& exists|i: int|
                    #![trigger old(self).refresh_tokens@[i]]
                    {
                        let olds = old(self).refresh_tokens@;
                        &&& 0 <= i < olds.len()
                        &&& token_live(olds[i], digest_of(s@, old(self).refresh_secret@), now)
                        &&& final(self).refresh_tokens@ =~= olds.update(
                            i,
                            revoked_row(olds[i], now),
                        ).push(t)
                        &&& t.user_id == olds[i].user_id
                        &&& exists|uj: int|
                            #![trigger old(self).users@[uj]]
                            {
                                let u = old(self).users@[uj];
                                &&& 0 <= uj < old(self).users@.len()
                                &&& u.id == olds[i].user_id
                                &&& claims_of(resp.access_token@, old(self).jwt_secret@) matches Some(
                                    c,
                                ) && {
                                    &&& c.sub == u.id
                                    &&& c.username == u.username@
                                    &&& c.role == spec_role_str(u.role)
                                    &&& c.iat == now
                                    &&& c.exp == now + spec_clamped_ttl(
                                        old(self).access_token_ttl,
                                    )
                                    &&& c.iss == old(self).jwt_issuer@
                                    &&& c.aud == old(self).jwt_audience@
                                    &&& c.token_version == u.token_version
                                }
                            }
                    }
            },
    {
        let s = match presented {
            None => {
                return Err(AppError::Unauthorized);
            },
            Some(x) => x,
        };
        let digest = match hash_refresh_token(s, self.refresh_secret.as_slice()) {
            Ok(d) => d,
            Err(_) => {
                proof {
                    assert(false);
                }
                return Err(AppError::Internal);
            },
        };
        if self.find_live_token(&digest, now).is_none() {
            return Err(AppError::Unauthorized);
        }
        let jti = match new_jti() {
            Ok(j) => j,
            Err(_) => {
                return Err(AppError::Internal);
            },
        };
        let grant = match self.rotate_refresh_token(s, now) {
            Ok(g) => g,
            Err(e) => {
                return Err(e);
            },
        };
        let (token, expires_in) = match self.issue_access_token(
            grant.user_id,
            &grant.username,
            grant.role,
            grant.token_version,
            jti,
            now,
        ) {
            Ok(t) => t,
            Err(_) => {
                proof {
                    assert(false);
                }
                return Err(AppError::Internal);
            },
        };
        let resp = LoginResponse {
            access_token: token,
            token_type: "Bearer".to_owned(),
            expires_in,
        };
        let cookie = RefreshCookie {
            name: "refresh_token".to_owned(),
            value: grant.new_refresh_token,
            path: "/auth".to_owned(),
            expires_at: grant.refresh_expires_at,
            http_only: true,
            secure: true,
        };
        Ok((resp, cookie))
    }

    /// The logout protocol: best-effort revocation of the presented refresh
    /// secret — revoking a missing or already revoked secret is not an
    /// error — and in every case the instruction to clear the cookie.
    pub fn logout(&mut self, presented: Option<&String>, now: i64) -> (r: RefreshCookie)
        requires
            old(self).wf(),
        ensures
            final(self).wf(),
            final(self).users@ == old(self).users@,
            final(self).same_config(*old(self)),
            final(self).next_refresh_id == old(self).next_refresh_id,
            final(self).refresh_tokens@.len() == old(self).refresh_tokens@.len(),
            presented is None ==> final(self).refresh_tokens@ == old(self).refresh_tokens@,
            presented matches Some(s) ==> {
                &&& forall|k: int|
                    0 <= k < old(self).refresh_tokens@.len() ==> #[trigger] final(self).refresh_tokens@[k]
                        == {
                        let t = old(self).refresh_tokens@[k];
                        if t.token_hash@ == digest_of(s@, old(self).refresh_secret@)
                            && t.revoked_at is None {
                            revoked_row(t, now)
                        } else {
                            t
                        }
                    }
                &&& forall|t2: i64|
                    !has_live_token(
                        final(self).refresh_tokens@,
                        digest_of(s@, old(self).refresh_secret@),
                        t2,
                    )
            },
            r.name@ == "refresh_token"@,
            r.value@ == Seq::<char>::empty(),
            r.path@ == "/auth"@,
            r.expires_at == 0,
    {
        if let Some(s) = presented {
            self.revoke_refresh_token(s, now);
        }
        RefreshCookie {
            name: "refresh_token".to_owned(),
            value: String::new(),
            path: "/auth".to_owned(),
            expires_at: 0,
            http_only: true,
            secure: true,
        }
    }

    /// The protective middleware decision: establishes the request identity
    /// from the bearer token, or `Unauthorized` when none is presented.
    pub fn auth_mw(&self, bearer: Option<&String>, now: i64) -> (r: Result<AuthUser, AppError>)
        requires
            self.wf(),
            now >= 0,
        ensures
            match bearer {
                None => r == Err::<AuthUser, AppError>(AppError::Unauthorized),
                Some(t) => validation_result(*self, t@, now, r),
            },
    {
        match bearer {
            None => Err(AppError::Unauthorized),
            Some(t) => self.validate_access_token(t, now),
        }
    }

    /// Forced logout for one user: bumps the token version, which
    /// invalidates every outstanding access token, and revokes every
    /// refresh session. The incident-response action for a detected reuse
    /// of a rotated secret.
    pub fn force_logout(&mut self, user_id: u64, now: i64) -> (r: Result<(), AppError>)
        requires
            old(self).wf(),
        ensures
            final(self).wf(),
            final(self).same_config(*old(self)),
            final(self).next_refresh_id == old(self).next_refresh_id,
            r == Err::<(), AppError>(AppError::NotFound) <==> !has_user_id(
                old(self).users@,
                user_id,
            ),
            r == Err::<(), AppError>(AppError::Internal) <==> exists|i: int|
                0 <= i < old(self).users@.len() && (#[trigger] old(self).users@[i]).id == user_id
                    && old(self).users@[i].token_version == i64::MAX,
            r is Err ==> final(self).users@ == old(self).users@ && final(self).refresh_tokens@
                == old(self).refresh_tokens@,
            r is Ok ==> exists|i: int|
                #![trigger old(self).users@[i]]
                {
                    let u = old(self).users@[i];
                    &&& 0 <= i < old(self).users@.len()
                    &&& u.id == user_id
                    &&& u.token_version < i64::MAX
                    &&& final(self).users@ =~= old(self).users@.update(
                        i,
                        User { token_version: (u.token_version + 1) as i64, ..u },
                    )
                },
            r is Ok ==> forall|k: int|
                0 <= k < old(self).refresh_tokens@.len() ==> #[trigger] final(self).refresh_tokens@[k]
                    == {
                    let t = old(self).refresh_tokens@[k];
                    if t.user_id == user_id && t.revoked_at is None {
                        revoked_row(t, now)
                    } else {
                        t
                    }
                },
    {
        match self.bump_token_version(user_id) {
            Err(e) => {
                return Err(e);
            },
            Ok(()) => {},
        }
        self.revoke_all(user_id, now);
        Ok(())
    }
}

/// The identity-introspection protocol: hands back the fields of the
/// identity the validator established.
pub fn me(user: &AuthUser) -> (r: AuthUser)
    ensures
        r == *user,
{
    user.clone()
}

} // verus!
