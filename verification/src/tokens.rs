//! The access-token issuer and validator. Signature and expiry give a
//! stateless fast check; the validator then re-reads the user row and
//! checks the active flag, the token version and the password-change time,
//! which is just enough statefulness for instant revocation without a
//! denylist of issued tokens.

use vstd::prelude::*;

use crate::AppError;
use crate::crypto::{claims_of, decode_claims, sign_claims};
use crate::model::{
    ACCESS_TTL_MAX, ACCESS_TTL_MIN, AuthUser, CLOCK_LEEWAY, Claims, ClaimsView, MAX_TIME, Role,
    User, role_str, spec_role_str,
};
use crate::credentials::lemma_user_update_preserves_wf;
use crate::state::{AppState, has_user_id, unique_user_ids};

verus! {

/// The configured access-token lifetime, clamped to the administrative
/// range.
pub open spec fn spec_clamped_ttl(ttl: i64) -> i64 {
    if ttl < ACCESS_TTL_MIN {
        ACCESS_TTL_MIN
    } else if ttl > ACCESS_TTL_MAX {
        ACCESS_TTL_MAX
    } else {
        ttl
    }
}

/// Exec counterpart of [`spec_clamped_ttl`].
pub fn clamped_ttl(ttl: i64) -> (r: i64)
    ensures
        r == spec_clamped_ttl(ttl),
{
    if ttl < ACCESS_TTL_MIN {
        ACCESS_TTL_MIN
    } else if ttl > ACCESS_TTL_MAX {
        ACCESS_TTL_MAX
    } else {
        ttl
    }
}

/// Whether user record `u` still stands behind claims `c`: it is the
/// subject, still active, the token version still matches, and the token
/// was not issued before the last password change.
pub open spec fn user_accepts_claims(u: User, c: ClaimsView) -> bool {
    &&& u.id == c.sub
    &&& u.is_active
    &&& u.token_version == c.token_version
    &&& (u.password_changed_at matches Some(t) ==> c.iat >= t)
}

/// Whether claims `c` are accepted at time `now` against the user table:
/// unexpired up to the clock-skew leeway, issuer and audience match, and
/// the subject's current record still stands behind them.
pub open spec fn claims_accepted(
    users: Seq<User>,
    c: ClaimsView,
    iss: Seq<char>,
    aud: Seq<char>,
    now: i64,
) -> bool {
    &&& c.exp >= now - CLOCK_LEEWAY
    &&& c.iss == iss
    &&& c.aud == aud
    &&& exists|i: int| 0 <= i < users.len() && user_accepts_claims(#[trigger] users[i], c)
}

/// The full verdict of access-token validation at time `now` against state
/// `s`: `Ok` carries the subject's identity exactly when the token decodes
/// under the service key and its claims are accepted; anything less is
/// `Unauthorized`.
pub open spec fn validation_result(
    s: AppState,
    token: Seq<char>,
    now: i64,
    r: Result<AuthUser, AppError>,
) -> bool {
    match r {
        Ok(au) => claims_of(token, s.jwt_secret@) matches Some(c) && {
            &&& claims_accepted(s.users@, c, s.jwt_issuer@, s.jwt_audience@, now)
            &&& au.id == c.sub
            &&& exists|i: int|
                0 <= i < s.users@.len() && {
                    let u = #[trigger] s.users@[i];
                    &&& u.id == au.id
                    &&& au.username@ == u.username@
                    &&& au.role == u.role
                }
        },
        Err(e) => {
            &&& e == AppError::Unauthorized
            &&& (claims_of(token, s.jwt_secret@) matches Some(c) ==> !claims_accepted(
                s.users@,
                c,
                s.jwt_issuer@,
                s.jwt_audience@,
                now,
            ))
        },
    }
}

impl AppState {
    /// Mints a signed access token for the given identity snapshot: claims
    /// issued now, expiring after the clamped configured lifetime, bound to
    /// the configured issuer and audience, to the user's current token
    /// version and to the token id `jti` the caller drew. Signing under the
    /// service's symmetric key cannot fail, so a token is always owed.
    /// Returns the token and its lifetime in seconds.
    pub fn issue_access_token(
        &self,
        sub: u64,
        username: &String,
        role: Role,
        token_version: i64,
        jti: String,
        now: i64,
    ) -> (r: Result<(String, i64), AppError>)
        requires
            0 <= now <= MAX_TIME,
        ensures
            r is Ok,
            r matches Ok((token, expires_in)) ==> {
                &&& expires_in == spec_clamped_ttl(self.access_token_ttl)
                &&& claims_of(token@, self.jwt_secret@) matches Some(c) && {
                    &&& c.sub == sub
                    &&& c.username == username@
                    &&& c.role == spec_role_str(role)
                    &&& c.iat == now
                    &&& c.exp == now + spec_clamped_ttl(self.access_token_ttl)
                    &&& c.iss == self.jwt_issuer@
                    &&& c.aud == self.jwt_audience@
                    &&& c.jti == jti@
                    &&& c.token_version == token_version
                }
            },
    {
        let ttl = clamped_ttl(self.access_token_ttl);
        let claims = Claims {
            sub,
            username: username.clone(),
            role: role_str(role),
            iat: now,
            exp: now + ttl,
            iss: self.jwt_issuer.clone(),
            aud: self.jwt_audience.clone(),
            jti,
            token_version,
        };
        match sign_claims(&claims, self.jwt_secret.as_slice()) {
            Ok(token) => Ok((token, ttl)),
            Err(_) => {
                proof {
                    assert(false);
                }
                Err(AppError::Internal)
            },
        }
    }

    /// Validates an access token at time `now`: the signature must verify
    /// under the service key, the claims must be unexpired (with leeway)
    /// and addressed to this service, and the subject's record must still
    /// stand behind them. Anything less is `Unauthorized`.
    pub fn validate_access_token(&self, token: &String, now: i64) -> (r: Result<AuthUser, AppError>)
        requires
            self.wf(),
            now >= 0,
        ensures
            validation_result(*self, token@, now, r),
    {
        let c = match decode_claims(token, self.jwt_secret.as_slice()) {
            None => {
                return Err(AppError::Unauthorized);
            },
            Some(c) => c,
        };
        let cutoff = now - CLOCK_LEEWAY;
        if c.exp < cutoff {
            return Err(AppError::Unauthorized);
        }
        if !(c.iss == self.jwt_issuer) {
            return Err(AppError::Unauthorized);
        }
        if !(c.aud == self.jwt_audience) {
            return Err(AppError::Unauthorized);
        }
        let uidx = match self.find_user_by_id(c.sub) {
            None => {
                proof {
                    lemma_no_subject_no_acceptance(self.users@, c@);
                }
                return Err(AppError::Unauthorized);
            },
            Some(i) => i,
        };
        proof {
            lemma_id_index_unique(self.users@, c@.sub, uidx as int);
        }
        if !self.users[uidx].is_active {
            return Err(AppError::Unauthorized);
        }
        if self.users[uidx].token_version != c.token_version {
            return Err(AppError::Unauthorized);
        }
        if let Some(t) = self.users[uidx].password_changed_at {
            if c.iat < t {
                return Err(AppError::Unauthorized);
            }
        }
        Ok(AuthUser { id: c.sub, username: self.users[uidx].username.clone(), role: self.users[uidx].role })
    }

    /// Bumps the user's token version, instantly invalidating every access
    /// token issued before the bump (a forced logout). `NotFound` for an
    /// unknown user; `Internal` in the degenerate case that the version
    /// counter cannot grow any further.
    pub fn bump_token_version(&mut self, user_id: u64) -> (r: Result<(), AppError>)
        requires
            old(self).wf(),
        ensures
            final(self).wf(),
            final(self).refresh_tokens@ == old(self).refresh_tokens@,
            final(self).next_refresh_id == old(self).next_refresh_id,
            final(self).same_config(*old(self)),
            r == Err::<(), AppError>(AppError::NotFound) <==> !has_user_id(old(self).users@, user_id),
            r == Err::<(), AppError>(AppError::Internal) <==> exists|i: int|
                0 <= i < old(self).users@.len() && (#[trigger] old(self).users@[i]).id == user_id
                    && old(self).users@[i].token_version == i64::MAX,
            r is Err ==> final(self).users@ == old(self).users@ && (r == Err::<(), AppError>(
                AppError::NotFound,
            ) || r == Err::<(), AppError>(AppError::Internal)),
            r is Ok ==> exists|i: int|
                #![trigger old(self).users@[i]]
                {
                    let u = old(self).users@[i];
                    &&& 0 <= i < old(self).users@.len()
                    &&& u.id == user_id
                    &&& u.token_version < i64::MAX
                    &&& final(self).users@ =~= old(self).users@.update(
                        i,
                        User { token_version: (u.token_version + 1) as i64, ..u },
                    )
                },
    {
        let idx = match self.find_user_by_id(user_id) {
            None => {
                return Err(AppError::NotFound);
            },
            Some(i) => i,
        };
        proof {
            lemma_id_index_unique(self.users@, user_id, idx as int);
        }
        let mut nu = self.users[idx].clone();
        if nu.token_version == i64::MAX {
            return Err(AppError::Internal);
        }
        nu.token_version = nu.token_version + 1;
        proof {
            lemma_user_update_preserves_wf(*old(self), idx as int, nu);
        }
        self.users.set(idx, nu);
        Ok(())
    }
}

/// Under unique ids, the index found for an id is the only one carrying it.
pub proof fn lemma_id_index_unique(users: Seq<User>, id: u64, idx: int)
    requires
        unique_user_ids(users),
        0 <= idx < users.len(),
        users[idx].id == id,
    ensures
        forall|i: int| 0 <= i < users.len() && (#[trigger] users[i]).id == id ==> i == idx,
{
    assert forall|i: int| 0 <= i < users.len() && (#[trigger] users[i]).id == id implies i == idx by {
        if i < idx {
            assert(users[i].id != users[idx].id);
        } else if idx < i {
            assert(users[idx].id != users[i].id);
        }
    }
}

/// Claims whose subject is not in the user table are accepted nowhere.
pub proof fn lemma_no_subject_no_acceptance(users: Seq<User>, c: ClaimsView)
    requires
        !has_user_id(users, c.sub),
    ensures
        forall|iss: Seq<char>, aud: Seq<char>, now: i64| !claims_accepted(users, c, iss, aud, now),
{
    assert forall|iss: Seq<char>, aud: Seq<char>, now: i64| !claims_accepted(
        users,
        c,
        iss,
        aud,
        now,
    ) by {
        assert forall|i: int| 0 <= i < users.len() implies !user_accepts_claims(
            #[trigger] users[i],
            c,
        ) by {
            if users[i].id == c.sub {
                assert(has_user_id(users, c.sub));
            }
        }
    }
}

/// Bumping the subject's token version revokes every outstanding access
/// token at once: claims accepted before the bump are rejected at every
/// later time, even while unexpired and correctly signed.
pub proof fn lemma_version_bump_revokes(
    users: Seq<User>,
    c: ClaimsView,
    iss: Seq<char>,
    aud: Seq<char>,
    now: i64,
    now2: i64,
    i: int,
    nu: User,
)
    requires
        unique_user_ids(users),
        claims_accepted(users, c, iss, aud, now),
        0 <= i < users.len(),
        users[i].id == c.sub,
        nu.id == users[i].id,
        nu.token_version != c.token_version,
    ensures
        !claims_accepted(users.update(i, nu), c, iss, aud, now2),
{
    let users2 = users.update(i, nu);
    assert forall|j: int| 0 <= j < users2.len() implies !user_accepts_claims(
        #[trigger] users2[j],
        c,
    ) by {
        if j != i {
            if users2[j].id == c.sub {
                if j < i {
                    assert(users[j].id != users[i].id);
                } else {
                    assert(users[i].id != users[j].id);
                }
            }
        }
    }
}

/// An access token issued before the subject's last password change is
/// rejected at validation, even while unexpired and correctly signed.
pub proof fn lemma_stale_issuance_rejected(
    users: Seq<User>,
    c: ClaimsView,
    iss: Seq<char>,
    aud: Seq<char>,
    now: i64,
    i: int,
)
    requires
        unique_user_ids(users),
        0 <= i < users.len(),
        users[i].id == c.sub,
        users[i].password_changed_at matches Some(t) && c.iat < t,
    ensures
        !claims_accepted(users, c, iss, aud, now),
{
    assert forall|j: int| 0 <= j < users.len() implies !user_accepts_claims(
        #[trigger] users[j],
        c,
    ) by {
        if users[j].id == c.sub {
            if j < i {
                assert(users[j].id != users[i].id);
            } else if i < j {
                assert(users[i].id != users[j].id);
            }
        }
    }
}

} // verus!
