//! The credential verifier: checks a username/password pair against the
//! stored record and enforces the brute-force lockout policy. The whole
//! transition of the user record under one attempt is the pair
//! [`attempt_outcome`] / [`attempt_update`]; the lockout laws are proved
//! over those transitions.

use vstd::prelude::*;

use crate::AppError;
use crate::crypto::{password_matches, verify_password};
use crate::model::{LOCK_SECONDS, LOCK_THRESHOLD, MAX_TIME, User};
use crate::state::{
    AppState, has_user_id, has_user_named, token_ids_below, tokens_owned, unique_hashes,
    unique_user_ids, unique_usernames, users_wf,
};

verus! {

/// Result of one login attempt against user record `u` at time `now`, where
/// `pw_ok` is what the hash-and-verify primitive decided: a lockout still in
/// force at `now` wins, then the active flag, then the password.
pub open spec fn attempt_outcome(u: User, pw_ok: bool, now: i64) -> Result<(), AppError> {
    if u.locked_until matches Some(t) && t > now {
        Err(AppError::AccountLocked)
    } else if !u.is_active {
        Err(AppError::AccountDisabled)
    } else if !pw_ok {
        Err(AppError::InvalidCredentials)
    } else {
        Ok(())
    }
}

/// The user record after one login attempt: a locked or disabled account is
/// untouched; a mismatch raises the failure counter (capped at the
/// threshold) and arms the lockout window when the threshold is reached; a
/// match resets the counter, clears the lock and stamps the login time.
pub open spec fn attempt_update(u: User, pw_ok: bool, now: i64) -> User {
    if u.locked_until matches Some(t) && t > now {
        u
    } else if !u.is_active {
        u
    } else if !pw_ok {
        let n = if u.failed_login_attempts < LOCK_THRESHOLD {
            (u.failed_login_attempts + 1) as u32
        } else {
            u.failed_login_attempts
        };
        User {
            failed_login_attempts: n,
            locked_until: if n >= LOCK_THRESHOLD {
                Some((now + LOCK_SECONDS) as i64)
            } else {
                u.locked_until
            },
            ..u
        }
    } else {
        User { failed_login_attempts: 0, locked_until: None, last_login_at: Some(now), ..u }
    }
}

impl AppState {
    /// Checks `username`/`password` against the stored record and applies
    /// the lockout policy in one atomic step on the record: on a mismatch
    /// the counter mutation, on a match the reset, each happen in the same
    /// call that decided them. Returns the updated record on success.
    pub fn verify_credentials(&mut self, username: &String, password: &String, now: i64) -> (r:
        Result<User, AppError>)
        requires
            old(self).wf(),
            0 <= now <= MAX_TIME,
        ensures
            final(self).wf(),
            final(self).refresh_tokens@ == old(self).refresh_tokens@,
            final(self).next_refresh_id == old(self).next_refresh_id,
            final(self).same_config(*old(self)),
            !has_user_named(old(self).users@, username@) ==> r == Err::<User, AppError>(
                AppError::NotFound,
            ) && final(self).users@ == old(self).users@,
            forall|i: int|
                0 <= i < old(self).users@.len() && (#[trigger] old(self).users@[i]).username@
                    == username@ ==> {
                    let u = old(self).users@[i];
                    let ok = password_matches(password@, u.password_hash@);
                    &&& final(self).users@ =~= old(self).users@.update(
                        i,
                        attempt_update(u, ok, now),
                    )
                    &&& r == match attempt_outcome(u, ok, now) {
                        Ok(()) => Ok::<User, AppError>(attempt_update(u, ok, now)),
                        Err(e) => Err::<User, AppError>(e),
                    }
                },
    {
        let idx = match self.find_user_by_name(username) {
            None => {
                return Err(AppError::NotFound);
            },
            Some(i) => i,
        };
        proof {
            lemma_named_index_unique(self.users@, username@, idx as int);
        }
        let u = self.users[idx].clone();
        if let Some(t) = u.locked_until {
            if t > now {
                proof {
                    assert(self.users@ =~= self.users@.update(
                        idx as int,
                        attempt_update(u, password_matches(password@, u.password_hash@), now),
                    ));
                }
                return Err(AppError::AccountLocked);
            }
        }
        if !u.is_active {
            proof {
                assert(self.users@ =~= self.users@.update(
                    idx as int,
                    attempt_update(u, password_matches(password@, u.password_hash@), now),
                ));
            }
            return Err(AppError::AccountDisabled);
        }
        if !verify_password(password, &u.password_hash) {
            let mut nu = u;
            if nu.failed_login_attempts < LOCK_THRESHOLD {
                nu.failed_login_attempts = nu.failed_login_attempts + 1;
            }
            if nu.failed_login_attempts >= LOCK_THRESHOLD {
                nu.locked_until = Some(now + LOCK_SECONDS);
            }
            proof {
                lemma_user_update_preserves_wf(*old(self), idx as int, nu);
            }
            self.users.set(idx, nu);
            return Err(AppError::InvalidCredentials);
        }
        let mut nu = u;
        nu.failed_login_attempts = 0;
        nu.locked_until = None;
        nu.last_login_at = Some(now);
        let out = nu.clone();
        proof {
            lemma_user_update_preserves_wf(*old(self), idx as int, nu);
        }
        self.users.set(idx, nu);
        Ok(out)
    }
}

/// Under unique usernames, the index found for a name is the only one
/// carrying it.
pub proof fn lemma_named_index_unique(users: Seq<User>, name: Seq<char>, idx: int)
    requires
        unique_usernames(users),
        0 <= idx < users.len(),
        users[idx].username@ == name,
    ensures
        forall|i: int| 0 <= i < users.len() && (#[trigger] users[i]).username@ == name ==> i == idx,
{
    assert forall|i: int|
        0 <= i < users.len() && (#[trigger] users[i]).username@ == name implies i == idx by {
        if i < idx {
            assert(users[i].username@ != users[idx].username@);
        } else if idx < i {
            assert(users[idx].username@ != users[i].username@);
        }
    }
}

/// Replacing one user record with one of the same id and username, still
/// well formed, preserves the state invariant over the user table.
pub proof fn lemma_user_update_preserves_wf(s: AppState, i: int, nu: User)
    requires
        s.wf(),
        0 <= i < s.users@.len(),
        nu.id == s.users@[i].id,
        nu.username@ == s.users@[i].username@,
        nu.wf(),
    ensures
        unique_usernames(s.users@.update(i, nu)),
        unique_user_ids(s.users@.update(i, nu)),
        users_wf(s.users@.update(i, nu)),
        tokens_owned(s.refresh_tokens@, s.users@.update(i, nu)),
{
    let users = s.users@.update(i, nu);
    assert forall|a: int, b: int| 0 <= a < b < users.len() implies (#[trigger] users[a]).username@
        != (#[trigger] users[b]).username@ by {
        assert(s.users@[a].username@ != s.users@[b].username@);
    }
    assert forall|a: int, b: int| 0 <= a < b < users.len() implies (#[trigger] users[a]).id != (
    #[trigger] users[b]).id by {
        assert(s.users@[a].id != s.users@[b].id);
    }
    assert forall|a: int| 0 <= a < users.len() implies (#[trigger] users[a]).wf() by {
        assert(s.users@[a].wf());
    }
    assert forall|t: int|
        0 <= t < s.refresh_tokens@.len() implies has_user_id(
        users,
        (#[trigger] s.refresh_tokens@[t]).user_id,
    ) by {
        assert(has_user_id(s.users@, s.refresh_tokens@[t].user_id));
        let w = choose|k: int|
            0 <= k < s.users@.len() && (#[trigger] s.users@[k]).id == s.refresh_tokens@[t].user_id;
        assert(users[w].id == s.refresh_tokens@[t].user_id);
    }
}

/// After five consecutive failed attempts on an active, unlocked account,
/// the account is locked: a sixth attempt within the lockout window fails
/// with `AccountLocked` even when the password is correct, and once the
/// window has elapsed a correct password succeeds again.
pub proof fn lemma_lockout_after_failures(u0: User, now: i64, later: i64)
    requires
        u0.wf(),
        u0.is_active,
        u0.failed_login_attempts == 0,
        u0.locked_until is None,
        0 <= now <= MAX_TIME,
    ensures
        ({
            let u1 = attempt_update(u0, false, now);
            let u2 = attempt_update(u1, false, now);
            let u3 = attempt_update(u2, false, now);
            let u4 = attempt_update(u3, false, now);
            let u5 = attempt_update(u4, false, now);
            &&& attempt_outcome(u0, false, now) == Err::<(), AppError>(AppError::InvalidCredentials)
            &&& attempt_outcome(u4, false, now) == Err::<(), AppError>(AppError::InvalidCredentials)
            &&& u5.locked_until == Some((now + LOCK_SECONDS) as i64)
            &&& (now <= later < now + LOCK_SECONDS ==> attempt_outcome(u5, true, later) == Err::<
                (),
                AppError,
            >(AppError::AccountLocked))
            &&& (later >= now + LOCK_SECONDS ==> attempt_outcome(u5, true, later) == Ok::<
                (),
                AppError,
            >(()))
        }),
{
}

/// A successful login resets the failure counter: four failures, one
/// success, then four more failures leave the account unlocked with the
/// counter still below the threshold.
pub proof fn lemma_success_resets_counter(u0: User, now: i64)
    requires
        u0.wf(),
        u0.is_active,
        u0.failed_login_attempts == 0,
        u0.locked_until is None,
        0 <= now <= MAX_TIME,
    ensures
        ({
            let u4 = attempt_update(
                attempt_update(attempt_update(attempt_update(u0, false, now), false, now), false, now),
                false,
                now,
            );
            let s = attempt_update(u4, true, now);
            let v4 = attempt_update(
                attempt_update(attempt_update(attempt_update(s, false, now), false, now), false, now),
                false,
                now,
            );
            &&& attempt_outcome(u4, true, now) == Ok::<(), AppError>(())
            &&& s.failed_login_attempts == 0
            &&& s.locked_until is None
            &&& v4.failed_login_attempts == 4
            &&& v4.locked_until is None
            &&& attempt_outcome(v4, true, now) == Ok::<(), AppError>(())
        }),
{
}

} // verus!
