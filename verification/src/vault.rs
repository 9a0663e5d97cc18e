//! The refresh-token vault: issues, validates, rotates and revokes opaque
//! session secrets, tracked server-side by keyed digest only. Rotation is
//! one atomic step on the state — the row is revoked and its replacement
//! issued inside a single exclusive call, so two rotations presenting the
//! same secret can never both succeed.

use vstd::prelude::*;

use crate::AppError;
use crate::crypto::{digest_of, generate_refresh_token, hash_refresh_token};
use crate::model::{ClientMeta, MAX_TIME, REFRESH_TTL_SECONDS, RefreshTokenRecord, Role};
use crate::state::{
    AppState, has_token_hash, has_user_id, token_ids_below, tokens_owned, unique_hashes,
};

verus! {

/// Whether row `t` lets digest `hash` pass at time `now`: the digests match,
/// the row was never revoked, and it has not expired.
pub open spec fn token_live(t: RefreshTokenRecord, hash: Seq<char>, now: i64) -> bool {
    &&& t.token_hash@ == hash
    &&& t.revoked_at is None
    &&& t.expires_at > now
}

/// Some row lets digest `hash` pass at time `now`.
pub open spec fn has_live_token(tokens: Seq<RefreshTokenRecord>, hash: Seq<char>, now: i64) -> bool {
    exists|i: int| 0 <= i < tokens.len() && token_live(#[trigger] tokens[i], hash, now)
}

/// Some row stores digest `hash` but is already revoked: the mark of a
/// reused (rotated or logged-out) secret.
pub open spec fn has_revoked_hash(tokens: Seq<RefreshTokenRecord>, hash: Seq<char>) -> bool {
    exists|i: int|
        0 <= i < tokens.len() && (#[trigger] tokens[i]).token_hash@ == hash && tokens[i].revoked_at
            is Some
}

/// Row `t` marked revoked at time `now`.
pub open spec fn revoked_row(t: RefreshTokenRecord, now: i64) -> RefreshTokenRecord {
    RefreshTokenRecord { revoked_at: Some(now), ..t }
}

/// What a successful rotation returns: a snapshot of the owning user read at
/// rotation time, and the replacement secret with its expiry.
#[derive(Debug)]
pub struct RotationGrant {
    pub user_id: u64,
    pub username: String,
    pub role: Role,
    pub token_version: i64,
    /// The replacement plaintext secret; never persisted.
    pub new_refresh_token: String,
    pub refresh_expires_at: i64,
}

impl AppState {
    /// Point lookup of a row by digest, revoked or not.
    pub fn find_token_by_hash(&self, hash: &String) -> (r: Option<usize>)
        ensures
            match r {
                Some(i) => i < self.refresh_tokens@.len() && self.refresh_tokens@[i as int].token_hash@
                    == hash@,
                None => !has_token_hash(self.refresh_tokens@, hash@),
            },
    {
        let mut i: usize = 0;
        while i < self.refresh_tokens.len()
            invariant
                i <= self.refresh_tokens@.len(),
                forall|k: int| 0 <= k < i ==> (#[trigger] self.refresh_tokens@[k]).token_hash@ != hash@,
            decreases self.refresh_tokens@.len() - i,
        {
            if self.refresh_tokens[i].token_hash == *hash {
                return Some(i);
            }
            i = i + 1;
        }
        None
    }

    /// Issues a fresh refresh secret for `user_id`: generates a random
    /// secret, stores only its keyed digest in a new row, and returns the
    /// plaintext secret with its expiry. Fails `NotFound` for an unknown
    /// user and `Internal` when the random source fails or the fresh digest
    /// would collide with a stored row.
    pub fn issue_refresh_token(&mut self, user_id: u64, meta: ClientMeta, now: i64) -> (r:
        Result<(String, i64), AppError>)
        requires
            old(self).wf(),
            0 <= now <= MAX_TIME,
        ensures
            final(self).wf(),
            final(self).users@ == old(self).users@,
            final(self).same_config(*old(self)),
            r is Err ==> final(self).refresh_tokens@ == old(self).refresh_tokens@ && final(self).next_refresh_id == old(self).next_refresh_id,
            !has_user_id(old(self).users@, user_id) <==> r == Err::<(String, i64), AppError>(
                AppError::NotFound,
            ),
            r is Err ==> r == Err::<(String, i64), AppError>(AppError::NotFound) || r == Err::<
                (String, i64),
                AppError,
            >(AppError::Internal),
            r matches Ok((secret, expires_at)) ==> {
                let d = digest_of(secret@, old(self).refresh_secret@);
                let t = final(self).refresh_tokens@.last();
                &&& expires_at == now + REFRESH_TTL_SECONDS
                &&& secret@.len() == 43
                &&& !has_token_hash(old(self).refresh_tokens@, d)
                &&& final(self).refresh_tokens@ =~= old(self).refresh_tokens@.push(t)
                &&& t.token_hash@ == d
                &&& t.user_id == user_id
                &&& t.user_agent == meta.user_agent
                &&& t.ip == meta.ip
                &&& t.expires_at == now + REFRESH_TTL_SECONDS
                &&& t.revoked_at is None
                &&& t.created_at == now
                &&& t.id == old(self).next_refresh_id
                &&& final(self).next_refresh_id == old(self).next_refresh_id + 1
            },
    {
        if self.find_user_by_id(user_id).is_none() {
            return Err(AppError::NotFound);
        }
        let secret = match generate_refresh_token() {
            Ok(s) => s,
            Err(_) => {
                return Err(AppError::Internal);
            },
        };
        let digest = match hash_refresh_token(&secret, self.refresh_secret.as_slice()) {
            Ok(d) => d,
            Err(_) => {
                return Err(AppError::Internal);
            },
        };
        if self.find_token_by_hash(&digest).is_some() {
            return Err(AppError::Internal);
        }
        if self.next_refresh_id == u64::MAX {
            return Err(AppError::Internal);
        }
        let row = RefreshTokenRecord {
            id: self.next_refresh_id,
            user_id,
            token_hash: digest,
            user_agent: meta.user_agent,
            ip: meta.ip,
            expires_at: now + REFRESH_TTL_SECONDS,
            revoked_at: None,
            created_at: now,
        };
        self.refresh_tokens.push(row);
        self.next_refresh_id = self.next_refresh_id + 1;
        proof {
            lemma_token_push_preserves_wf(*old(self), self.refresh_tokens@.last(), self.next_refresh_id);
        }
        Ok((secret, now + REFRESH_TTL_SECONDS))
    }
}

impl AppState {
    /// Point lookup of a row that lets `hash` pass at time `now`.
    pub fn find_live_token(&self, hash: &String, now: i64) -> (r: Option<usize>)
        ensures
            match r {
                Some(i) => i < self.refresh_tokens@.len() && token_live(
                    self.refresh_tokens@[i as int],
                    hash@,
                    now,
                ),
                None => !has_live_token(self.refresh_tokens@, hash@, now),
            },
    {
        let mut i: usize = 0;
        while i < self.refresh_tokens.len()
            invariant
                i <= self.refresh_tokens@.len(),
                forall|k: int|
                    0 <= k < i ==> !token_live(#[trigger] self.refresh_tokens@[k], hash@, now),
            decreases self.refresh_tokens@.len() - i,
        {
            if self.refresh_tokens[i].token_hash == *hash && self.refresh_tokens[i].revoked_at.is_none()
                && self.refresh_tokens[i].expires_at > now {
                return Some(i);
            }
            i = i + 1;
        }
        None
    }

    /// Rotates the refresh secret `presented`: when a live row matches its
    /// digest, that row is revoked and a replacement issued in the same
    /// atomic step, and a snapshot of the owning user read at rotation time
    /// comes back with the new secret. Any lookup failure — unknown digest,
    /// expiry, or a reused (already revoked) secret — is `Unauthorized`.
    /// Once a rotation succeeds, the presented secret is dead for good: no
    /// row lets it pass at any later time.
    pub fn rotate_refresh_token(&mut self, presented: &String, now: i64) -> (r: Result<
        RotationGrant,
        AppError,
    >)
        requires
            old(self).wf(),
            0 <= now <= MAX_TIME,
        ensures
            final(self).wf(),
            final(self).users@ == old(self).users@,
            final(self).same_config(*old(self)),
            r is Err ==> final(self).refresh_tokens@ == old(self).refresh_tokens@ && final(self).next_refresh_id == old(self).next_refresh_id,
            r == Err::<RotationGrant, AppError>(AppError::Unauthorized) <==> !has_live_token(
                old(self).refresh_tokens@,
                digest_of(presented@, old(self).refresh_secret@),
                now,
            ),
            r is Err ==> r == Err::<RotationGrant, AppError>(AppError::Unauthorized) || r == Err::<
                RotationGrant,
                AppError,
            >(AppError::Internal),
            r matches Ok(g) ==> exists|i: int|
                #![trigger old(self).refresh_tokens@[i]]
                {
                    let d = digest_of(presented@, old(self).refresh_secret@);
                    let olds = old(self).refresh_tokens@;
                    let t = final(self).refresh_tokens@.last();
                    &&& 0 <= i < olds.len() && token_live(olds[i], d, now)
                    &&& final(self).refresh_tokens@ =~= olds.update(
                        i,
                        revoked_row(olds[i], now),
                    ).push(t)
                    &&& t.token_hash@ == digest_of(
                        g.new_refresh_token@,
                        old(self).refresh_secret@,
                    )
                    &&& !has_token_hash(olds, t.token_hash@)
                    &&& t.user_id == olds[i].user_id
                    &&& t.expires_at == now + REFRESH_TTL_SECONDS
                    &&& t.revoked_at is None
                    &&& t.created_at == now
                    &&& t.id == old(self).next_refresh_id
                    &&& final(self).next_refresh_id == old(self).next_refresh_id + 1
                    &&& g.user_id == olds[i].user_id
                    &&& g.refresh_expires_at == now + REFRESH_TTL_SECONDS
                    &&& g.new_refresh_token@.len() == 43
                    &&& exists|uj: int|
                        0 <= uj < old(self).users@.len() && {
                            let u = #[trigger] old(self).users@[uj];
                            &&& u.id == olds[i].user_id
                            &&& g.username@ == u.username@
                            &&& g.role == u.role
                            &&& g.token_version == u.token_version
                        }
                },
            r is Ok ==> forall|t2: i64|
                !has_live_token(
                    final(self).refresh_tokens@,
                    digest_of(presented@, old(self).refresh_secret@),
                    t2,
                ),
    {
        let digest = match hash_refresh_token(presented, self.refresh_secret.as_slice()) {
            Ok(d) => d,
            Err(_) => {
                proof {
                    assert(false);
                }
                return Err(AppError::Internal);
            },
        };
        let idx = match self.find_live_token(&digest, now) {
            None => {
                return Err(AppError::Unauthorized);
            },
            Some(i) => i,
        };
        let row_user_id = self.refresh_tokens[idx].user_id;
        let uidx = match self.find_user_by_id(row_user_id) {
            Some(j) => j,
            None => {
                proof {
                    assert(has_user_id(self.users@, self.refresh_tokens@[idx as int].user_id));
                    assert(false);
                }
                return Err(AppError::Internal);
            },
        };
        let user = self.users[uidx].clone();
        let new_secret = match generate_refresh_token() {
            Ok(s) => s,
            Err(_) => {
                return Err(AppError::Internal);
            },
        };
        let new_digest = match hash_refresh_token(&new_secret, self.refresh_secret.as_slice()) {
            Ok(d) => d,
            Err(_) => {
                proof {
                    assert(false);
                }
                return Err(AppError::Internal);
            },
        };
        if self.find_token_by_hash(&new_digest).is_some() {
            return Err(AppError::Internal);
        }
        if self.next_refresh_id == u64::MAX {
            return Err(AppError::Internal);
        }
        let mut old_row = self.refresh_tokens[idx].clone();
        old_row.revoked_at = Some(now);
        self.refresh_tokens.set(idx, old_row);
        let new_row = RefreshTokenRecord {
            id: self.next_refresh_id,
            user_id: row_user_id,
            token_hash: new_digest,
            user_agent: None,
            ip: None,
            expires_at: now + REFRESH_TTL_SECONDS,
            revoked_at: None,
            created_at: now,
        };
        self.refresh_tokens.push(new_row);
        self.next_refresh_id = self.next_refresh_id + 1;
        proof {
            lemma_rotate_preserves_wf(*old(self), idx as int, new_row, now, self.next_refresh_id);
            lemma_rotation_single_use(
                old(self).refresh_tokens@,
                idx as int,
                digest@,
                now,
                new_row,
            );
        }
        Ok(
            RotationGrant {
                user_id: row_user_id,
                username: user.username,
                role: user.role,
                token_version: user.token_version,
                new_refresh_token: new_secret,
                refresh_expires_at: now + REFRESH_TTL_SECONDS,
            },
        )
    }

    /// Whether presenting this secret is a reuse event: its digest matches
    /// a row that was already revoked, the mark of a stolen token or of two
    /// near-simultaneous refreshes. The hook the incident response
    /// (a forced logout of the whole user) hangs on.
    pub fn reuse_detected(&self, presented: &String) -> (r: bool)
        ensures
            r == has_revoked_hash(
                self.refresh_tokens@,
                digest_of(presented@, self.refresh_secret@),
            ),
    {
        let digest = match hash_refresh_token(presented, self.refresh_secret.as_slice()) {
            Ok(d) => d,
            Err(_) => {
                proof {
                    assert(false);
                }
                return false;
            },
        };
        let mut i: usize = 0;
        while i < self.refresh_tokens.len()
            invariant
                i <= self.refresh_tokens@.len(),
                digest@ == digest_of(presented@, self.refresh_secret@),
                forall|k: int|
                    0 <= k < i ==> !((#[trigger] self.refresh_tokens@[k]).token_hash@ == digest@
                        && self.refresh_tokens@[k].revoked_at is Some),
            decreases self.refresh_tokens@.len() - i,
        {
            if self.refresh_tokens[i].token_hash == digest && self.refresh_tokens[i].revoked_at.is_some() {
                proof {
                    let tokens = self.refresh_tokens@;
                    let d = digest_of(presented@, self.refresh_secret@);
                    assert(tokens[i as int].token_hash@ == d && tokens[i as int].revoked_at is Some);
                }
                return true;
            }
            i = i + 1;
        }
        false
    }

    /// Revokes the row matching `presented`, if any non-revoked one exists;
    /// revoking an already revoked or unknown secret changes nothing, so
    /// the operation is idempotent. Afterwards no row lets the presented
    /// secret pass at any time.
    pub fn revoke_refresh_token(&mut self, presented: &String, now: i64)
        requires
            old(self).wf(),
        ensures
            final(self).wf(),
            final(self).users@ == old(self).users@,
            final(self).same_config(*old(self)),
            final(self).next_refresh_id == old(self).next_refresh_id,
            final(self).refresh_tokens@.len() == old(self).refresh_tokens@.len(),
            forall|k: int|
                0 <= k < old(self).refresh_tokens@.len() ==> #[trigger] final(self).refresh_tokens@[k]
                    == {
                    let t = old(self).refresh_tokens@[k];
                    if t.token_hash@ == digest_of(presented@, old(self).refresh_secret@)
                        && t.revoked_at is None {
                        revoked_row(t, now)
                    } else {
                        t
                    }
                },
            forall|t2: i64|
                !has_live_token(
                    final(self).refresh_tokens@,
                    digest_of(presented@, old(self).refresh_secret@),
                    t2,
                ),
    {
        let digest = match hash_refresh_token(presented, self.refresh_secret.as_slice()) {
            Ok(d) => d,
            Err(_) => {
                proof {
                    assert(false);
                }
                return;
            },
        };
        match self.find_token_by_hash(&digest) {
            None => {},
            Some(i) => {
                if self.refresh_tokens[i].revoked_at.is_none() {
                    let mut row = self.refresh_tokens[i].clone();
                    row.revoked_at = Some(now);
                    proof {
                        lemma_token_update_preserves_wf(*old(self), i as int, row);
                    }
                    self.refresh_tokens.set(i, row);
                }
            },
        }
        proof {
            let d = digest_of(presented@, old(self).refresh_secret@);
            assert forall|k: int|
                0 <= k < old(self).refresh_tokens@.len() implies #[trigger] final(self).refresh_tokens@[k]
                == {
                let t = old(self).refresh_tokens@[k];
                if t.token_hash@ == d && t.revoked_at is None {
                    revoked_row(t, now)
                } else {
                    t
                }
            } by {
                let olds = old(self).refresh_tokens@;
                if olds[k].token_hash@ == d && olds[k].revoked_at is None {
                    assert(has_token_hash(olds, d));
                }
            }
            assert forall|t2: i64|
                !has_live_token(final(self).refresh_tokens@, d, t2) by {
                assert forall|j: int|
                    0 <= j < final(self).refresh_tokens@.len() implies !token_live(
                    #[trigger] final(self).refresh_tokens@[j],
                    d,
                    t2,
                ) by {
                    let t = old(self).refresh_tokens@[j];
                    if t.token_hash@ == d && t.revoked_at is None {
                        assert(final(self).refresh_tokens@[j] == revoked_row(t, now));
                    }
                }
            }
        }
    }

    /// Revokes every non-revoked session of `user_id`: the incident-response
    /// and log-out-everywhere capability.
    pub fn revoke_all(&mut self, user_id: u64, now: i64)
        requires
            old(self).wf(),
        ensures
            final(self).wf(),
            final(self).users@ == old(self).users@,
            final(self).same_config(*old(self)),
            final(self).next_refresh_id == old(self).next_refresh_id,
            final(self).refresh_tokens@.len() == old(self).refresh_tokens@.len(),
            forall|k: int|
                0 <= k < old(self).refresh_tokens@.len() ==> #[trigger] final(self).refresh_tokens@[k]
                    == {
                    let t = old(self).refresh_tokens@[k];
                    if t.user_id == user_id && t.revoked_at is None {
                        revoked_row(t, now)
                    } else {
                        t
                    }
                },
    {
        let ghost olds = self.refresh_tokens@;
        let mut i: usize = 0;
        while i < self.refresh_tokens.len()
            invariant
                self.users@ == old(self).users@,
                self.same_config(*old(self)),
                self.next_refresh_id == old(self).next_refresh_id,
                self.refresh_tokens@.len() == olds.len(),
                olds == old(self).refresh_tokens@,
                i <= olds.len(),
                forall|k: int|
                    0 <= k < i ==> #[trigger] self.refresh_tokens@[k] == {
                        let t = olds[k];
                        if t.user_id == user_id && t.revoked_at is None {
                            revoked_row(t, now)
                        } else {
                            t
                        }
                    },
                forall|k: int| i <= k < olds.len() ==> #[trigger] self.refresh_tokens@[k] == olds[k],
            decreases olds.len() - i,
        {
            if self.refresh_tokens[i].user_id == user_id && self.refresh_tokens[i].revoked_at.is_none() {
                let mut row = self.refresh_tokens[i].clone();
                row.revoked_at = Some(now);
                self.refresh_tokens.set(i, row);
            }
            i = i + 1;
        }
        proof {
            let news = self.refresh_tokens@;
            assert(old(self).wf());
            assert forall|a: int, b: int| 0 <= a < b < news.len() implies (#[trigger] news[a]).token_hash@
                != (#[trigger] news[b]).token_hash@ by {
                assert(olds[a].token_hash@ != olds[b].token_hash@);
            }
            assert forall|a: int| 0 <= a < news.len() implies has_user_id(
                self.users@,
                (#[trigger] news[a]).user_id,
            ) by {
                assert(has_user_id(old(self).users@, olds[a].user_id));
            }
            assert forall|a: int| 0 <= a < news.len() implies (#[trigger] news[a]).id
                < self.next_refresh_id by {
                assert(olds[a].id < old(self).next_refresh_id);
            }
        }
    }
}

/// Replacing one token row with one of the same digest, owner and id
/// preserves the state invariant over the token table.
pub proof fn lemma_token_update_preserves_wf(s: AppState, i: int, nt: RefreshTokenRecord)
    requires
        s.wf(),
        0 <= i < s.refresh_tokens@.len(),
        nt.token_hash@ == s.refresh_tokens@[i].token_hash@,
        nt.user_id == s.refresh_tokens@[i].user_id,
        nt.id == s.refresh_tokens@[i].id,
    ensures
        unique_hashes(s.refresh_tokens@.update(i, nt)),
        tokens_owned(s.refresh_tokens@.update(i, nt), s.users@),
        token_ids_below(s.refresh_tokens@.update(i, nt), s.next_refresh_id),
{
    let tokens = s.refresh_tokens@.update(i, nt);
    assert forall|a: int, b: int| 0 <= a < b < tokens.len() implies (#[trigger] tokens[a]).token_hash@
        != (#[trigger] tokens[b]).token_hash@ by {
        assert(s.refresh_tokens@[a].token_hash@ != s.refresh_tokens@[b].token_hash@);
    }
    assert forall|a: int| 0 <= a < tokens.len() implies has_user_id(
        s.users@,
        (#[trigger] tokens[a]).user_id,
    ) by {
        assert(has_user_id(s.users@, s.refresh_tokens@[a].user_id));
    }
    assert forall|a: int| 0 <= a < tokens.len() implies (#[trigger] tokens[a]).id
        < s.next_refresh_id by {
        assert(s.refresh_tokens@[a].id < s.next_refresh_id);
    }
}

/// The rotation step — revoking the matched row and appending a replacement
/// whose digest no stored row carried — preserves the state invariant.
pub proof fn lemma_rotate_preserves_wf(s: AppState, i: int, nt: RefreshTokenRecord, now: i64, next: u64)
    requires
        s.wf(),
        0 <= i < s.refresh_tokens@.len(),
        !has_token_hash(s.refresh_tokens@, nt.token_hash@),
        has_user_id(s.users@, nt.user_id),
        nt.id == s.next_refresh_id,
        next > s.next_refresh_id,
    ensures
        unique_hashes(s.refresh_tokens@.update(i, revoked_row(s.refresh_tokens@[i], now)).push(nt)),
        tokens_owned(
            s.refresh_tokens@.update(i, revoked_row(s.refresh_tokens@[i], now)).push(nt),
            s.users@,
        ),
        token_ids_below(
            s.refresh_tokens@.update(i, revoked_row(s.refresh_tokens@[i], now)).push(nt),
            next,
        ),
{
    let olds = s.refresh_tokens@;
    let tokens = olds.update(i, revoked_row(olds[i], now)).push(nt);
    assert forall|a: int, b: int| 0 <= a < b < tokens.len() implies (#[trigger] tokens[a]).token_hash@
        != (#[trigger] tokens[b]).token_hash@ by {
        if b == tokens.len() - 1 {
            assert(tokens[a].token_hash@ == olds[a].token_hash@);
            assert(!(olds[a].token_hash@ == nt.token_hash@));
        } else {
            assert(olds[a].token_hash@ != olds[b].token_hash@);
        }
    }
    assert forall|a: int| 0 <= a < tokens.len() implies has_user_id(
        s.users@,
        (#[trigger] tokens[a]).user_id,
    ) by {
        if a < tokens.len() - 1 {
            assert(has_user_id(s.users@, olds[a].user_id));
        }
    }
    assert forall|a: int| 0 <= a < tokens.len() implies (#[trigger] tokens[a]).id < next by {
        if a < tokens.len() - 1 {
            assert(olds[a].id < s.next_refresh_id);
        }
    }
}

/// Rotation is single-use: once the live row for digest `d` is revoked and
/// replaced by a row carrying a digest no stored row had, no row lets `d`
/// pass at any time whatsoever. Presenting an already rotated secret can
/// therefore only fail, however much time has passed; two rotations of one
/// secret can never both succeed; and the replaced session and its
/// replacement are never simultaneously valid under the same secret.
pub proof fn lemma_rotation_single_use(
    tokens: Seq<RefreshTokenRecord>,
    i: int,
    d: Seq<char>,
    now: i64,
    nt: RefreshTokenRecord,
)
    requires
        unique_hashes(tokens),
        0 <= i < tokens.len(),
        tokens[i].token_hash@ == d,
        !has_token_hash(tokens, nt.token_hash@),
    ensures
        forall|t2: i64| !has_live_token(tokens.update(i, revoked_row(tokens[i], now)).push(nt), d, t2),
{
    let tokens2 = tokens.update(i, revoked_row(tokens[i], now)).push(nt);
    assert(has_token_hash(tokens, d));
    assert forall|t2: i64| !has_live_token(tokens2, d, t2) by {
        assert forall|j: int| 0 <= j < tokens2.len() implies !token_live(
            #[trigger] tokens2[j],
            d,
            t2,
        ) by {
            if j == tokens2.len() - 1 {
                assert(tokens2[j] == nt);
                assert(nt.token_hash@ != d);
            } else if j == i {
                assert(tokens2[j].revoked_at is Some);
            } else {
                assert(tokens2[j] == tokens[j]);
                if tokens[j].token_hash@ == d {
                    assert(tokens[j].token_hash@ != tokens[i].token_hash@);
                }
            }
        }
    }
}

/// Appending a row with a digest no stored row carries, an owner the user
/// table holds and a fresh id preserves the state invariant over the token
/// table.
pub proof fn lemma_token_push_preserves_wf(s: AppState, t: RefreshTokenRecord, next: u64)
    requires
        s.wf(),
        !has_token_hash(s.refresh_tokens@, t.token_hash@),
        has_user_id(s.users@, t.user_id),
        t.id == s.next_refresh_id,
        next > s.next_refresh_id,
    ensures
        unique_hashes(s.refresh_tokens@.push(t)),
        tokens_owned(s.refresh_tokens@.push(t), s.users@),
        token_ids_below(s.refresh_tokens@.push(t), next),
{
    let tokens = s.refresh_tokens@.push(t);
    assert forall|a: int, b: int| 0 <= a < b < tokens.len() implies (#[trigger] tokens[a]).token_hash@
        != (#[trigger] tokens[b]).token_hash@ by {
        if b == tokens.len() - 1 {
            assert(tokens[a] == s.refresh_tokens@[a]);
            assert(!(s.refresh_tokens@[a].token_hash@ == t.token_hash@));
        } else {
            assert(s.refresh_tokens@[a].token_hash@ != s.refresh_tokens@[b].token_hash@);
        }
    }
    assert forall|a: int| 0 <= a < tokens.len() implies has_user_id(
        s.users@,
        (#[trigger] tokens[a]).user_id,
    ) by {
        if a < tokens.len() - 1 {
            assert(has_user_id(s.users@, s.refresh_tokens@[a].user_id));
        }
    }
    assert forall|a: int| 0 <= a < tokens.len() implies (#[trigger] tokens[a]).id < next by {
        if a < tokens.len() - 1 {
            assert(s.refresh_tokens@[a].id < s.next_refresh_id);
        }
    }
}

} // verus!
