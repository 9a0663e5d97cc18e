//! The engine's state: the user table, the refresh-token table, and the
//! process-wide configuration (keys, issuer, audience, token lifetime),
//! loaded once at startup and passed to every component.

use vstd::prelude::*;

use crate::AppError;
use crate::model::{LOCK_THRESHOLD, RefreshTokenRecord, User};

verus! {

/// No two user records share a username.
pub open spec fn unique_usernames(users: Seq<User>) -> bool {
    forall|i: int, j: int|
        0 <= i < j < users.len() ==> (#[trigger] users[i]).username@ != (#[trigger] users[j]).username@
}

/// No two user records share an id.
pub open spec fn unique_user_ids(users: Seq<User>) -> bool {
    forall|i: int, j: int|
        0 <= i < j < users.len() ==> (#[trigger] users[i]).id != (#[trigger] users[j]).id
}

/// Every stored user record is well formed.
pub open spec fn users_wf(users: Seq<User>) -> bool {
    forall|i: int| 0 <= i < users.len() ==> (#[trigger] users[i]).wf()
}

/// Some user record carries this username.
pub open spec fn has_user_named(users: Seq<User>, name: Seq<char>) -> bool {
    exists|i: int| 0 <= i < users.len() && (#[trigger] users[i]).username@ == name
}

/// Some user record carries this id.
pub open spec fn has_user_id(users: Seq<User>, id: u64) -> bool {
    exists|i: int| 0 <= i < users.len() && (#[trigger] users[i]).id == id
}

/// No two refresh-token rows share a digest, so a presented secret matches
/// at most one row and a rotated row cannot be shadowed by a fresh one.
pub open spec fn unique_hashes(tokens: Seq<RefreshTokenRecord>) -> bool {
    forall|i: int, j: int|
        0 <= i < j < tokens.len() ==> (#[trigger] tokens[i]).token_hash@ != (
        #[trigger] tokens[j]).token_hash@
}

/// Some refresh-token row stores this digest, revoked or not.
pub open spec fn has_token_hash(tokens: Seq<RefreshTokenRecord>, hash: Seq<char>) -> bool {
    exists|i: int| 0 <= i < tokens.len() && (#[trigger] tokens[i]).token_hash@ == hash
}

/// Every refresh-token row is owned by a stored user.
pub open spec fn tokens_owned(tokens: Seq<RefreshTokenRecord>, users: Seq<User>) -> bool {
    forall|i: int| 0 <= i < tokens.len() ==> has_user_id(users, (#[trigger] tokens[i]).user_id)
}

/// Every refresh-token row's id is below the next id to hand out.
pub open spec fn token_ids_below(tokens: Seq<RefreshTokenRecord>, next: u64) -> bool {
    forall|i: int| 0 <= i < tokens.len() ==> (#[trigger] tokens[i]).id < next
}

/// The engine's state and configuration.
pub struct AppState {
    pub users: Vec<User>,
    pub refresh_tokens: Vec<RefreshTokenRecord>,
    /// Id for the next refresh-token row.
    pub next_refresh_id: u64,
    /// Symmetric key the access tokens are signed with.
    pub jwt_secret: Vec<u8>,
    pub jwt_issuer: String,
    pub jwt_audience: String,
    /// Configured access-token lifetime in seconds; clamped to the
    /// administrative range at issuance time.
    pub access_token_ttl: i64,
    /// Server-held key for refresh-secret digests, distinct from the
    /// signing key.
    pub refresh_secret: Vec<u8>,
}

impl AppState {
    /// The state invariant: every constructor establishes it and every
    /// operation preserves it.
    pub open spec fn wf(self) -> bool {
        &&& unique_usernames(self.users@)
        &&& unique_user_ids(self.users@)
        &&& users_wf(self.users@)
        &&& unique_hashes(self.refresh_tokens@)
        &&& tokens_owned(self.refresh_tokens@, self.users@)
        &&& token_ids_below(self.refresh_tokens@, self.next_refresh_id)
    }

    /// The configuration half of the state is never mutated after startup.
    pub open spec fn same_config(self, other: AppState) -> bool {
        &&& self.jwt_secret == other.jwt_secret
        &&& self.jwt_issuer == other.jwt_issuer
        &&& self.jwt_audience == other.jwt_audience
        &&& self.access_token_ttl == other.access_token_ttl
        &&& self.refresh_secret == other.refresh_secret
    }

    /// A fresh state with no users and no sessions.
    pub fn new(
        jwt_secret: Vec<u8>,
        jwt_issuer: String,
        jwt_audience: String,
        access_token_ttl: i64,
        refresh_secret: Vec<u8>,
    ) -> (r: AppState)
        ensures
            r.wf(),
            r.users@.len() == 0,
            r.refresh_tokens@.len() == 0,
            r.jwt_secret == jwt_secret,
            r.jwt_issuer == jwt_issuer,
            r.jwt_audience == jwt_audience,
            r.access_token_ttl == access_token_ttl,
            r.refresh_secret == refresh_secret,
    {
        AppState {
            users: Vec::new(),
            refresh_tokens: Vec::new(),
            next_refresh_id: 0,
            jwt_secret,
            jwt_issuer,
            jwt_audience,
            access_token_ttl,
            refresh_secret,
        }
    }

    /// Receives an externally owned user record into the store. Rejected as
    /// `BadRequest` when its username or id is already taken or its failure
    /// counter is out of range.
    pub fn add_user(&mut self, user: User) -> (r: Result<(), AppError>)
        requires
            old(self).wf(),
        ensures
            final(self).wf(),
            final(self).refresh_tokens@ == old(self).refresh_tokens@,
            final(self).next_refresh_id == old(self).next_refresh_id,
            final(self).same_config(*old(self)),
            r is Err <==> (has_user_named(old(self).users@, user.username@) || has_user_id(
                old(self).users@,
                user.id,
            ) || !user.wf()),
            r is Err ==> r == Err::<(), AppError>(AppError::BadRequest) && final(self).users@ == old(
                self,
            ).users@,
            r is Ok ==> final(self).users@ == old(self).users@.push(user),
    {
        if user.failed_login_attempts > LOCK_THRESHOLD {
            return Err(AppError::BadRequest);
        }
        if self.find_user_by_name(&user.username).is_some() {
            return Err(AppError::BadRequest);
        }
        if self.find_user_by_id(user.id).is_some() {
            return Err(AppError::BadRequest);
        }
        self.users.push(user);
        proof {
            let users = self.users@;
            let prev = old(self).users@;
            assert forall|i: int, j: int| 0 <= i < j < users.len() implies (#[trigger] users[i]).username@
                != (#[trigger] users[j]).username@ by {
                if j == users.len() - 1 {
                    assert(users[i] == prev[i]);
                }
            }
            assert forall|i: int, j: int| 0 <= i < j < users.len() implies (#[trigger] users[i]).id
                != (#[trigger] users[j]).id by {
                if j == users.len() - 1 {
                    assert(users[i] == prev[i]);
                }
            }
            assert forall|i: int|
                0 <= i < self.refresh_tokens@.len() implies has_user_id(
                users,
                (#[trigger] self.refresh_tokens@[i]).user_id,
            ) by {
                assert(has_user_id(prev, self.refresh_tokens@[i].user_id));
                let w = choose|k: int|
                    0 <= k < prev.len() && (#[trigger] prev[k]).id == self.refresh_tokens@[i].user_id;
                assert(users[w].id == self.refresh_tokens@[i].user_id);
            }
        }
        Ok(())
    }

    /// Point lookup by username.
    pub fn find_user_by_name(&self, name: &String) -> (r: Option<usize>)
        ensures
            match r {
                Some(i) => i < self.users@.len() && self.users@[i as int].username@ == name@,
                None => !has_user_named(self.users@, name@),
            },
    {
        let mut i: usize = 0;
        while i < self.users.len()
            invariant
                i <= self.users@.len(),
                forall|k: int| 0 <= k < i ==> (#[trigger] self.users@[k]).username@ != name@,
            decreases self.users@.len() - i,
        {
            if self.users[i].username == *name {
                return Some(i);
            }
            i = i + 1;
        }
        None
    }

    /// Point lookup by user id.
    pub fn find_user_by_id(&self, id: u64) -> (r: Option<usize>)
        ensures
            match r {
                Some(i) => i < self.users@.len() && self.users@[i as int].id == id,
                None => !has_user_id(self.users@, id),
            },
    {
        let mut i: usize = 0;
        while i < self.users.len()
            invariant
                i <= self.users@.len(),
                forall|k: int| 0 <= k < i ==> (#[trigger] self.users@[k]).id != id,
            decreases self.users@.len() - i,
        {
            if self.users[i].id == id {
                return Some(i);
            }
            i = i + 1;
        }
        None
    }
}

} // verus!
