//! The authorization gate: a stateless decision over an already-established
//! identity and a required-role set. No identity is `Unauthorized`; a valid
//! identity with a role outside the required set is `Forbidden`.

use vstd::prelude::*;

use crate::AppError;
use crate::model::{AuthUser, Role};

verus! {

/// Whether `role` belongs to the allowed set.
pub fn role_allowed(role: Role, allowed: &Vec<Role>) -> (r: bool)
    ensures
        r == allowed@.contains(role),
{
    let mut i: usize = 0;
    while i < allowed.len()
        invariant
            i <= allowed@.len(),
            forall|k: int| 0 <= k < i ==> allowed@[k] != role,
        decreases allowed@.len() - i,
    {
        if allowed[i] == role {
            return true;
        }
        i = i + 1;
    }
    false
}

/// Gates a request on a set of allowed roles: no identity at all is
/// `Unauthorized`, an identity with a role outside the set is `Forbidden`.
pub fn require_role(user: Option<&AuthUser>, allowed: &Vec<Role>) -> (r: Result<(), AppError>)
    ensures
        match user {
            None => r == Err::<(), AppError>(AppError::Unauthorized),
            Some(u) => if allowed@.contains(u.role) {
                r is Ok
            } else {
                r == Err::<(), AppError>(AppError::Forbidden)
            },
        },
{
    match user {
        None => Err(AppError::Unauthorized),
        Some(u) => {
            if role_allowed(u.role, allowed) {
                Ok(())
            } else {
                Err(AppError::Forbidden)
            }
        },
    }
}

/// Gates a request on the administrative role.
pub fn require_admin(user: Option<&AuthUser>) -> (r: Result<(), AppError>)
    ensures
        match user {
            None => r == Err::<(), AppError>(AppError::Unauthorized),
            Some(u) => if u.role is Admin {
                r is Ok
            } else {
                r == Err::<(), AppError>(AppError::Forbidden)
            },
        },
{
    match user {
        None => Err(AppError::Unauthorized),
        Some(u) => {
            if u.role == Role::Admin {
                Ok(())
            } else {
                Err(AppError::Forbidden)
            }
        },
    }
}

} // verus!
