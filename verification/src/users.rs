//! The administrative user listing.

use vstd::prelude::*;

use crate::model::UsersResponse;
use crate::state::AppState;

verus! {

impl AppState {
    /// Lists every stored user's public fields, in storage order.
    pub fn list_users(&self) -> (r: Vec<UsersResponse>)
        ensures
            r@.len() == self.users@.len(),
            forall|i: int|
                0 <= i < r@.len() ==> {
                    let u = self.users@[i];
                    &&& (#[trigger] r@[i]).id == u.id
                    &&& r@[i].username@ == u.username@
                    &&& r@[i].role == u.role
                },
    {
        let mut out: Vec<UsersResponse> = Vec::new();
        let mut i: usize = 0;
        while i < self.users.len()
            invariant
                i <= self.users@.len(),
                out@.len() == i,
                forall|k: int|
                    0 <= k < i ==> {
                        let u = self.users@[k];
                        &&& (#[trigger] out@[k]).id == u.id
                        &&& out@[k].username@ == u.username@
                        &&& out@[k].role == u.role
                    },
            decreases self.users@.len() - i,
        {
            out.push(
                UsersResponse {
                    id: self.users[i].id,
                    username: self.users[i].username.clone(),
                    role: self.users[i].role,
                },
            );
            i = i + 1;
        }
        out
    }
}

} // verus!
