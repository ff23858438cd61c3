//! Session identities as stored in redis.
use vstd::prelude::*;

verus! {

/// A session (by its UUID, as a 128-bit value) together with its user.
#[derive(Debug, Clone, Copy, PartialEq, Eq, Structural)]
pub struct SessionIdentity {
    pub session_id: u128,
    pub user_id: i64,
}

} // verus!
