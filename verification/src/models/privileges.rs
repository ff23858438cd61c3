//! User privilege bits (the ripple privilege layout).
use vstd::prelude::*;

verus! {

/// The user shows up to other users and on leaderboards.
pub const PUBLICLY_VISIBLE: i32 = 1;
/// The user may log in.
pub const CAN_LOGIN: i32 = 2;
/// The user has not verified their account yet.
pub const PENDING_VERIFICATION: i32 = 1048576;
/// Community management staff.
pub const ADMIN_CAKER: i32 = 4194304;

/// Whether every bit of `required` is set in `privileges`.
pub open spec fn has_all(privileges: i32, required: i32) -> bool {
    privileges & required == required
}

/// Whether the privileges make the user publicly visible.
pub fn is_publicly_visible(privileges: i32) -> (b: bool)
    ensures
        b == (privileges & PUBLICLY_VISIBLE != 0),
{
    privileges & PUBLICLY_VISIBLE != 0
}

/// Whether the privileges let the user log in.
pub fn can_login(privileges: i32) -> (b: bool)
    ensures
        b == (privileges & CAN_LOGIN != 0),
{
    privileges & CAN_LOGIN != 0
}

/// Whether the user still has to verify their account.
pub fn is_pending_verification(privileges: i32) -> (b: bool)
    ensures
        b == (privileges & PENDING_VERIFICATION != 0),
{
    privileges & PENDING_VERIFICATION != 0
}

/// Whether every bit of `required` is set.
pub fn has_all_privileges(privileges: i32, required: i32) -> (b: bool)
    ensures
        b == has_all(privileges, required),
{
    privileges & required == required
}

} // verus!
