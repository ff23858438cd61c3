//! Account verification status.
use crate::models::privileges::{PENDING_VERIFICATION, PUBLICLY_VISIBLE, is_pending_verification, is_publicly_visible};
use vstd::prelude::*;

verus! {

/// How far a user's account is verified.
#[derive(Debug, Clone, Copy, PartialEq, Eq, Structural)]
pub enum VerifiedStatus {
    PendingVerification,
    Multiaccount,
    Verified,
}

/// Seconds of a silenced user's messages that are deleted.
pub const SILENCE_AUTO_DELETE_INTERVAL_SECONDS: u64 = 60;

/// The verification status that the privileges show: pending verification
/// first, then restricted (a multi-account), else verified.
pub fn verified_status(privileges: i32) -> (s: VerifiedStatus)
    ensures
        s == if privileges & PENDING_VERIFICATION != 0 {
            VerifiedStatus::PendingVerification
        } else if privileges & PUBLICLY_VISIBLE == 0 {
            VerifiedStatus::Multiaccount
        } else {
            VerifiedStatus::Verified
        },
{
    if is_pending_verification(privileges) {
        VerifiedStatus::PendingVerification
    } else if !is_publicly_visible(privileges) {
        VerifiedStatus::Multiaccount
    } else {
        VerifiedStatus::Verified
    }
}

} // verus!
