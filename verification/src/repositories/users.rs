//! The redis layout of pending username changes.
use crate::text::{decimal_int, push_decimal_i64};
use vstd::prelude::*;

verus! {

/// The redis key under which a user's username change waits until the user
/// stops playing.
pub fn make_queued_username_change_key(user_id: i64) -> (key: String)
    ensures
        key@ == "ripple:change_username_pending:"@ + decimal_int(user_id as int),
{
    let mut key = String::from_str("ripple:change_username_pending:");
    push_decimal_i64(&mut key, user_id);
    key
}

} // verus!
