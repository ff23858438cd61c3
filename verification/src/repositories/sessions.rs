//! The redis layout of sessions.
use crate::common::chat::safe_username;
use crate::text::{decimal_int, push_decimal_i64, safe_username_text};
use vstd::prelude::*;

verus! {

/// The hash of all sessions.
pub const SESSIONS_KEY: &'static str = "akatsuki:bancho:sessions";

/// The redis key of a user's set of sessions.
pub fn make_id_key(user_id: i64) -> (key: String)
    ensures
        key@ == "akatsuki:bancho:sessions:user_ids:"@ + decimal_int(user_id as int),
{
    let mut key = String::from_str("akatsuki:bancho:sessions:user_ids:");
    push_decimal_i64(&mut key, user_id);
    key
}

/// The redis key of the set of sessions of a username (in its normalised form).
pub fn make_username_key(username: &str) -> (key: String)
    ensures
        key@ == "akatsuki:bancho:sessions:usernames:"@ + safe_username_text(username@),
{
    let safe = safe_username(username);
    let mut key = String::from_str("akatsuki:bancho:sessions:usernames:");
    key.append(safe.as_str());
    key
}

} // verus!
