//! The redis layout of the last beatmap a session reported playing.
use crate::text::{uuid_string, uuid_text};
use vstd::prelude::*;

verus! {

/// Seconds a "now playing" record is kept.
pub const NP_EXPIRY_SECONDS: u64 = 600;

/// The redis key of a session's last "now playing" record.
pub fn make_key(session_id: u128) -> (key: String)
    ensures
        key@ == "akatsuki:bancho:tillerino:"@ + uuid_text(session_id),
{
    let mut key = String::from_str("akatsuki:bancho:tillerino:");
    let t = uuid_string(session_id);
    key.append(t.as_str());
    key
}

} // verus!
