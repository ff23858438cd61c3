//! The redis layout of spectating.
use crate::text::{uuid_string, uuid_text};
use vstd::prelude::*;

verus! {

/// The hash from a spectating session to the session it spectates.
pub const SPECTATING_KEY: &'static str = "akatsuki:bancho:sessions:spectating";

/// The redis key of a host session's spectator set.
pub fn make_key(host_session_id: u128) -> (key: String)
    ensures
        key@ == "akatsuki:bancho:spectator:"@ + uuid_text(host_session_id),
{
    let mut key = String::from_str("akatsuki:bancho:spectator:");
    let t = uuid_string(host_session_id);
    key.append(t.as_str());
    key
}

} // verus!
