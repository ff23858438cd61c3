//! The redis layout of channel memberships.
use crate::text::{uuid_string, uuid_text};
use vstd::prelude::*;

verus! {

/// The redis key of a channel's member set.
pub fn make_channel_members_key(channel_name: &str) -> (key: String)
    ensures
        key@ == "akatsuki:bancho:channels:"@ + channel_name@ + ":members"@,
{
    let mut key = String::from_str("akatsuki:bancho:channels:");
    key.append(channel_name);
    key.append(":members");
    key
}

/// The redis key of a session's set of joined channels.
pub fn make_session_channels_key(session_id: u128) -> (key: String)
    ensures
        key@ == "akatsuki:bancho:session:"@ + uuid_text(session_id) + ":channels"@,
{
    let mut key = String::from_str("akatsuki:bancho:session:");
    let t = uuid_string(session_id);
    key.append(t.as_str());
    key.append(":channels");
    key
}

} // verus!
