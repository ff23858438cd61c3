//! Chat channel names: public chat channels, spectator channels and match channels.
use crate::text::{decimal_int, push_decimal_i64, uuid_string, uuid_text};
use vstd::prelude::*;

verus! {

/// A chat channel.
#[derive(Debug, Clone, Copy, PartialEq, Eq)]
pub enum ChannelName<'a> {
    /// A named public channel such as `#osu`.
    Chat(&'a str),
    /// The spectator channel of a host session.
    Spectator(u128),
    /// The channel of a multiplayer match.
    Multiplayer(i64),
}

/// The text form of a channel name.
pub open spec fn channel_name_text(c: ChannelName) -> Seq<char> {
    match c {
        ChannelName::Chat(name) => name@,
        ChannelName::Spectator(host) => "#spect_"@ + uuid_text(host),
        ChannelName::Multiplayer(match_id) => "#multi_"@ + decimal_int(match_id as int),
    }
}

impl<'a> ChannelName<'a> {
    /// The text form of the channel name.
    pub fn to_string(&self) -> (s: String)
        ensures
            s@ == channel_name_text(*self),
    {
        match self {
            ChannelName::Chat(name) => String::from_str(name),
            ChannelName::Spectator(host) => {
                let mut s = String::from_str("#spect_");
                let id = uuid_string(*host);
                s.append(id.as_str());
                s
            },
            ChannelName::Multiplayer(match_id) => {
                let mut s = String::from_str("#multi_");
                push_decimal_i64(&mut s, *match_id);
                s
            },
        }
    }
}

} // verus!
