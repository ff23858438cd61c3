//! Channel names sent by the client, and which streams carry a channel.
use crate::entities::channels::ChannelName;
use crate::models::privileges::ADMIN_CAKER;
use crate::repositories::streams::StreamName;
use vstd::prelude::*;

verus! {

/// The privileges it takes to use a channel in one direction: none for a
/// public direction, staff (community manager) privileges otherwise.
pub fn channel_privileges(public: bool) -> (p: i32)
    ensures
        p == if public { 0i32 } else { ADMIN_CAKER },
{
    if public {
        0
    } else {
        ADMIN_CAKER
    }
}

/// What a channel name sent by the client refers to.
#[derive(Debug, Clone, Copy, PartialEq, Eq, Structural)]
pub enum ChannelNameKind {
    /// `#spectator`: the channel of the host the session spectates.
    Spectator,
    /// `#multiplayer`: the channel of the session's match.
    Multiplayer,
    /// Any other name: a public chat channel of that name.
    Chat,
}

/// Classifies a channel name sent by the client.
pub fn classify_channel_name(channel_name: &str) -> (k: ChannelNameKind)
    ensures
        k == if channel_name@ == "#spectator"@ {
            ChannelNameKind::Spectator
        } else if channel_name@ == "#multiplayer"@ {
            ChannelNameKind::Multiplayer
        } else {
            ChannelNameKind::Chat
        },
{
    let name = String::from_str(channel_name);
    if name == String::from_str("#spectator") {
        ChannelNameKind::Spectator
    } else if name == String::from_str("#multiplayer") {
        ChannelNameKind::Multiplayer
    } else {
        ChannelNameKind::Chat
    }
}

/// The stream that carries a channel's messages.
pub fn message_stream<'a>(channel_name: ChannelName<'a>) -> (s: StreamName<'a>)
    ensures
        s == match channel_name {
            ChannelName::Chat(_) => StreamName::Channel(channel_name),
            ChannelName::Spectator(host) => StreamName::Spectator(host),
            ChannelName::Multiplayer(m) => StreamName::Multiplayer(m),
        },
{
    match channel_name {
        ChannelName::Chat(_) => StreamName::Channel(channel_name),
        ChannelName::Spectator(host) => StreamName::Spectator(host),
        ChannelName::Multiplayer(m) => StreamName::Multiplayer(m),
    }
}

/// The stream that carries a channel's member count updates: public channels
/// announce to everyone (restricted to readers of the channel), the others
/// to their own members.
pub fn update_stream<'a>(channel_name: ChannelName<'a>, read_privileges: i32) -> (res: (StreamName<'a>, Option<i32>))
    ensures
        res == match channel_name {
            ChannelName::Chat(_) => (StreamName::Main, Some(read_privileges)),
            ChannelName::Spectator(host) => (StreamName::Spectator(host), None::<i32>),
            ChannelName::Multiplayer(m) => (StreamName::Multiplayer(m), None::<i32>),
        },
{
    match channel_name {
        ChannelName::Chat(_) => (StreamName::Main, Some(read_privileges)),
        ChannelName::Spectator(host) => (StreamName::Spectator(host), None),
        ChannelName::Multiplayer(m) => (StreamName::Multiplayer(m), None),
    }
}

} // verus!
