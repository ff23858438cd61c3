//! The pubsub events the service consumes and the rules of their handlers.
use crate::common::parse::{
    comma_pieces, is_digit, lemma_comma_pieces_of_three, lemma_decimal_nat_reads_back, lemma_decimal_roundtrip,
    parse_i64, parse_i64_spec, parse_u8, parse_u8_spec, split_commas,
};
use crate::text::{decimal_int, decimal_nat};
use crate::models::privileges::{CAN_LOGIN, can_login};
use vstd::prelude::*;

verus! {

/// The pubsub channels the consumer subscribes to.
pub const PUBSUB_CHANNELS: [&'static str; 8] = [
    "peppy:ban",
    "peppy:unban",
    "peppy:silence",
    "peppy:disconnect",
    "peppy:notification",
    "peppy:change_username",
    "peppy:update_cached_stats",
    "peppy:wipe",
];

/// The event a pubsub message carries.
#[derive(Debug, Clone, Copy, PartialEq, Eq, Structural)]
pub enum PubsubEvent {
    Ban,
    Unban,
    Silence,
    Disconnect,
    Notification,
    ChangeUsername,
    UpdateCachedStats,
    Wipe,
}

/// The name an event is published under, after the `peppy:` prefix.
pub open spec fn event_name(e: PubsubEvent) -> Seq<char> {
    match e {
        PubsubEvent::Ban => "ban"@,
        PubsubEvent::Unban => "unban"@,
        PubsubEvent::Silence => "silence"@,
        PubsubEvent::Disconnect => "disconnect"@,
        PubsubEvent::Notification => "notification"@,
        PubsubEvent::ChangeUsername => "change_username"@,
        PubsubEvent::UpdateCachedStats => "update_cached_stats"@,
        PubsubEvent::Wipe => "wipe"@,
    }
}

/// The event of a channel, if the consumer handles it.
pub open spec fn event_of_channel(channel: Seq<char>) -> Option<PubsubEvent> {
    if channel == "peppy:ban"@ {
        Some(PubsubEvent::Ban)
    } else if channel == "peppy:unban"@ {
        Some(PubsubEvent::Unban)
    } else if channel == "peppy:silence"@ {
        Some(PubsubEvent::Silence)
    } else if channel == "peppy:disconnect"@ {
        Some(PubsubEvent::Disconnect)
    } else if channel == "peppy:notification"@ {
        Some(PubsubEvent::Notification)
    } else if channel == "peppy:change_username"@ {
        Some(PubsubEvent::ChangeUsername)
    } else if channel == "peppy:update_cached_stats"@ {
        Some(PubsubEvent::UpdateCachedStats)
    } else if channel == "peppy:wipe"@ {
        Some(PubsubEvent::Wipe)
    } else {
        None
    }
}

/// Every event is routed from its own channel and from no other: the channel
/// `peppy:<name>` gives the event of that name, a channel that gives an event
/// is that event's channel (so distinct channels give distinct events), and
/// a channel of no event gives none.
pub proof fn lemma_channels_route_to_their_events(channel: Seq<char>)
    ensures
        forall|e: PubsubEvent| event_of_channel(#[trigger] ("peppy:"@ + event_name(e))) == Some(e),
        event_of_channel(channel) matches Some(e) ==> channel == "peppy:"@ + event_name(e),
        event_of_channel(channel) is None ==> forall|e: PubsubEvent| channel != "peppy:"@ + #[trigger] event_name(e),
{
    reveal_strlit("peppy:");
    reveal_strlit("ban");
    reveal_strlit("unban");
    reveal_strlit("silence");
    reveal_strlit("disconnect");
    reveal_strlit("notification");
    reveal_strlit("change_username");
    reveal_strlit("update_cached_stats");
    reveal_strlit("wipe");
    reveal_strlit("peppy:ban");
    reveal_strlit("peppy:unban");
    reveal_strlit("peppy:silence");
    reveal_strlit("peppy:disconnect");
    reveal_strlit("peppy:notification");
    reveal_strlit("peppy:change_username");
    reveal_strlit("peppy:update_cached_stats");
    reveal_strlit("peppy:wipe");
    assert("peppy:"@ + "ban"@ =~= "peppy:ban"@);
    assert("peppy:"@ + "unban"@ =~= "peppy:unban"@);
    assert("peppy:"@ + "silence"@ =~= "peppy:silence"@);
    assert("peppy:"@ + "disconnect"@ =~= "peppy:disconnect"@);
    assert("peppy:"@ + "notification"@ =~= "peppy:notification"@);
    assert("peppy:"@ + "change_username"@ =~= "peppy:change_username"@);
    assert("peppy:"@ + "update_cached_stats"@ =~= "peppy:update_cached_stats"@);
    assert("peppy:"@ + "wipe"@ =~= "peppy:wipe"@);
}

/// Routes a message by its channel name; `None` for unknown channels, which
/// are only logged.
pub fn route_channel(channel: &str) -> (event: Option<PubsubEvent>)
    ensures
        event == event_of_channel(channel@),
        match event {
            Some(e) => channel@ == "peppy:"@ + event_name(e),
            None => forall|e: PubsubEvent| channel@ != "peppy:"@ + #[trigger] event_name(e),
        },
{
    proof {
        lemma_channels_route_to_their_events(channel@);
    }
    let c = String::from_str(channel);
    if c == String::from_str("peppy:ban") {
        Some(PubsubEvent::Ban)
    } else if c == String::from_str("peppy:unban") {
        Some(PubsubEvent::Unban)
    } else if c == String::from_str("peppy:silence") {
        Some(PubsubEvent::Silence)
    } else if c == String::from_str("peppy:disconnect") {
        Some(PubsubEvent::Disconnect)
    } else if c == String::from_str("peppy:notification") {
        Some(PubsubEvent::Notification)
    } else if c == String::from_str("peppy:change_username") {
        Some(PubsubEvent::ChangeUsername)
    } else if c == String::from_str("peppy:update_cached_stats") {
        Some(PubsubEvent::UpdateCachedStats)
    } else if c == String::from_str("peppy:wipe") {
        Some(PubsubEvent::Wipe)
    } else {
        None
    }
}

/// Why a wipe payload was refused.
#[derive(Debug, Clone, Copy, PartialEq, Eq, Structural)]
pub enum WipePayloadError {
    /// Fewer than three comma separated fields.
    MissingField,
    /// A field is not a number of its type.
    InvalidNumber,
}

/// The wipe payload `"{user_id},{rx},{gm}"` as read: the first three comma
/// separated fields (later ones are ignored).
pub open spec fn wipe_payload_spec(s: Seq<char>) -> Result<(i64, u8, u8), WipePayloadError> {
    let p = comma_pieces(s);
    if p.len() < 3 {
        Err(WipePayloadError::MissingField)
    } else {
        match (parse_i64_spec(p[0]), parse_u8_spec(p[1]), parse_u8_spec(p[2])) {
            (Some(user_id), Some(rx), Some(gm)) => Ok((user_id, rx, gm)),
            _ => Err(WipePayloadError::InvalidNumber),
        }
    }
}

/// Reads a wipe payload: the user ID, the leaderboard family and the ruleset.
pub fn parse_wipe_payload(payload: &str) -> (res: Result<(i64, u8, u8), WipePayloadError>)
    ensures
        res == wipe_payload_spec(payload@),
{
    let pieces = split_commas(payload);
    if pieces.len() < 3 {
        return Err(WipePayloadError::MissingField);
    }
    let user_id = parse_i64(pieces[0].as_str());
    let rx = parse_u8(pieces[1].as_str());
    let gm = parse_u8(pieces[2].as_str());
    match (user_id, rx, gm) {
        (Some(u), Some(r), Some(g)) => Ok((u, r, g)),
        _ => Err(WipePayloadError::InvalidNumber),
    }
}

/// The payload that the website publishes for a wipe, `"{user_id},{rx},{gm}"`.
pub open spec fn wipe_payload_text(user_id: i64, rx: u8, gm: u8) -> Seq<char> {
    decimal_int(user_id as int) + seq![','] + decimal_nat(rx as nat) + seq![','] + decimal_nat(gm as nat)
}

/// Every wipe payload the website writes reads back as the user, leaderboard
/// family and ruleset it was written from.
pub proof fn lemma_wipe_payload_roundtrip(user_id: i64, rx: u8, gm: u8)
    ensures
        wipe_payload_spec(wipe_payload_text(user_id, rx, gm)) == Ok::<(i64, u8, u8), WipePayloadError>((user_id, rx, gm)),
{
    let u = decimal_int(user_id as int);
    let r = decimal_nat(rx as nat);
    let g = decimal_nat(gm as nat);
    lemma_decimal_nat_reads_back(rx as nat);
    lemma_decimal_nat_reads_back(gm as nat);
    lemma_decimal_roundtrip(user_id);
    if user_id < 0 {
        lemma_decimal_nat_reads_back((-(user_id as int)) as nat);
        assert forall|i: int| 0 <= i < u.len() implies u[i] != ',' by {
            if i > 0 {
                assert(u[i] == decimal_nat((-(user_id as int)) as nat)[i - 1]);
                assert(is_digit(decimal_nat((-(user_id as int)) as nat)[i - 1]));
            }
        }
    } else {
        lemma_decimal_nat_reads_back(user_id as nat);
        assert forall|i: int| 0 <= i < u.len() implies u[i] != ',' by {
            assert(is_digit(u[i]));
        }
    }
    assert forall|i: int| 0 <= i < r.len() implies r[i] != ',' by {
        assert(is_digit(r[i]));
    }
    assert forall|i: int| 0 <= i < g.len() implies g[i] != ',' by {
        assert(is_digit(g[i]));
    }
    lemma_comma_pieces_of_three(u, r, g);
    assert(is_digit(r[0]) && is_digit(g[0]));
    assert(parse_u8_spec(r) == Some(rx));
    assert(parse_u8_spec(g) == Some(gm));
}

/// Seconds of silence left at time `now` (seconds since the epoch): the time
/// until the end of the silence, or 0 when the user is not silenced.
pub fn silence_seconds_left(silence_end: Option<i64>, now: i64) -> (left: i64)
    requires
        silence_end matches Some(e) ==> e - now <= i64::MAX,
    ensures
        left == match silence_end {
            Some(e) => if e > now { e - now } else { 0 },
            None => 0,
        },
{
    match silence_end {
        Some(e) => if e > now { e - now } else { 0 },
        None => 0,
    }
}

/// What the ban handler does with each of the user's sessions.
#[derive(Debug, Clone, Copy, PartialEq, Eq, Structural)]
pub enum BanSessionAction {
    /// The user may no longer log in: the session is ended.
    EndSession,
    /// The session takes the new privileges and is told of the restriction.
    Restrict,
}

/// Decides what a ban does to a session of a user with these privileges.
pub fn ban_session_action(privileges: i32) -> (a: BanSessionAction)
    ensures
        a == if privileges & CAN_LOGIN == 0 { BanSessionAction::EndSession } else { BanSessionAction::Restrict },
{
    if !can_login(privileges) {
        BanSessionAction::EndSession
    } else {
        BanSessionAction::Restrict
    }
}

/// Presence actions of players in a game (`Playing`, `Multiplaying`).
pub const ACTION_PLAYING: u8 = 2;
pub const ACTION_MULTIPLAYING: u8 = 12;

/// What a username change does.
#[derive(Debug, Clone, Copy, PartialEq, Eq, Structural)]
pub enum UsernameChangeAction {
    /// The user is in a game: the change waits in the queue.
    Queue,
    /// The user is online: rename, update the presence and the sessions, and
    /// announce the new name when the user is visible.
    RenameOnline,
    /// The user is offline: rename only.
    RenameOffline,
}

/// Decides a username change from the user's presence action (`None` when
/// the user has no presence).
pub fn username_change_action(presence_action: Option<u8>) -> (a: UsernameChangeAction)
    ensures
        a == match presence_action {
            Some(x) => if x == ACTION_PLAYING || x == ACTION_MULTIPLAYING {
                UsernameChangeAction::Queue
            } else {
                UsernameChangeAction::RenameOnline
            },
            None => UsernameChangeAction::RenameOffline,
        },
{
    match presence_action {
        Some(x) => if x == ACTION_PLAYING || x == ACTION_MULTIPLAYING {
            UsernameChangeAction::Queue
        } else {
            UsernameChangeAction::RenameOnline
        },
        None => UsernameChangeAction::RenameOffline,
    }
}

/// The chat bot's user ID and name.
pub const BOT_ID: i32 = 999;
pub const BOT_NAME: &'static str = "Aika";

/// A chat message as the osu! protocol carries it.
#[derive(Debug, Clone, Copy)]
pub struct IrcMessage<'a> {
    pub recipient: &'a str,
    pub sender: &'a str,
    pub sender_id: i32,
    pub text: &'a str,
}

/// The bot's notice that an account is now restricted.
pub fn restriction_message<'a>(recipient: &'a str) -> (m: IrcMessage<'a>)
    ensures
        m.recipient == recipient,
        m.sender@ == BOT_NAME@,
        m.sender_id == BOT_ID,
        m.text@ == "Your account is now in restricted mode. Visit the website for more information."@,
{
    IrcMessage {
        recipient,
        sender: BOT_NAME,
        sender_id: BOT_ID,
        text: "Your account is now in restricted mode. Visit the website for more information.",
    }
}

/// The bot's notice that an account is no longer restricted.
pub fn unrestriction_message<'a>(recipient: &'a str) -> (m: IrcMessage<'a>)
    ensures
        m.recipient == recipient,
        m.sender@ == BOT_NAME@,
        m.sender_id == BOT_ID,
        m.text@ == "Your account is now unrestricted."@,
{
    IrcMessage { recipient, sender: BOT_NAME, sender_id: BOT_ID, text: "Your account is now unrestricted." }
}

} // verus!
