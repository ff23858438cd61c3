//! Chat message rules: who may send, spam silencing, and where a message goes.
use crate::common::error::AppError;
use crate::models::privileges::{ADMIN_CAKER, has_all, has_all_privileges};
use vstd::prelude::*;

verus! {

/// Seconds over which messages are counted for spam.
pub const CHAT_SPAM_RATE_INTERVAL: u64 = 10;
/// Messages within the interval that count as spam.
pub const CHAT_SPAM_RATE: i64 = 10;
/// Seconds of the automatic silence.
pub const CHAT_TIMEOUT_SECONDS: i64 = 300;
/// The reason recorded for the automatic silence.
pub const CHAT_TIMEOUT_REASON: &'static str = "Spamming (Auto-Silence)";

/// Whether a character is whitespace (`char::is_whitespace`): the characters
/// with the Unicode property White_Space.
pub open spec fn is_white_space(c: char) -> bool {
    ||| '\u{9}' <= c <= '\u{d}'
    ||| c == ' '
    ||| c == '\u{85}'
    ||| c == '\u{a0}'
    ||| c == '\u{1680}'
    ||| '\u{2000}' <= c <= '\u{200a}'
    ||| c == '\u{2028}'
    ||| c == '\u{2029}'
    ||| c == '\u{202f}'
    ||| c == '\u{205f}'
    ||| c == '\u{3000}'
}

/// A text without its leading whitespace.
pub open spec fn trim_start_spec(s: Seq<char>) -> Seq<char>
    decreases s.len(),
{
    if s.len() > 0 && is_white_space(s[0]) {
        trim_start_spec(s.drop_first())
    } else {
        s
    }
}

/// A text without its trailing whitespace.
pub open spec fn trim_end_spec(s: Seq<char>) -> Seq<char>
    decreases s.len(),
{
    if s.len() > 0 && is_white_space(s.last()) {
        trim_end_spec(s.drop_last())
    } else {
        s
    }
}

/// A text without its leading and trailing whitespace.
pub open spec fn trimmed(s: Seq<char>) -> Seq<char> {
    trim_end_spec(trim_start_spec(s))
}

/// Removes leading and trailing whitespace (`str::trim`, which trims the
/// characters of `char::is_whitespace` from both ends).
#[verifier::external_body]
fn trim_text(s: &str) -> (t: &str)
    ensures
        t@ == trimmed(s@),
{
    s.trim()
}

/// The checks before a message is sent: the sender must be visible and not
/// silenced. The content is trimmed; a trimmed content that is empty and
/// longer than 500 bytes at once is refused, which no content is.
pub fn check_message(sender_visible: bool, sender_silenced: bool, content: &str) -> (res: Result<String, AppError>)
    ensures
        !sender_visible ==> res == Err::<String, AppError>(AppError::InteractionBlocked),
        sender_visible && sender_silenced ==> res == Err::<String, AppError>(AppError::MessagesUserSilenced),
        sender_visible && !sender_silenced ==> (res matches Ok(t) && t@ == trimmed(content@)),
{
    if !sender_visible {
        return Err(AppError::InteractionBlocked);
    }
    if sender_silenced {
        return Err(AppError::MessagesUserSilenced);
    }
    let trimmed = trim_text(content);
    if trimmed.is_empty() && trimmed.len() > 500 {
        proof {
            assert(trimmed@ =~= Seq::<char>::empty());
            assert(vstd::utf8::encode_utf8(trimmed@).len() == 0) by {
                reveal_with_fuel(vstd::utf8::encode_utf8, 1);
            }
        }
        return Err(AppError::MessagesInvalidLength);
    }
    Ok(String::from_str(trimmed))
}

/// The silence a sender earns: at `CHAT_SPAM_RATE` messages or more within
/// the interval, a silence ending `CHAT_TIMEOUT_SECONDS` after `now`.
pub fn spam_silence_end(message_count: i64, now: i64) -> (res: Option<i64>)
    requires
        now <= i64::MAX - CHAT_TIMEOUT_SECONDS,
    ensures
        res == if message_count < CHAT_SPAM_RATE { None } else { Some((now + CHAT_TIMEOUT_SECONDS) as i64) },
{
    if message_count < CHAT_SPAM_RATE {
        None
    } else {
        Some(now + CHAT_TIMEOUT_SECONDS)
    }
}

/// Whether a receiver requiring friendship (private messages) has the
/// sender as a friend.
#[derive(Debug, Clone, Copy, PartialEq, Eq, Structural)]
pub enum RelationshipLookup {
    Found,
    NotFound,
    /// The lookup failed; the failure is logged and the message goes through.
    Failed,
}

/// The facts about a message's recipient.
#[derive(Debug, Clone, Copy, PartialEq, Eq, Structural)]
pub enum RecipientFacts {
    /// A channel, and whether the sender may write in it.
    Channel { can_write: bool },
    /// An online user.
    UserSession { user_id: i64, visible: bool, private_dms: bool, relationship: RelationshipLookup },
    /// An offline user.
    OfflineUser { user_id: i64, visible: bool },
    /// The chat bot.
    Bot,
}

/// Where a message is stored.
#[derive(Debug, Clone, Copy, PartialEq, Eq, Structural)]
pub struct RecipientInfo {
    pub to_channel: bool,
    pub recipient_id: Option<i64>,
    pub mark_as_unread: bool,
}

/// The bot's user ID.
pub const BOT_ID: i64 = 999;

/// Decides where a message goes, or why it may not be sent. Staff
/// (community managers) may write to restricted users; users with private
/// messages only receive them from friends; offline users get the message
/// marked unread.
pub fn recipient_info(sender_privileges: i32, facts: RecipientFacts) -> (res: Result<RecipientInfo, AppError>)
    ensures
        res == match facts {
            RecipientFacts::Channel { can_write } => if can_write {
                Ok(RecipientInfo { to_channel: true, recipient_id: None, mark_as_unread: false })
            } else {
                Err(AppError::ChannelsUnauthorized)
            },
            RecipientFacts::UserSession { user_id, visible, private_dms, relationship } => {
                if !visible && !has_all(sender_privileges, ADMIN_CAKER) {
                    Err(AppError::InteractionBlocked)
                } else if private_dms && relationship == RelationshipLookup::NotFound {
                    Err(AppError::InteractionBlocked)
                } else {
                    Ok(RecipientInfo { to_channel: false, recipient_id: Some(user_id), mark_as_unread: false })
                }
            },
            RecipientFacts::OfflineUser { user_id, visible } => {
                if !visible && !has_all(sender_privileges, ADMIN_CAKER) {
                    Err(AppError::InteractionBlocked)
                } else {
                    Ok(RecipientInfo { to_channel: false, recipient_id: Some(user_id), mark_as_unread: true })
                }
            },
            RecipientFacts::Bot => Ok(RecipientInfo { to_channel: false, recipient_id: Some(BOT_ID), mark_as_unread: false }),
        },
{
    match facts {
        RecipientFacts::Channel { can_write } => {
            if !can_write {
                return Err(AppError::ChannelsUnauthorized);
            }
            Ok(RecipientInfo { to_channel: true, recipient_id: None, mark_as_unread: false })
        },
        RecipientFacts::UserSession { user_id, visible, private_dms, relationship } => {
            if !visible && !has_all_privileges(sender_privileges, ADMIN_CAKER) {
                return Err(AppError::InteractionBlocked);
            }
            if private_dms {
                match relationship {
                    RelationshipLookup::NotFound => return Err(AppError::InteractionBlocked),
                    _ => {},
                }
            }
            Ok(RecipientInfo { to_channel: false, recipient_id: Some(user_id), mark_as_unread: false })
        },
        RecipientFacts::OfflineUser { user_id, visible } => {
            if !visible && !has_all_privileges(sender_privileges, ADMIN_CAKER) {
                return Err(AppError::InteractionBlocked);
            }
            Ok(RecipientInfo { to_channel: false, recipient_id: Some(user_id), mark_as_unread: true })
        },
        RecipientFacts::Bot => Ok(RecipientInfo { to_channel: false, recipient_id: Some(BOT_ID), mark_as_unread: false }),
    }
}

} // verus!
