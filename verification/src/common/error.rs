//! The errors that the service's rules can answer a request with.
use vstd::prelude::*;

verus! {

/// Why a request was refused.
#[derive(Debug, Clone, Copy, PartialEq, Eq, Structural)]
pub enum AppError {
    BadgesNotFound,
    BeatmapsNotFound,
    InteractionBlocked,
    ClientTooOld,
    DecodingRequestFailed,
    ChannelsNotFound,
    ChannelsUnauthorized,
    MessagesInvalidLength,
    MessagesUserSilenced,
    MessagesUserAutoSilenced,
    MultiplayerNotFound,
    MultiplayerInvalidPassword,
    MultiplayerMatchFull,
    MultiplayerUnauthorized,
    MultiplayerUserNotInMatch,
    MultiplayerSlotNotFound,
    PresencesNotFound,
    RelationshipsNotFound,
    SessionsInvalidCredentials,
    SessionsLoginForbidden,
    SessionsNotFound,
    UsersNotFound,
}

} // verus!
