//! Who may spectate whom, and what follows a spectator joining or leaving a
//! host.
use crate::common::error::AppError;
use crate::models::privileges::{PUBLICLY_VISIBLE, is_publicly_visible};
use vstd::prelude::*;

verus! {

/// Spectating takes a publicly visible spectator and a publicly visible
/// host: each of the two is checked with its own privileges, the spectator
/// before anything changes and the host once found; a restricted one blocks
/// the interaction.
pub fn spectating_allowed(privileges: i32) -> (res: Result<(), AppError>)
    ensures
        res == if privileges & PUBLICLY_VISIBLE != 0 {
            Ok::<(), AppError>(())
        } else {
            Err(AppError::InteractionBlocked)
        },
{
    if is_publicly_visible(privileges) {
        Ok(())
    } else {
        Err(AppError::InteractionBlocked)
    }
}

/// After a spectator joined: the first spectator also brings the host into
/// the spectator stream and channel; later ones are announced to the others.
#[derive(Debug, Clone, Copy, PartialEq, Eq, Structural)]
pub enum SpectatorJoinFollowUp {
    FirstSpectator,
    FellowSpectator,
}

/// Decides the follow-up of a join from the spectator count afterwards.
pub fn spectator_join_follow_up(member_count: usize) -> (f: SpectatorJoinFollowUp)
    ensures
        f == if member_count <= 1 { SpectatorJoinFollowUp::FirstSpectator } else { SpectatorJoinFollowUp::FellowSpectator },
{
    if member_count <= 1 {
        SpectatorJoinFollowUp::FirstSpectator
    } else {
        SpectatorJoinFollowUp::FellowSpectator
    }
}

/// After a spectator left: the last one makes the host leave the stream and
/// channel, clears the stream and closes the host's spectator channel; else
/// the others are told.
#[derive(Debug, Clone, Copy, PartialEq, Eq, Structural)]
pub enum SpectatorLeaveFollowUp {
    LastSpectator,
    OthersRemain,
}

/// Decides the follow-up of a leave from the spectator count afterwards.
pub fn spectator_leave_follow_up(member_count: usize) -> (f: SpectatorLeaveFollowUp)
    ensures
        f == if member_count == 0 { SpectatorLeaveFollowUp::LastSpectator } else { SpectatorLeaveFollowUp::OthersRemain },
{
    if member_count == 0 {
        SpectatorLeaveFollowUp::LastSpectator
    } else {
        SpectatorLeaveFollowUp::OthersRemain
    }
}

} // verus!
