//! Where a player stands in the match it is playing, as other services ask it.
use crate::common::error::AppError;
use crate::entities::multiplayer::{MatchTeam, MultiplayerMatch, MultiplayerMatchSlot};
use crate::repositories::multiplayer::{is_first_session_slot, slot_has_session};
use vstd::prelude::*;

verus! {

/// A player's place in the last game of its match.
#[derive(Debug, Clone, PartialEq, Eq)]
pub struct PlayerMatchDetails {
    pub match_id: i64,
    pub match_name: String,
    pub game_id: i64,
    pub slot_id: usize,
    pub team: MatchTeam,
}

/// The details of the player of session `session_id` in match `match_id`:
/// the match must have had a game, and the player must hold a slot (its first
/// one counts).
pub fn player_match_details(
    match_id: i64,
    mp_match: MultiplayerMatch,
    slots: &Vec<MultiplayerMatchSlot>,
    session_id: u128,
) -> (res: Result<PlayerMatchDetails, AppError>)
    ensures
        match res {
            Ok(d) => {
                &&& mp_match.last_game_id == Some(d.game_id)
                &&& d.match_id == match_id
                &&& d.match_name@ == mp_match.name@
                &&& is_first_session_slot(slots@, d.slot_id as int, session_id)
                &&& d.team == slots@[d.slot_id as int].team
            },
            Err(e) => if mp_match.last_game_id.is_none() {
                e == AppError::MultiplayerNotFound
            } else {
                e == AppError::MultiplayerUserNotInMatch
                    && forall|j: int| 0 <= j < slots@.len() ==> !slot_has_session(slots@, j, session_id)
            },
        },
{
    let game_id = match mp_match.last_game_id {
        Some(g) => g,
        None => return Err(AppError::MultiplayerNotFound),
    };
    let mut i: usize = 0;
    while i < slots.len()
        invariant
            i <= slots@.len(),
            mp_match.last_game_id == Some(game_id),
            forall|j: int| 0 <= j < i ==> !slot_has_session(slots@, j, session_id),
        decreases slots@.len() - i,
    {
        let found = match slots[i].user {
            Some(u) => u.session_id == session_id,
            None => false,
        };
        if found {
            return Ok(PlayerMatchDetails {
                match_id,
                match_name: mp_match.name,
                game_id,
                slot_id: i,
                team: slots[i].team,
            });
        }
        i = i + 1;
    }
    Err(AppError::MultiplayerUserNotInMatch)
}

} // verus!
