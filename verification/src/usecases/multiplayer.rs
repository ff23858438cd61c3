//! The rules of multiplayer matches: who may change what, how slots move when
//! players join, leave, swap, ready up and play, and how mods are split.
use crate::common::error::AppError;
use crate::entities::gamemodes::{Mode, custom_gamemode_for, gamemode_from_mode_and_mods, gamemode_value};
use crate::entities::multiplayer::{
    MatchTeam, MultiplayerMatch, MultiplayerMatchSlot, MULTIPLAYER_MAX_SIZE, SLOT_EMPTY,
    SLOT_LOCKED, SLOT_NO_MAP, SLOT_NOT_READY, SLOT_PLAYING, SLOT_READY, vacant_slot,
};
use crate::entities::sessions::SessionIdentity;
use crate::repositories::multiplayer::{occupied_count, sessions_distinct, slot_has_session};
use vstd::prelude::*;

verus! {

/// Mods that stay on the match when free mod is enabled: halftime,
/// doubletime and nightcore.
pub const MATCH_WIDE_MODS: u32 = 832;

/// The match ID that the osu! client sees for a durable match ID: its low 16 bits.
pub fn ingame_match_id(match_id: i64) -> (id: i32)
    ensures
        id == match_id & 0xFFFF,
        0 <= id < 65536,
{
    let low: i64 = match_id & 0xFFFF;
    assert(0 <= match_id & 0xFFFF <= 0xFFFF) by (bit_vector);
    low as i32
}

/// Splits mods into the part each player keeps on their own slot and the part
/// that stays on the match (halftime, doubletime, nightcore): `(slot, match)`.
pub fn split_mods(mods: u32) -> (res: (u32, u32))
    ensures
        res.1 == mods & MATCH_WIDE_MODS,
        res.0 == mods & !MATCH_WIDE_MODS,
{
    let match_mods = mods & MATCH_WIDE_MODS;
    let slot_mods = mods & !match_mods;
    assert(mods & !(mods & 832u32) == mods & !832u32) by (bit_vector);
    (slot_mods, match_mods)
}

/// The two halves of split mods are disjoint and together give back the mods.
pub proof fn lemma_split_mods_partition(mods: u32)
    ensures
        (mods & !MATCH_WIDE_MODS) & (mods & MATCH_WIDE_MODS) == 0,
        (mods & !MATCH_WIDE_MODS) | (mods & MATCH_WIDE_MODS) == mods,
{
    assert((mods & !832u32) & (mods & 832u32) == 0) by (bit_vector);
    assert((mods & !832u32) | (mods & 832u32) == mods) by (bit_vector);
}

/// Refuses a change when a host check is asked for and the user is not the host.
pub fn check_host(mp_match: &MultiplayerMatch, check: Option<i64>) -> (res: Result<(), AppError>)
    ensures
        res is Err <==> (check matches Some(h) && h != mp_match.host_user_id),
        res matches Err(e) ==> e == AppError::MultiplayerUnauthorized,
{
    match check {
        Some(h) => {
            if h != mp_match.host_user_id {
                Err(AppError::MultiplayerUnauthorized)
            } else {
                Ok(())
            }
        },
        None => Ok(()),
    }
}

/// A password must match the match's password exactly to join it.
pub fn check_join_password(mp_match: &MultiplayerMatch, password: &str) -> (res: Result<(), AppError>)
    ensures
        res is Ok <==> mp_match.password@ == password@,
        res matches Err(e) ==> e == AppError::MultiplayerInvalidPassword,
{
    let given = String::from_str(password);
    if mp_match.password == given {
        Ok(())
    } else {
        Err(AppError::MultiplayerInvalidPassword)
    }
}

/// Slot IDs run from 0 to 15.
pub fn check_slot_id(slot_id: usize) -> (res: Result<(), AppError>)
    ensures
        res is Ok <==> slot_id < MULTIPLAYER_MAX_SIZE,
        res matches Err(e) ==> e == AppError::MultiplayerSlotNotFound,
{
    if slot_id > 15 {
        Err(AppError::MultiplayerSlotNotFound)
    } else {
        Ok(())
    }
}

/// Whether slot `i` holds the user.
pub open spec fn slot_has_user(slots: Seq<MultiplayerMatchSlot>, i: int, user_id: i64) -> bool {
    slots[i].user matches Some(u) && u.user_id == user_id
}

/// Index of the first slot that holds the user.
pub open spec fn is_first_user_slot(slots: Seq<MultiplayerMatchSlot>, i: int, user_id: i64) -> bool {
    &&& 0 <= i < slots.len()
    &&& slot_has_user(slots, i, user_id)
    &&& forall|j: int| 0 <= j < i ==> !slot_has_user(slots, j, user_id)
}

/// Finds the first slot that holds the user.
pub fn fetch_user_slot(slots: &Vec<MultiplayerMatchSlot>, user_id: i64) -> (res: Result<(usize, MultiplayerMatchSlot), AppError>)
    ensures
        match res {
            Ok((i, slot)) => is_first_user_slot(slots@, i as int, user_id) && slot == slots@[i as int],
            Err(e) => e == AppError::MultiplayerUserNotInMatch
                && forall|j: int| 0 <= j < slots@.len() ==> !slot_has_user(slots@, j, user_id),
        },
{
    let mut i: usize = 0;
    while i < slots.len()
        invariant
            i <= slots@.len(),
            forall|j: int| 0 <= j < i ==> !slot_has_user(slots@, j, user_id),
        decreases slots@.len() - i,
    {
        let found = match slots[i].user {
            Some(u) => u.user_id == user_id,
            None => false,
        };
        if found {
            return Ok((i, slots[i]));
        }
        i = i + 1;
    }
    Err(AppError::MultiplayerUserNotInMatch)
}

/// Index of the first slot with any user in it.
pub open spec fn is_first_occupied(slots: Seq<MultiplayerMatchSlot>, i: int) -> bool {
    &&& 0 <= i < slots.len()
    &&& slots[i].user is Some
    &&& forall|j: int| 0 <= j < i ==> slots[j].user is None
}

/// The user of the first occupied slot: who becomes host when the host leaves.
pub fn next_host(slots: &Vec<MultiplayerMatchSlot>) -> (res: Option<i64>)
    ensures
        match res {
            Some(h) => exists|i: int| is_first_occupied(slots@, i) && slots@[i].user.unwrap().user_id == h,
            None => forall|j: int| 0 <= j < slots@.len() ==> slots@[j].user is None,
        },
{
    let mut i: usize = 0;
    while i < slots.len()
        invariant
            i <= slots@.len(),
            forall|j: int| 0 <= j < i ==> slots@[j].user is None,
        decreases slots@.len() - i,
    {
        match slots[i].user {
            Some(u) => {
                assert(is_first_occupied(slots@, i as int));
                return Some(u.user_id);
            },
            None => {},
        }
        i = i + 1;
    }
    None
}

/// What follows a player leaving a match.
#[derive(Debug, Clone, Copy, PartialEq, Eq, Structural)]
pub enum LeaveFollowUp {
    /// Nobody is left: the match is deleted.
    DeleteMatch,
    /// The match goes on; when the host left, the user of the first occupied
    /// slot (if any) becomes host.
    KeepMatch { new_host: Option<i64> },
}

/// Decides what follows a player (`leaving_user_id`) leaving: deletion of an
/// empty match, or a host hand-over when the host left.
pub fn leave_follow_up(
    host_user_id: i64,
    leaving_user_id: i64,
    user_count: usize,
    slots: &Vec<MultiplayerMatchSlot>,
) -> (res: LeaveFollowUp)
    ensures
        user_count == 0 ==> res == LeaveFollowUp::DeleteMatch,
        user_count != 0 && host_user_id != leaving_user_id ==> res == (LeaveFollowUp::KeepMatch { new_host: None }),
        user_count != 0 && host_user_id == leaving_user_id ==> (res matches LeaveFollowUp::KeepMatch { new_host }
            && match new_host {
                Some(h) => exists|i: int| is_first_occupied(slots@, i) && slots@[i].user.unwrap().user_id == h,
                None => forall|j: int| 0 <= j < slots@.len() ==> slots@[j].user is None,
            }),
{
    if user_count == 0 {
        LeaveFollowUp::DeleteMatch
    } else if host_user_id == leaving_user_id {
        LeaveFollowUp::KeepMatch { new_host: next_host(slots) }
    } else {
        LeaveFollowUp::KeepMatch { new_host: None }
    }
}

/// Hands the host role to the user in slot `slot_id`. Refused for a slot ID
/// above 15, for a non-host when the host is checked, and for a slot with
/// nobody in it, in that order.
pub fn transfer_host_to_slot(
    mp_match: MultiplayerMatch,
    slots: &Vec<MultiplayerMatchSlot>,
    slot_id: usize,
    check: Option<i64>,
) -> (res: Result<MultiplayerMatch, AppError>)
    requires
        slots@.len() == MULTIPLAYER_MAX_SIZE,
    ensures
        slot_id >= MULTIPLAYER_MAX_SIZE ==> res == Err::<MultiplayerMatch, AppError>(AppError::MultiplayerSlotNotFound),
        slot_id < MULTIPLAYER_MAX_SIZE && (check matches Some(h) && h != mp_match.host_user_id)
            ==> res == Err::<MultiplayerMatch, AppError>(AppError::MultiplayerUnauthorized),
        slot_id < MULTIPLAYER_MAX_SIZE && !(check matches Some(h) && h != mp_match.host_user_id) ==> match slots@[slot_id as int].user {
            Some(u) => res == Ok::<MultiplayerMatch, AppError>(MultiplayerMatch { host_user_id: u.user_id, ..mp_match }),
            None => res == Err::<MultiplayerMatch, AppError>(AppError::MultiplayerSlotNotFound),
        },
{
    if slot_id > 15 {
        return Err(AppError::MultiplayerSlotNotFound);
    }
    match check {
        Some(h) => {
            if h != mp_match.host_user_id {
                return Err(AppError::MultiplayerUnauthorized);
            }
        },
        None => {},
    }
    match slots[slot_id].user {
        Some(u) => {
            let mut m = mp_match;
            m.host_user_id = u.user_id;
            Ok(m)
        },
        None => Err(AppError::MultiplayerSlotNotFound),
    }
}

/// Hands the host role to a user who is in the match.
pub fn transfer_host_to_user(
    mp_match: MultiplayerMatch,
    slots: &Vec<MultiplayerMatchSlot>,
    user_id: i64,
    check: Option<i64>,
) -> (res: Result<MultiplayerMatch, AppError>)
    ensures
        (check matches Some(h) && h != mp_match.host_user_id)
            ==> res == Err::<MultiplayerMatch, AppError>(AppError::MultiplayerUnauthorized),
        !(check matches Some(h) && h != mp_match.host_user_id) ==> if exists|j: int| 0 <= j < slots@.len() && slot_has_user(slots@, j, user_id) {
            res == Ok::<MultiplayerMatch, AppError>(MultiplayerMatch { host_user_id: user_id, ..mp_match })
        } else {
            res == Err::<MultiplayerMatch, AppError>(AppError::MultiplayerUserNotInMatch)
        },
{
    match check {
        Some(h) => {
            if h != mp_match.host_user_id {
                return Err(AppError::MultiplayerUnauthorized);
            }
        },
        None => {},
    }
    match fetch_user_slot(slots, user_id) {
        Ok(_) => {
            let mut m = mp_match;
            m.host_user_id = user_id;
            Ok(m)
        },
        Err(e) => Err(e),
    }
}

/// Swaps the user's slot with the slot `target_slot_id`; returns the user's
/// former slot ID and the slots afterwards.
pub fn swap_user_slots(
    slots: &Vec<MultiplayerMatchSlot>,
    target_slot_id: usize,
    user_id: i64,
) -> (res: Result<(usize, Vec<MultiplayerMatchSlot>), AppError>)
    requires
        target_slot_id < slots@.len(),
    ensures
        match res {
            Ok((i, new_slots)) => is_first_user_slot(slots@, i as int, user_id)
                && new_slots@ == slots@.update(target_slot_id as int, slots@[i as int]).update(i as int, slots@[target_slot_id as int]),
            Err(e) => e == AppError::MultiplayerUserNotInMatch
                && forall|j: int| 0 <= j < slots@.len() ==> !slot_has_user(slots@, j, user_id),
        },
{
    let (user_slot_id, user_slot) = match fetch_user_slot(slots, user_id) {
        Ok(found) => found,
        Err(e) => return Err(e),
    };
    let target_slot = slots[target_slot_id];
    let mut new_slots = slots.clone();
    new_slots.set(target_slot_id, user_slot);
    new_slots.set(user_slot_id, target_slot);
    Ok((user_slot_id, new_slots))
}

/// Swapping a user's slot with a target and then swapping back the same two
/// slots restores the slots.
pub proof fn lemma_swap_twice_restores(slots: Seq<MultiplayerMatchSlot>, i: int, t: int)
    requires
        0 <= i < slots.len(),
        0 <= t < slots.len(),
    ensures
        ({
            let once = slots.update(t, slots[i]).update(i, slots[t]);
            once.update(t, once[i]).update(i, once[t]) == slots
        }),
{
    let once = slots.update(t, slots[i]).update(i, slots[t]);
    assert(once.update(t, once[i]).update(i, once[t]) =~= slots);
}

/// The team a player moves to when switching: no team and red go to blue,
/// blue goes to red.
pub open spec fn next_team(team: MatchTeam) -> MatchTeam {
    match team {
        MatchTeam::NoTeam => MatchTeam::Blue,
        MatchTeam::Blue => MatchTeam::Red,
        MatchTeam::Red => MatchTeam::Blue,
    }
}

/// Moves the user to the other team; returns the user's slot ID and the slots.
pub fn switch_teams(slots: &Vec<MultiplayerMatchSlot>, user_id: i64) -> (res: Result<(usize, Vec<MultiplayerMatchSlot>), AppError>)
    ensures
        match res {
            Ok((i, new_slots)) => is_first_user_slot(slots@, i as int, user_id)
                && new_slots@ == slots@.update(i as int, MultiplayerMatchSlot { team: next_team(slots@[i as int].team), ..slots@[i as int] }),
            Err(e) => e == AppError::MultiplayerUserNotInMatch
                && forall|j: int| 0 <= j < slots@.len() ==> !slot_has_user(slots@, j, user_id),
        },
{
    let (slot_id, slot) = match fetch_user_slot(slots, user_id) {
        Ok(found) => found,
        Err(e) => return Err(e),
    };
    let mut slot = slot;
    slot.team = match slot.team {
        MatchTeam::NoTeam => MatchTeam::Blue,
        MatchTeam::Blue => MatchTeam::Red,
        MatchTeam::Red => MatchTeam::Blue,
    };
    let mut new_slots = slots.clone();
    new_slots.set(slot_id, slot);
    Ok((slot_id, new_slots))
}

/// Switching teams twice from a team leaves the player on that team, except
/// from no team, which ends on red.
pub proof fn lemma_switch_teams_alternates(team: MatchTeam)
    ensures
        next_team(team) != MatchTeam::NoTeam,
        next_team(next_team(next_team(team))) == next_team(team),
        next_team(team) != team,
{
}

/// Setting a slot's status: the new slot, and the user to kick out of the
/// match (when a slot with a user in it is locked).
pub open spec fn slot_status_change_spec(slot: MultiplayerMatchSlot, status: u8) -> (MultiplayerMatchSlot, Option<SessionIdentity>) {
    let locking = status == SLOT_LOCKED;
    let base = if slot.user is Some && locking { vacant_slot(SLOT_EMPTY) } else { slot };
    let new_status = if slot.status == SLOT_LOCKED && locking { SLOT_EMPTY } else { status };
    (MultiplayerMatchSlot { status: new_status, ..base }, if locking { slot.user } else { None })
}

/// The lock toggles: locking a slot that is not locked locks it, empties it
/// and kicks its user; locking it again opens it, and nobody is kicked.
pub proof fn lemma_lock_toggles(slot: MultiplayerMatchSlot)
    requires
        slot.status != SLOT_LOCKED,
    ensures
        slot_status_change_spec(slot, SLOT_LOCKED).0.status == SLOT_LOCKED,
        slot_status_change_spec(slot, SLOT_LOCKED).0.user is None,
        slot_status_change_spec(slot, SLOT_LOCKED).1 == slot.user,
        slot_status_change_spec(slot_status_change_spec(slot, SLOT_LOCKED).0, SLOT_LOCKED).0.status == SLOT_EMPTY,
        slot_status_change_spec(slot_status_change_spec(slot, SLOT_LOCKED).0, SLOT_LOCKED).0.user is None,
        slot_status_change_spec(slot_status_change_spec(slot, SLOT_LOCKED).0, SLOT_LOCKED).1 is None,
{
}

/// Applies a status change to a slot: locking a locked slot opens it, locking
/// an occupied slot empties it and kicks its user.
pub fn slot_status_change(slot: MultiplayerMatchSlot, status: u8) -> (res: (MultiplayerMatchSlot, Option<SessionIdentity>))
    ensures
        res == slot_status_change_spec(slot, status),
{
    let slot_locked = slot.status == SLOT_LOCKED;
    let locking_slot = status == SLOT_LOCKED;
    let mut new_slot = slot;
    let mut kicked: Option<SessionIdentity> = None;
    match slot.user {
        Some(u) => {
            if locking_slot {
                new_slot.clear();
                kicked = Some(u);
            }
        },
        None => {},
    }
    if slot_locked && locking_slot {
        new_slot.status = SLOT_EMPTY;
    } else {
        new_slot.status = status;
    }
    (new_slot, kicked)
}

/// Whether a joined or left stream change is asked for a session.
#[derive(Debug, Clone, Copy, PartialEq, Eq, Structural)]
pub struct PlayingStreamChange {
    pub session_id: u128,
    pub join: bool,
}

/// A slot when the game starts: ready and not-ready players start playing.
pub open spec fn started_slot(slot: MultiplayerMatchSlot) -> MultiplayerMatchSlot {
    if slot.user is Some && slot.status & (SLOT_READY | SLOT_NOT_READY) != 0 {
        MultiplayerMatchSlot { status: SLOT_PLAYING, ..slot }
    } else {
        slot
    }
}

/// The change of the playing-stream membership for the occupied slots, in slot order.
pub open spec fn start_stream_changes(slots: Seq<MultiplayerMatchSlot>) -> Seq<PlayingStreamChange>
    decreases slots.len(),
{
    if slots.len() == 0 {
        Seq::empty()
    } else {
        let rest = start_stream_changes(slots.drop_last());
        let s = slots.last();
        match s.user {
            Some(u) => rest.push(PlayingStreamChange {
                session_id: u.session_id,
                join: s.status & (SLOT_READY | SLOT_NOT_READY) != 0,
            }),
            None => rest,
        }
    }
}

/// Whether the changes make the session join the playing stream.
pub open spec fn joins_playing(changes: Seq<PlayingStreamChange>, session_id: u128) -> bool {
    exists|k: int| 0 <= k < changes.len() && #[trigger] changes[k].session_id == session_id && changes[k].join
}

/// Whether the changes make the session leave the playing stream.
pub open spec fn leaves_playing(changes: Seq<PlayingStreamChange>, session_id: u128) -> bool {
    exists|k: int| 0 <= k < changes.len() && #[trigger] changes[k].session_id == session_id && !changes[k].join
}

/// Starting a game puts every player whose slot is ready or not ready into
/// the game: the slot becomes playing and the player's session joins the
/// playing stream.
pub proof fn lemma_ready_players_start(slots: Seq<MultiplayerMatchSlot>, i: int)
    requires
        0 <= i < slots.len(),
        slots[i].user is Some,
        slots[i].status == SLOT_READY || slots[i].status == SLOT_NOT_READY,
    ensures
        started_slot(slots[i]).status == SLOT_PLAYING,
        started_slot(slots[i]).user == slots[i].user,
        joins_playing(start_stream_changes(slots), slots[i].user.unwrap().session_id),
    decreases slots.len(),
{
    let st = slots[i].status;
    assert(st & (SLOT_READY | SLOT_NOT_READY) != 0) by (bit_vector)
        requires
            st == SLOT_READY || st == SLOT_NOT_READY;
    let rest = start_stream_changes(slots.drop_last());
    if i == slots.len() - 1 {
        let changes = start_stream_changes(slots);
        assert(changes[rest.len() as int].session_id == slots[i].user.unwrap().session_id);
    } else {
        lemma_ready_players_start(slots.drop_last(), i);
        let sid = slots[i].user.unwrap().session_id;
        let k = choose|k: int| 0 <= k < rest.len() && #[trigger] rest[k].session_id == sid && rest[k].join;
        let changes = start_stream_changes(slots);
        assert(changes[k] == rest[k]);
    }
}

/// Starting a game leaves a player without the beatmap out: the slot stays
/// as it is and the player's session leaves the playing stream.
pub proof fn lemma_players_without_map_stay_out(slots: Seq<MultiplayerMatchSlot>, i: int)
    requires
        0 <= i < slots.len(),
        slots[i].user is Some,
        slots[i].status == SLOT_NO_MAP,
    ensures
        started_slot(slots[i]) == slots[i],
        leaves_playing(start_stream_changes(slots), slots[i].user.unwrap().session_id),
    decreases slots.len(),
{
    let st = slots[i].status;
    assert(st & (SLOT_READY | SLOT_NOT_READY) == 0) by (bit_vector)
        requires
            st == SLOT_NO_MAP;
    let rest = start_stream_changes(slots.drop_last());
    if i == slots.len() - 1 {
        let changes = start_stream_changes(slots);
        assert(changes[rest.len() as int].session_id == slots[i].user.unwrap().session_id);
    } else {
        lemma_players_without_map_stay_out(slots.drop_last(), i);
        let sid = slots[i].user.unwrap().session_id;
        let k = choose|k: int| 0 <= k < rest.len() && #[trigger] rest[k].session_id == sid && !rest[k].join;
        let changes = start_stream_changes(slots);
        assert(changes[k] == rest[k]);
    }
}

/// Starts a game on the slots: every occupied slot that is ready or not
/// ready becomes playing and its session joins the playing stream; the other
/// occupied slots' sessions leave it.
pub fn start_game_slots(slots: &Vec<MultiplayerMatchSlot>) -> (res: (Vec<MultiplayerMatchSlot>, Vec<PlayingStreamChange>))
    ensures
        res.0@.len() == slots@.len(),
        forall|i: int| 0 <= i < slots@.len() ==> res.0@[i] == started_slot(slots@[i]),
        res.1@ == start_stream_changes(slots@),
        forall|i: int| 0 <= i < slots@.len() && slots@[i].user is Some
            && (slots@[i].status == SLOT_READY || slots@[i].status == SLOT_NOT_READY)
            ==> res.0@[i].status == SLOT_PLAYING && joins_playing(res.1@, slots@[i].user.unwrap().session_id),
{
    let mut new_slots: Vec<MultiplayerMatchSlot> = Vec::new();
    let mut changes: Vec<PlayingStreamChange> = Vec::new();
    let mut i: usize = 0;
    while i < slots.len()
        invariant
            i <= slots@.len(),
            new_slots@.len() == i,
            forall|j: int| 0 <= j < i ==> new_slots@[j] == started_slot(slots@[j]),
            changes@ == start_stream_changes(slots@.take(i as int)),
        decreases slots@.len() - i,
    {
        assert(slots@.take(i + 1).drop_last() == slots@.take(i as int));
        let mut slot = slots[i];
        match slot.user {
            Some(u) => {
                let playing = slot.status & (SLOT_READY | SLOT_NOT_READY) != 0;
                if playing {
                    slot.status = SLOT_PLAYING;
                }
                changes.push(PlayingStreamChange { session_id: u.session_id, join: playing });
            },
            None => {},
        }
        new_slots.push(slot);
        i = i + 1;
    }
    assert(slots@.take(slots@.len() as int) == slots@);
    proof {
        assert forall|i: int| 0 <= i < slots@.len() && slots@[i].user is Some
            && (slots@[i].status == SLOT_READY || slots@[i].status == SLOT_NOT_READY)
            implies new_slots@[i].status == SLOT_PLAYING && joins_playing(changes@, slots@[i].user.unwrap().session_id) by {
            lemma_ready_players_start(slots@, i);
        }
    }
    (new_slots, changes)
}

/// A slot when the game ends: occupied slots go back to not ready.
pub open spec fn ended_slot(slot: MultiplayerMatchSlot) -> MultiplayerMatchSlot {
    if slot.user is Some {
        MultiplayerMatchSlot { status: SLOT_NOT_READY, ..slot }
    } else {
        slot
    }
}

/// Ends a game on the slots: every occupied slot becomes not ready.
pub fn end_game_slots(slots: &Vec<MultiplayerMatchSlot>) -> (res: Vec<MultiplayerMatchSlot>)
    ensures
        res@.len() == slots@.len(),
        forall|i: int| 0 <= i < slots@.len() ==> res@[i] == ended_slot(slots@[i]),
{
    let mut new_slots: Vec<MultiplayerMatchSlot> = Vec::new();
    let mut i: usize = 0;
    while i < slots.len()
        invariant
            i <= slots@.len(),
            new_slots@.len() == i,
            forall|j: int| 0 <= j < i ==> new_slots@[j] == ended_slot(slots@[j]),
        decreases slots@.len() - i,
    {
        let mut slot = slots[i];
        if slot.user.is_some() {
            slot.status = SLOT_NOT_READY;
        }
        new_slots.push(slot);
        i = i + 1;
    }
    new_slots
}

/// After a game ends, no occupied slot is playing; every player is not ready.
pub proof fn lemma_end_game_resets_players(slot: MultiplayerMatchSlot)
    ensures
        ended_slot(slot).user is Some ==> ended_slot(slot).status == SLOT_NOT_READY,
        ended_slot(slot).user == slot.user,
        ended_slot(ended_slot(slot)) == ended_slot(slot),
{
}


/// The settings a host sends for a match.
#[derive(Debug, Clone)]
pub struct MatchSettings {
    pub name: String,
    pub password: String,
    pub beatmap_name: String,
    pub beatmap_md5: String,
    pub beatmap_id: i32,
    pub mode: Mode,
    pub win_condition: u8,
    pub team_type: u8,
    pub random_seed: i32,
    pub freemod_enabled: bool,
}

/// A slot whose player (if any) now plays with the given mods.
pub open spec fn slot_with_mods(slot: MultiplayerMatchSlot, mods: u32) -> MultiplayerMatchSlot {
    if slot.user is Some {
        MultiplayerMatchSlot { mods, ..slot }
    } else {
        slot
    }
}

/// Gives every occupied slot the mods.
pub fn set_occupied_slot_mods(slots: &Vec<MultiplayerMatchSlot>, mods: u32) -> (res: Vec<MultiplayerMatchSlot>)
    ensures
        res@.len() == slots@.len(),
        forall|i: int| 0 <= i < slots@.len() ==> res@[i] == slot_with_mods(slots@[i], mods),
{
    let mut new_slots: Vec<MultiplayerMatchSlot> = Vec::new();
    let mut i: usize = 0;
    while i < slots.len()
        invariant
            i <= slots@.len(),
            new_slots@.len() == i,
            forall|j: int| 0 <= j < i ==> new_slots@[j] == slot_with_mods(slots@[j], mods),
        decreases slots@.len() - i,
    {
        let mut slot = slots[i];
        if slot.user.is_some() {
            slot.mods = mods;
        }
        new_slots.push(slot);
        i = i + 1;
    }
    new_slots
}

/// A match after its host sent new settings, and what is to be written.
#[derive(Debug, Clone)]
pub struct MatchSettingsUpdate {
    pub mp_match: MultiplayerMatch,
    pub slots: Vec<MultiplayerMatchSlot>,
    /// Free mod was just enabled: every slot is to be written.
    pub write_all_slots: bool,
    /// The name or the privacy changed: the database row is to be updated.
    pub update_persistent: bool,
}

/// Applies a host's settings to a match. The beatmap hash only changes with
/// the beatmap name; the game mode is derived from the ruleset and the
/// match's mods; enabling free mod moves all but the match-wide mods onto the
/// players' slots.
pub fn apply_match_settings(
    mp_match: MultiplayerMatch,
    slots: &Vec<MultiplayerMatchSlot>,
    args: &MatchSettings,
) -> (res: MatchSettingsUpdate)
    ensures
        res.mp_match.match_id == mp_match.match_id,
        res.mp_match.wire_id == mp_match.wire_id,
        res.mp_match.host_user_id == mp_match.host_user_id,
        res.mp_match.in_progress == mp_match.in_progress,
        res.mp_match.last_game_id == mp_match.last_game_id,
        res.mp_match.name@ == args.name@,
        res.mp_match.password@ == args.password@,
        res.mp_match.beatmap_name@ == args.beatmap_name@,
        res.mp_match.beatmap_md5@ == if mp_match.beatmap_name@ != args.beatmap_name@ {
            args.beatmap_md5@
        } else {
            mp_match.beatmap_md5@
        },
        res.mp_match.beatmap_id == args.beatmap_id,
        res.mp_match.mode == gamemode_value(args.mode, custom_gamemode_for(args.mode, mp_match.mods)),
        res.mp_match.win_condition == args.win_condition,
        res.mp_match.team_type == args.team_type,
        res.mp_match.random_seed == args.random_seed,
        res.mp_match.freemod_enabled == args.freemod_enabled,
        res.write_all_slots == (!mp_match.freemod_enabled && args.freemod_enabled),
        res.mp_match.mods == if res.write_all_slots { mp_match.mods & MATCH_WIDE_MODS } else { mp_match.mods },
        res.slots@.len() == slots@.len(),
        forall|i: int| 0 <= i < slots@.len() ==> res.slots@[i] == if res.write_all_slots {
            slot_with_mods(slots@[i], mp_match.mods & !MATCH_WIDE_MODS)
        } else {
            slots@[i]
        },
        res.update_persistent == (mp_match.name@ != args.name@
            || (mp_match.password@.len() == 0) != (args.password@.len() == 0)),
{
    let mut m = mp_match;
    let update_name = !(m.name == args.name);
    let update_private = m.password.as_str().is_empty() != args.password.as_str().is_empty();
    m.password = args.password.clone();
    m.name = args.name.clone();
    if !(m.beatmap_name == args.beatmap_name) {
        m.beatmap_name = args.beatmap_name.clone();
        m.beatmap_md5 = args.beatmap_md5.clone();
    }
    m.beatmap_id = args.beatmap_id;
    let match_mods = m.mods;
    m.mode = gamemode_from_mode_and_mods(args.mode, match_mods);
    m.win_condition = args.win_condition;
    m.team_type = args.team_type;
    m.random_seed = args.random_seed;
    let freemod_changed = m.freemod_enabled != args.freemod_enabled;
    let mut write_all_slots = false;
    let mut new_slots = slots.clone();
    if freemod_changed {
        m.freemod_enabled = args.freemod_enabled;
        if m.freemod_enabled {
            let (slot_mods, kept) = split_mods(match_mods);
            m.mods = kept;
            new_slots = set_occupied_slot_mods(slots, slot_mods);
            write_all_slots = true;
        }
    }
    assert(new_slots@ == slots@ || write_all_slots);
    MatchSettingsUpdate {
        mp_match: m,
        slots: new_slots,
        write_all_slots,
        update_persistent: update_name || update_private,
    }
}

/// The per-player flags that a playing state change sets.
#[derive(Debug, Clone, Copy, PartialEq, Eq, Structural)]
pub enum PlayingFlag {
    Loaded,
    Skipped,
    Failed,
    Completed,
}

/// The value of a player's flag.
pub open spec fn flag_of(slot: MultiplayerMatchSlot, flag: PlayingFlag) -> bool {
    match flag {
        PlayingFlag::Loaded => slot.loaded,
        PlayingFlag::Skipped => slot.skipped,
        PlayingFlag::Failed => slot.failed,
        PlayingFlag::Completed => slot.completed,
    }
}

/// A slot with the flag set; the loaded flag is set along with any flag.
pub open spec fn with_flag(slot: MultiplayerMatchSlot, flag: PlayingFlag) -> MultiplayerMatchSlot {
    match flag {
        PlayingFlag::Loaded => MultiplayerMatchSlot { loaded: true, ..slot },
        PlayingFlag::Skipped => MultiplayerMatchSlot { skipped: true, loaded: true, ..slot },
        PlayingFlag::Failed => MultiplayerMatchSlot { failed: true, loaded: true, ..slot },
        PlayingFlag::Completed => MultiplayerMatchSlot { completed: true, loaded: true, ..slot },
    }
}

/// Index of the last slot that holds the session.
pub open spec fn is_last_session_slot(slots: Seq<MultiplayerMatchSlot>, k: int, session_id: u128) -> bool {
    &&& 0 <= k < slots.len()
    &&& slot_has_session(slots, k, session_id)
    &&& forall|j: int| k < j < slots.len() ==> !slot_has_session(slots, j, session_id)
}

/// Every occupied slot before `n` that does not hold the session has the flag.
pub open spec fn others_flagged(slots: Seq<MultiplayerMatchSlot>, n: int, session_id: u128, flag: PlayingFlag) -> bool {
    forall|j: int| 0 <= j < n && slots[j].user is Some
        && !slot_has_session(slots, j, session_id) ==> #[trigger] flag_of(slots[j], flag)
}

/// Extending the range of `others_flagged` by one slot.
pub proof fn lemma_others_flagged_step(slots: Seq<MultiplayerMatchSlot>, n: int, session_id: u128, flag: PlayingFlag)
    requires
        0 <= n < slots.len(),
    ensures
        others_flagged(slots, n + 1, session_id, flag) == (others_flagged(slots, n, session_id, flag)
            && (slots[n].user is Some && !slot_has_session(slots, n, session_id) ==> flag_of(slots[n], flag))),
{
    if others_flagged(slots, n, session_id, flag)
        && (slots[n].user is Some && !slot_has_session(slots, n, session_id) ==> flag_of(slots[n], flag)) {
        assert forall|j: int| 0 <= j < n + 1 && slots[j].user is Some
            && !slot_has_session(slots, j, session_id) implies #[trigger] flag_of(slots[j], flag) by {
            if j < n {
                assert(flag_of(slots[j], flag));
            }
        }
    }
}

/// Setting a player's flag sets that flag and the loaded flag, keeps every
/// flag that was already set, and leaves the user and status alone.
pub proof fn lemma_with_flag_sets_flag(slot: MultiplayerMatchSlot, flag: PlayingFlag)
    ensures
        flag_of(with_flag(slot, flag), flag),
        with_flag(slot, flag).loaded,
        with_flag(slot, flag).user == slot.user,
        with_flag(slot, flag).status == slot.status,
        forall|g: PlayingFlag| flag_of(slot, g) ==> #[trigger] flag_of(with_flag(slot, flag), g),
        flag == PlayingFlag::Skipped ==> with_flag(slot, flag).skipped,
        flag == PlayingFlag::Failed ==> with_flag(slot, flag).failed,
        flag == PlayingFlag::Completed ==> with_flag(slot, flag).completed,
{
}

/// After a playing state change, the answer "everyone is done" is true exactly
/// when every occupied slot of the new slots has the flag: the player who
/// asked has it now, and the others had it already.
pub proof fn lemma_all_means_everyone_has_flag(
    slots: Seq<MultiplayerMatchSlot>,
    session_id: u128,
    flag: PlayingFlag,
    new_slots: Seq<MultiplayerMatchSlot>,
    k: int,
)
    requires
        new_slots.len() == slots.len(),
        0 <= k < slots.len(),
        slot_has_session(slots, k, session_id),
        forall|i: int| 0 <= i < slots.len() ==> new_slots[i] == if slot_has_session(slots, i, session_id) {
            with_flag(slots[i], flag)
        } else {
            slots[i]
        },
    ensures
        others_flagged(slots, slots.len() as int, session_id, flag)
            == (forall|j: int| 0 <= j < new_slots.len() && new_slots[j].user is Some
                ==> #[trigger] flag_of(new_slots[j], flag)),
{
    if others_flagged(slots, slots.len() as int, session_id, flag) {
        assert forall|j: int| 0 <= j < new_slots.len() && new_slots[j].user is Some
            implies #[trigger] flag_of(new_slots[j], flag) by {
            lemma_with_flag_sets_flag(slots[j], flag);
            if !slot_has_session(slots, j, session_id) {
                assert(flag_of(slots[j], flag));
            }
        }
    }
    if forall|j: int| 0 <= j < new_slots.len() && new_slots[j].user is Some
        ==> #[trigger] flag_of(new_slots[j], flag) {
        assert forall|j: int| 0 <= j < slots.len() && slots[j].user is Some
            && !slot_has_session(slots, j, session_id) implies #[trigger] flag_of(slots[j], flag) by {
            assert(new_slots[j] == slots[j]);
            assert(flag_of(new_slots[j], flag));
        }
    }
}

/// What a playing state change gives: whether every other player already had
/// the flag, the player's position among the occupied slots, and the slots.
#[derive(Debug, Clone)]
pub struct PlayingStateChange {
    pub all: bool,
    pub player_slot_id: usize,
    pub slots: Vec<MultiplayerMatchSlot>,
}

/// The number of occupied slots never exceeds the number of slots.
pub proof fn lemma_occupied_count_bounded(slots: Seq<MultiplayerMatchSlot>)
    ensures
        occupied_count(slots) <= slots.len(),
    decreases slots.len(),
{
    if slots.len() > 0 {
        lemma_occupied_count_bounded(slots.drop_last());
    }
}

/// Sets the flag on the session's slot. The reported position is the rank of
/// the session's slot among the occupied slots (counted from 0), which is
/// also the slot ID under which the player's slot is written back; with empty
/// slots before it, that ID differs from the slot's own index.
pub fn change_playing_state(
    slots: &Vec<MultiplayerMatchSlot>,
    session_id: u128,
    flag: PlayingFlag,
) -> (res: Result<PlayingStateChange, AppError>)
    ensures
        match res {
            Ok(out) => {
                &&& out.slots@.len() == slots@.len()
                &&& forall|i: int| 0 <= i < slots@.len() ==> out.slots@[i] == if slot_has_session(slots@, i, session_id) {
                    with_flag(slots@[i], flag)
                } else {
                    slots@[i]
                }
                &&& out.all == others_flagged(slots@, slots@.len() as int, session_id, flag)
                &&& forall|i: int| 0 <= i < slots@.len() && slot_has_session(slots@, i, session_id)
                    ==> flag_of(out.slots@[i], flag) && out.slots@[i].loaded
                        && (flag == PlayingFlag::Skipped ==> out.slots@[i].skipped)
                        && (flag == PlayingFlag::Failed ==> out.slots@[i].failed)
                        && (flag == PlayingFlag::Completed ==> out.slots@[i].completed)
                &&& out.all == (forall|j: int| 0 <= j < out.slots@.len() && out.slots@[j].user is Some
                    ==> #[trigger] flag_of(out.slots@[j], flag))
                &&& exists|k: int| is_last_session_slot(slots@, k, session_id)
                    && out.player_slot_id == occupied_count(slots@.take(k))
                &&& out.player_slot_id < slots@.len()
            },
            Err(e) => e == AppError::MultiplayerUserNotInMatch
                && forall|i: int| 0 <= i < slots@.len() ==> !slot_has_session(slots@, i, session_id),
        },
{
    let mut new_slots: Vec<MultiplayerMatchSlot> = Vec::new();
    let mut all = true;
    let mut rank: usize = 0;
    let mut player: Option<usize> = None;
    let ghost mut last_k: int = 0;
    let mut i: usize = 0;
    while i < slots.len()
        invariant
            i <= slots@.len(),
            new_slots@.len() == i,
            forall|j: int| 0 <= j < i ==> new_slots@[j] == if slot_has_session(slots@, j, session_id) {
                with_flag(slots@[j], flag)
            } else {
                slots@[j]
            },
            rank == occupied_count(slots@.take(i as int)),
            rank <= i,
            all == others_flagged(slots@, i as int, session_id, flag),
            match player {
                None => forall|j: int| 0 <= j < i ==> !slot_has_session(slots@, j, session_id),
                Some(p) => 0 <= last_k < i && slot_has_session(slots@, last_k, session_id)
                    && (forall|j: int| last_k < j < i ==> !slot_has_session(slots@, j, session_id))
                    && p == occupied_count(slots@.take(last_k)),
            },
        decreases slots@.len() - i,
    {
        assert(slots@.take(i + 1).drop_last() == slots@.take(i as int));
        let mut slot = slots[i];
        match slot.user {
            Some(u) => {
                if u.session_id == session_id {
                    match flag {
                        PlayingFlag::Loaded => { slot.loaded = true; },
                        PlayingFlag::Skipped => { slot.skipped = true; },
                        PlayingFlag::Failed => { slot.failed = true; },
                        PlayingFlag::Completed => { slot.completed = true; },
                    }
                    slot.loaded = true;
                    player = Some(rank);
                    proof {
                        last_k = i as int;
                    }
                } else {
                    let value = match flag {
                        PlayingFlag::Loaded => slot.loaded,
                        PlayingFlag::Skipped => slot.skipped,
                        PlayingFlag::Failed => slot.failed,
                        PlayingFlag::Completed => slot.completed,
                    };
                    if !value {
                        all = false;
                    }
                }
                rank = rank + 1;
            },
            None => {},
        }
        proof {
            lemma_others_flagged_step(slots@, i as int, session_id, flag);
        }
        new_slots.push(slot);
        i = i + 1;
    }
    match player {
        None => Err(AppError::MultiplayerUserNotInMatch),
        Some(p) => {
            proof {
                assert(slots@.take(last_k).len() == last_k);
                lemma_occupied_count_bounded(slots@.take(last_k));
                assert(is_last_session_slot(slots@, last_k, session_id));
                lemma_all_means_everyone_has_flag(slots@, session_id, flag, new_slots@, last_k);
                assert forall|j: int| 0 <= j < slots@.len() && slot_has_session(slots@, j, session_id)
                    implies flag_of(new_slots@[j], flag) && new_slots@[j].loaded
                        && (flag == PlayingFlag::Skipped ==> new_slots@[j].skipped)
                        && (flag == PlayingFlag::Failed ==> new_slots@[j].failed)
                        && (flag == PlayingFlag::Completed ==> new_slots@[j].completed) by {
                    lemma_with_flag_sets_flag(slots@[j], flag);
                }
            }
            Ok(PlayingStateChange { all, player_slot_id: p, slots: new_slots })
        },
    }
}

/// What the players of a match are told after a playing state change.
#[derive(Debug, Clone, Copy, PartialEq, Eq, Structural)]
pub enum PlayingNotice {
    /// Nothing is sent.
    Quiet,
    /// Every player has loaded the beatmap.
    AllPlayersLoaded,
    /// Every player asked to skip the intro.
    MatchSkip,
    /// The player in this position asked to skip.
    PlayerSkipped { slot_id: usize },
    /// The player in this position failed.
    PlayerFailed { slot_id: usize },
    /// Every player completed the beatmap: the game ends.
    GameEnded,
}

/// The notice for a flag change, given whether every player now has the flag
/// and the position of the player that changed.
pub open spec fn playing_notice_spec(flag: PlayingFlag, all: bool, slot_id: usize) -> PlayingNotice {
    match flag {
        PlayingFlag::Loaded => if all { PlayingNotice::AllPlayersLoaded } else { PlayingNotice::Quiet },
        PlayingFlag::Skipped => if all {
            PlayingNotice::MatchSkip
        } else {
            PlayingNotice::PlayerSkipped { slot_id }
        },
        PlayingFlag::Failed => PlayingNotice::PlayerFailed { slot_id },
        PlayingFlag::Completed => if all { PlayingNotice::GameEnded } else { PlayingNotice::Quiet },
    }
}

/// Decides what a playing state change announces: loading and completing are
/// announced once everyone is done, a skip either by the player or for the whole
/// match, and a failure always.
pub fn playing_notice(flag: PlayingFlag, change: &PlayingStateChange) -> (res: PlayingNotice)
    ensures
        res == playing_notice_spec(flag, change.all, change.player_slot_id),
{
    match flag {
        PlayingFlag::Loaded => if change.all { PlayingNotice::AllPlayersLoaded } else { PlayingNotice::Quiet },
        PlayingFlag::Skipped => if change.all {
            PlayingNotice::MatchSkip
        } else {
            PlayingNotice::PlayerSkipped { slot_id: change.player_slot_id }
        },
        PlayingFlag::Failed => PlayingNotice::PlayerFailed { slot_id: change.player_slot_id },
        PlayingFlag::Completed => if change.all { PlayingNotice::GameEnded } else { PlayingNotice::Quiet },
    }
}

/// Which slots a mods change writes.
#[derive(Debug, Clone, Copy, PartialEq, Eq, Structural)]
pub enum SlotWrite {
    NoSlots,
    OneSlot(usize),
    AllSlots,
}

/// A match and its slots after a mods change.
#[derive(Debug, Clone)]
pub struct ModsChange {
    pub mp_match: MultiplayerMatch,
    pub slots: Vec<MultiplayerMatchSlot>,
    pub written: SlotWrite,
}

/// Whether some slot holds the session.
pub open spec fn session_in_slots(slots: Seq<MultiplayerMatchSlot>, session_id: u128) -> bool {
    exists|j: int| 0 <= j < slots.len() && slot_has_session(slots, j, session_id)
}

/// The outcome of a free mod change requested by the player of session
/// `session_id`: the match keeps the match-wide mods, that player's first
/// slot takes the rest, and only that slot is written.
pub open spec fn one_slot_mods_change(
    mp_match: MultiplayerMatch,
    slots: Seq<MultiplayerMatchSlot>,
    mods: u32,
    session_id: u128,
    out: ModsChange,
) -> bool {
    match out.written {
        SlotWrite::OneSlot(i) => {
            &&& out.mp_match == (MultiplayerMatch { mods: mods & MATCH_WIDE_MODS, ..mp_match })
            &&& crate::repositories::multiplayer::is_first_session_slot(slots, i as int, session_id)
            &&& out.slots@ == slots.update(i as int, MultiplayerMatchSlot { mods: mods & !MATCH_WIDE_MODS, ..slots[i as int] })
        },
        _ => false,
    }
}

/// Changes mods. A player who is not the host may only do so under free mod.
/// Under free mod the match keeps the match-wide mods and the rest goes to
/// the requesting player's slot, or to every occupied slot when no player
/// asked; otherwise the match takes all the mods.
pub fn change_mods(
    mp_match: MultiplayerMatch,
    slots: &Vec<MultiplayerMatchSlot>,
    mods: u32,
    slot_user: Option<SessionIdentity>,
) -> (res: Result<ModsChange, AppError>)
    ensures
        (slot_user matches Some(u) && mp_match.host_user_id != u.user_id && !mp_match.freemod_enabled)
            ==> res == Err::<ModsChange, AppError>(AppError::MultiplayerUnauthorized),
        !mp_match.freemod_enabled && !(slot_user matches Some(u) && mp_match.host_user_id != u.user_id)
            ==> (res matches Ok(out) && out.mp_match == (MultiplayerMatch { mods, ..mp_match })
                && out.slots@ == slots@ && out.written == SlotWrite::NoSlots),
        mp_match.freemod_enabled && slot_user is None ==> (res matches Ok(out)
            && out.mp_match == (MultiplayerMatch { mods: mods & MATCH_WIDE_MODS, ..mp_match })
            && out.written == SlotWrite::AllSlots
            && out.slots@.len() == slots@.len()
            && forall|i: int| 0 <= i < slots@.len()
                ==> out.slots@[i] == slot_with_mods(slots@[i], mods & !MATCH_WIDE_MODS)),
        mp_match.freemod_enabled && (slot_user matches Some(u) && session_in_slots(slots@, u.session_id))
            ==> (res matches Ok(out) && one_slot_mods_change(mp_match, slots@, mods, slot_user.unwrap().session_id, out)),
        mp_match.freemod_enabled && (slot_user matches Some(u) && !session_in_slots(slots@, u.session_id))
            ==> res == Err::<ModsChange, AppError>(AppError::MultiplayerUserNotInMatch),
{
    match slot_user {
        Some(u) => {
            if mp_match.host_user_id != u.user_id && !mp_match.freemod_enabled {
                return Err(AppError::MultiplayerUnauthorized);
            }
        },
        None => {},
    }
    let mut m = mp_match;
    if m.freemod_enabled {
        let (slot_mods, match_mods) = split_mods(mods);
        m.mods = match_mods;
        match slot_user {
            Some(u) => {
                let mut i: usize = 0;
                while i < slots.len()
                    invariant
                        i <= slots@.len(),
                        forall|j: int| 0 <= j < i ==> !slot_has_session(slots@, j, u.session_id),
                        m == (MultiplayerMatch { mods: mods & MATCH_WIDE_MODS, ..mp_match }),
                        slot_mods == mods & !MATCH_WIDE_MODS,
                        mp_match.freemod_enabled,
                        slot_user == Some(u),
                    decreases slots@.len() - i,
                {
                    let found = match slots[i].user {
                        Some(su) => su.session_id == u.session_id,
                        None => false,
                    };
                    if found {
                        let mut slot = slots[i];
                        slot.mods = slot_mods;
                        let mut new_slots = slots.clone();
                        new_slots.set(i, slot);
                        assert(slot_has_session(slots@, i as int, u.session_id));
                        let out = ModsChange { mp_match: m, slots: new_slots, written: SlotWrite::OneSlot(i) };
                        assert(one_slot_mods_change(mp_match, slots@, mods, u.session_id, out));
                        assert(session_in_slots(slots@, u.session_id));
                        return Ok(out);
                    }
                    i = i + 1;
                }
                Err(AppError::MultiplayerUserNotInMatch)
            },
            None => {
                let new_slots = set_occupied_slot_mods(slots, slot_mods);
                Ok(ModsChange { mp_match: m, slots: new_slots, written: SlotWrite::AllSlots })
            },
        }
    } else {
        m.mods = mods;
        Ok(ModsChange { mp_match: m, slots: slots.clone(), written: SlotWrite::NoSlots })
    }
}

/// Swapping two slots keeps every session in at most one slot.
pub proof fn lemma_swap_keeps_sessions_distinct(slots: Seq<MultiplayerMatchSlot>, i: int, t: int)
    requires
        sessions_distinct(slots),
        0 <= i < slots.len(),
        0 <= t < slots.len(),
    ensures
        sessions_distinct(slots.update(t, slots[i]).update(i, slots[t])),
{
    let swapped = slots.update(t, slots[i]).update(i, slots[t]);
    let from = |k: int| if k == i { t } else if k == t { i } else { k };
    assert forall|k: int| 0 <= k < slots.len() implies #[trigger] swapped[k] == slots[from(k)] by {}
    assert forall|a: int, b: int|
        0 <= a < b < swapped.len() && swapped[a].user is Some && swapped[b].user is Some
        implies swapped[a].user.unwrap().session_id != swapped[b].user.unwrap().session_id by {
        let fa = from(a);
        let fb = from(b);
        assert(swapped[a] == slots[fa] && swapped[b] == slots[fb]);
        assert(fa != fb);
        if fa < fb {
            assert(slots[fa].user is Some && slots[fb].user is Some);
        } else {
            assert(slots[fb].user is Some && slots[fa].user is Some);
        }
    }
}

/// Changing a slot's team, starting or ending a game, giving out mods and
/// setting playing flags never changes who is in a slot, so (with
/// `lemma_same_users_keep_sessions_distinct`) they keep every session in at
/// most one slot.
pub proof fn lemma_slot_updates_keep_users(slot: MultiplayerMatchSlot, mods: u32, flag: PlayingFlag)
    ensures
        (MultiplayerMatchSlot { team: next_team(slot.team), ..slot }).user == slot.user,
        started_slot(slot).user == slot.user,
        ended_slot(slot).user == slot.user,
        slot_with_mods(slot, mods).user == slot.user,
        with_flag(slot, flag).user == slot.user,
{
}

} // verus!
