use bancho_service::common::error::AppError;
use bancho_service::entities::gamemodes::Mode;
use bancho_service::entities::multiplayer::{
    MatchTeam, MultiplayerMatch, MultiplayerMatchSlot, SLOT_EMPTY, SLOT_LOCKED, SLOT_NOT_READY,
    SLOT_PLAYING, SLOT_READY, SLOT_NO_MAP,
};
use bancho_service::entities::sessions::SessionIdentity;
use bancho_service::repositories::multiplayer::{
    join_slots, leave_slots, new_match_slots, released_wire_id, slots_from_json,
    slots_from_json_with_index, wire_id_candidates, WIRE_ID_CAPACITY,
};
use bancho_service::common::redis_json::Json;
use bancho_service::usecases::multiplayer::{
    apply_match_settings, change_mods, change_playing_state, check_host, check_join_password,
    check_slot_id, end_game_slots, fetch_user_slot, ingame_match_id, leave_follow_up, next_host,
    slot_status_change, split_mods, start_game_slots, swap_user_slots, switch_teams,
    transfer_host_to_slot, transfer_host_to_user, LeaveFollowUp, MatchSettings, PlayingFlag,
    SlotWrite,
};
use std::collections::HashSet;

fn ident(session: u128, user: i64) -> SessionIdentity {
    SessionIdentity { session_id: session, user_id: user }
}

fn sample_match() -> MultiplayerMatch {
    MultiplayerMatch {
        match_id: 70000,
        wire_id: Some(4464),
        name: "room".to_string(),
        password: "".to_string(),
        host_user_id: 1,
        beatmap_name: "map".to_string(),
        beatmap_md5: "abc".to_string(),
        beatmap_id: 5,
        mode: 0,
        mods: 64 | 8,
        freemod_enabled: false,
        in_progress: false,
        win_condition: 0,
        team_type: 0,
        random_seed: 0,
        last_game_id: None,
    }
}

#[test]
fn wire_id_candidates_wrap_at_u16_boundary() {
    let candidates: Vec<_> = wire_id_candidates(u16::MAX - 1).into_iter().take(4).collect();

    assert_eq!(candidates, [u16::MAX - 1, u16::MAX, 0, 1]);
}

#[test]
fn wire_id_candidates_visit_every_reusable_id_once() {
    let candidates: Vec<_> = wire_id_candidates(42);
    let unique: HashSet<_> = candidates.iter().copied().collect();

    assert_eq!(candidates.len(), WIRE_ID_CAPACITY as usize);
    assert_eq!(unique.len(), WIRE_ID_CAPACITY as usize);
    assert_eq!(candidates.first(), Some(&42));
    assert_eq!(candidates.last(), Some(&41));
}

#[test]
fn new_match_places_host_and_locks_extra_slots() {
    let slots = new_match_slots(ident(7, 1), 4);
    assert_eq!(slots.len(), 16);
    assert_eq!(slots[0].user, Some(ident(7, 1)));
    assert_eq!(slots[0].status, SLOT_NOT_READY);
    assert_eq!(slots[1].status, SLOT_EMPTY);
    assert_eq!(slots[3].status, SLOT_EMPTY);
    assert_eq!(slots[4].status, SLOT_LOCKED);
    assert_eq!(slots[15].status, SLOT_LOCKED);
    let zero = new_match_slots(ident(7, 1), 0);
    assert_eq!(zero[0].user, Some(ident(7, 1)));
    assert_eq!(zero[1].status, SLOT_LOCKED);
}

#[test]
fn join_takes_first_empty_slot_then_leave_frees_it() {
    let slots = new_match_slots(ident(7, 1), 3);
    let (id, joined) = join_slots(&slots, ident(8, 2)).unwrap();
    assert_eq!(id, 1);
    assert_eq!(joined[1].user, Some(ident(8, 2)));
    let (id2, joined2) = join_slots(&joined, ident(9, 3)).unwrap();
    assert_eq!(id2, 2);
    assert!(join_slots(&joined2, ident(10, 4)).is_none());

    let out = leave_slots(&joined2, 8).unwrap();
    assert_eq!(out.slot_id, 1);
    assert_eq!(out.user_count, 2);
    assert_eq!(out.slots[1].status, SLOT_EMPTY);
    assert_eq!(out.slots[1].user, None);
    assert!(leave_slots(&out.slots, 8).is_none());
    let last = leave_slots(&leave_slots(&out.slots, 7).unwrap().slots, 9).unwrap();
    assert_eq!(last.user_count, 0);
}

#[test]
fn slots_from_json_keeps_order() {
    let a = MultiplayerMatchSlot::vacant(SLOT_EMPTY);
    let b = MultiplayerMatchSlot::vacant(SLOT_LOCKED);
    assert_eq!(slots_from_json(vec![Json(a), Json(b)]), vec![a, b]);
    assert_eq!(slots_from_json_with_index(vec![(0, Json(b)), (1, Json(a))]), vec![b, a]);
}

#[test]
fn released_wire_id_reads_script_reply() {
    assert_eq!(released_wire_id(-1), None);
    assert_eq!(released_wire_id(65535), Some(65535));
    assert_eq!(released_wire_id(65536), None);
    assert_eq!(released_wire_id(12), Some(12));
}

#[test]
fn ingame_match_id_keeps_low_bits() {
    assert_eq!(ingame_match_id(70000), 4464);
    assert_eq!(ingame_match_id(65535), 65535);
    assert_eq!(ingame_match_id(-1), 65535);
}

#[test]
fn split_mods_keeps_speed_mods_on_match() {
    // hidden (8) + doubletime (64) + nightcore (512) + hardrock (16)
    let (slot, mtch) = split_mods(8 | 64 | 512 | 16);
    assert_eq!(mtch, 64 | 512);
    assert_eq!(slot, 8 | 16);
    assert_eq!(slot | mtch, 8 | 64 | 512 | 16);
}

#[test]
fn host_and_password_checks() {
    let m = sample_match();
    assert_eq!(check_host(&m, None), Ok(()));
    assert_eq!(check_host(&m, Some(1)), Ok(()));
    assert_eq!(check_host(&m, Some(2)), Err(AppError::MultiplayerUnauthorized));
    assert_eq!(check_join_password(&m, ""), Ok(()));
    assert_eq!(check_join_password(&m, "x"), Err(AppError::MultiplayerInvalidPassword));
    assert_eq!(check_slot_id(15), Ok(()));
    assert_eq!(check_slot_id(16), Err(AppError::MultiplayerSlotNotFound));
}

#[test]
fn host_transfer_rules() {
    let slots = join_slots(&new_match_slots(ident(7, 1), 16), ident(8, 2)).unwrap().1;
    let m = transfer_host_to_slot(sample_match(), &slots, 1, Some(1)).unwrap();
    assert_eq!(m.host_user_id, 2);
    assert_eq!(transfer_host_to_slot(sample_match(), &slots, 16, Some(1)), Err(AppError::MultiplayerSlotNotFound));
    assert_eq!(transfer_host_to_slot(sample_match(), &slots, 1, Some(5)), Err(AppError::MultiplayerUnauthorized));
    assert_eq!(transfer_host_to_slot(sample_match(), &slots, 2, None), Err(AppError::MultiplayerSlotNotFound));
    assert_eq!(transfer_host_to_user(sample_match(), &slots, 2, None).unwrap().host_user_id, 2);
    assert_eq!(transfer_host_to_user(sample_match(), &slots, 3, None), Err(AppError::MultiplayerUserNotInMatch));
    assert_eq!(next_host(&slots), Some(1));
    assert_eq!(leave_follow_up(1, 1, 1, &slots), LeaveFollowUp::KeepMatch { new_host: Some(1) });
    assert_eq!(leave_follow_up(1, 2, 1, &slots), LeaveFollowUp::KeepMatch { new_host: None });
    assert_eq!(leave_follow_up(1, 1, 0, &slots), LeaveFollowUp::DeleteMatch);
}

#[test]
fn swap_and_switch_teams() {
    let slots = new_match_slots(ident(7, 1), 16);
    let (from, swapped) = swap_user_slots(&slots, 5, 1).unwrap();
    assert_eq!(from, 0);
    assert_eq!(swapped[5].user, Some(ident(7, 1)));
    assert_eq!(swapped[0].user, None);
    assert_eq!(swap_user_slots(&slots, 5, 9), Err(AppError::MultiplayerUserNotInMatch));
    let (id, t1) = switch_teams(&slots, 1).unwrap();
    assert_eq!(id, 0);
    assert_eq!(t1[0].team, MatchTeam::Blue);
    let (_, t2) = switch_teams(&t1, 1).unwrap();
    assert_eq!(t2[0].team, MatchTeam::Red);
    let (_, t3) = switch_teams(&t2, 1).unwrap();
    assert_eq!(t3[0].team, MatchTeam::Blue);
    assert_eq!(fetch_user_slot(&slots, 1).unwrap().0, 0);
    assert_eq!(fetch_user_slot(&slots, 2), Err(AppError::MultiplayerUserNotInMatch));
}

#[test]
fn slot_status_rules() {
    let mut occupied = MultiplayerMatchSlot::vacant(SLOT_EMPTY);
    occupied.prepare(ident(7, 1));
    let (s, kicked) = slot_status_change(occupied, SLOT_LOCKED);
    assert_eq!(kicked, Some(ident(7, 1)));
    assert_eq!(s.user, None);
    assert_eq!(s.status, SLOT_LOCKED);
    let (s2, k2) = slot_status_change(MultiplayerMatchSlot::vacant(SLOT_LOCKED), SLOT_LOCKED);
    assert_eq!(s2.status, SLOT_EMPTY);
    assert_eq!(k2, None);
    let (s3, k3) = slot_status_change(occupied, SLOT_READY);
    assert_eq!(s3.status, SLOT_READY);
    assert_eq!(s3.user, Some(ident(7, 1)));
    assert_eq!(k3, None);
}

#[test]
fn start_and_end_game() {
    let mut slots = new_match_slots(ident(7, 1), 16);
    slots = join_slots(&slots, ident(8, 2)).unwrap().1;
    slots[1].status = SLOT_NO_MAP;
    let (started, changes) = start_game_slots(&slots);
    assert_eq!(started[0].status, SLOT_PLAYING);
    assert_eq!(started[1].status, SLOT_NO_MAP);
    assert_eq!(started[2].status, SLOT_EMPTY);
    assert_eq!(changes.len(), 2);
    assert!(changes[0].join && changes[0].session_id == 7);
    assert!(!changes[1].join && changes[1].session_id == 8);
    let ended = end_game_slots(&started);
    assert_eq!(ended[0].status, SLOT_NOT_READY);
    assert_eq!(ended[1].status, SLOT_NOT_READY);
    assert_eq!(ended[2].status, SLOT_EMPTY);
}

#[test]
fn playing_state_reports_rank_among_players() {
    let mut slots = new_match_slots(ident(7, 1), 16);
    // move the host to slot 3 so that slots 0..2 are empty
    slots = swap_user_slots(&slots, 3, 1).unwrap().1;
    slots = join_slots(&slots, ident(8, 2)).unwrap().1; // takes slot 0
    let out = change_playing_state(&slots, 7, PlayingFlag::Skipped).unwrap();
    assert!(!out.all);
    assert_eq!(out.player_slot_id, 1);
    assert!(out.slots[3].skipped && out.slots[3].loaded);
    let out2 = change_playing_state(&out.slots, 8, PlayingFlag::Skipped).unwrap();
    assert!(out2.all);
    assert_eq!(out2.player_slot_id, 0);
    assert_eq!(change_playing_state(&slots, 99, PlayingFlag::Loaded).err(), Some(AppError::MultiplayerUserNotInMatch));
}

#[test]
fn mods_changes() {
    let slots = join_slots(&new_match_slots(ident(7, 1), 16), ident(8, 2)).unwrap().1;
    let out = change_mods(sample_match(), &slots, 8 | 64, None).unwrap();
    assert_eq!(out.mp_match.mods, 8 | 64);
    assert_eq!(out.written, SlotWrite::NoSlots);
    assert_eq!(change_mods(sample_match(), &slots, 8, Some(ident(8, 2))).err(), Some(AppError::MultiplayerUnauthorized));
    let mut free = sample_match();
    free.freemod_enabled = true;
    let out2 = change_mods(free.clone(), &slots, 8 | 64, Some(ident(8, 2))).unwrap();
    assert_eq!(out2.mp_match.mods, 64);
    assert_eq!(out2.written, SlotWrite::OneSlot(1));
    assert_eq!(out2.slots[1].mods, 8);
    assert_eq!(out2.slots[0].mods, 0);
    let out3 = change_mods(free.clone(), &slots, 16 | 256, None).unwrap();
    assert_eq!(out3.mp_match.mods, 256);
    assert_eq!(out3.written, SlotWrite::AllSlots);
    assert_eq!(out3.slots[0].mods, 16);
    assert_eq!(out3.slots[1].mods, 16);
    assert_eq!(out3.slots[2].mods, 0);
    assert_eq!(change_mods(free, &slots, 8, Some(ident(99, 5))).err(), Some(AppError::MultiplayerUserNotInMatch));
}

#[test]
fn settings_enable_freemod() {
    let slots = new_match_slots(ident(7, 1), 16);
    let args = MatchSettings {
        name: "new room".to_string(),
        password: "pw".to_string(),
        beatmap_name: "map".to_string(),
        beatmap_md5: "zzz".to_string(),
        beatmap_id: 9,
        mode: Mode::Taiko,
        win_condition: 1,
        team_type: 2,
        random_seed: 3,
        freemod_enabled: true,
    };
    let up = apply_match_settings(sample_match(), &slots, &args);
    assert_eq!(up.mp_match.name, "new room");
    assert_eq!(up.mp_match.password, "pw");
    // same beatmap name: the hash is kept
    assert_eq!(up.mp_match.beatmap_md5, "abc");
    assert_eq!(up.mp_match.beatmap_id, 9);
    assert_eq!(up.mp_match.mode, 1);
    assert!(up.write_all_slots);
    assert!(up.update_persistent);
    assert_eq!(up.mp_match.mods, 64);
    assert_eq!(up.slots[0].mods, 8);
    assert_eq!(up.slots[1].mods, 0);
}

#[test]
fn settings_relax_mode() {
    let slots = new_match_slots(ident(7, 1), 16);
    let mut m = sample_match();
    m.mods = 128;
    let args = MatchSettings {
        name: "room".to_string(),
        password: "".to_string(),
        beatmap_name: "other".to_string(),
        beatmap_md5: "zzz".to_string(),
        beatmap_id: 9,
        mode: Mode::Catch,
        win_condition: 0,
        team_type: 0,
        random_seed: 0,
        freemod_enabled: false,
    };
    let up = apply_match_settings(m, &slots, &args);
    assert_eq!(up.mp_match.mode, 6);
    assert_eq!(up.mp_match.beatmap_md5, "zzz");
    assert!(!up.write_all_slots);
    assert!(!up.update_persistent);
    assert_eq!(up.slots, slots);
}
