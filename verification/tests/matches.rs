use bancho_service::common::error::AppError;
use bancho_service::common::parse::{parse_u16, parse_u64, parse_usize};
use bancho_service::entities::multiplayer::{MatchTeam, MultiplayerMatch, MultiplayerMatchSlot, SLOT_EMPTY, SLOT_NOT_READY};
use bancho_service::entities::sessions::SessionIdentity;
use bancho_service::repositories::multiplayer::{
    first_creation_step, is_private_match, new_match, next_creation_step, wire_id_candidates,
    MatchCreationStep,
};
use bancho_service::usecases::multiplayer::{
    change_playing_state, playing_notice, PlayingFlag, PlayingNotice,
};
use bancho_service::usecases::ripple::player_match_details;
use bancho_service::usecases::tillerino::{now_playing_state, BeatmapInfo, NowPlayingMessage};

fn ident(session: u128, user: i64) -> SessionIdentity {
    SessionIdentity { session_id: session, user_id: user }
}

fn occupied(session: u128, user: i64) -> MultiplayerMatchSlot {
    let mut slot = MultiplayerMatchSlot::vacant(SLOT_EMPTY);
    slot.prepare(ident(session, user));
    slot
}

fn room(last_game_id: Option<i64>) -> MultiplayerMatch {
    let mut m = new_match(
        ident(7, 1),
        "room".to_string(),
        "".to_string(),
        "song".to_string(),
        "md5".to_string(),
        12,
        0,
    );
    m.match_id = 300;
    m.last_game_id = last_game_id;
    m
}

#[test]
fn new_match_starts_from_defaults() {
    let m = new_match(
        ident(7, 1001),
        "room".to_string(),
        "secret".to_string(),
        "song".to_string(),
        "md5".to_string(),
        75,
        2,
    );
    assert_eq!(m.match_id, 0);
    assert_eq!(m.wire_id, None);
    assert_eq!(m.host_user_id, 1001);
    assert_eq!(m.password, "secret");
    assert_eq!(m.beatmap_id, 75);
    assert_eq!(m.mode, 2);
    assert_eq!(m.mods, 0);
    assert!(!m.freemod_enabled && !m.in_progress);
    assert_eq!(m.last_game_id, None);
}

#[test]
fn private_match_has_password() {
    assert!(is_private_match("hunter2"));
    assert!(!is_private_match(""));
}

#[test]
fn creation_tries_candidates_in_order() {
    let candidates = wire_id_candidates(65534);
    assert_eq!(
        first_creation_step(&candidates),
        MatchCreationStep::Attempt { attempt: 0, wire_id: 65534 }
    );
    assert_eq!(
        next_creation_step(&candidates, 0, 0),
        MatchCreationStep::Attempt { attempt: 1, wire_id: 65535 }
    );
    assert_eq!(
        next_creation_step(&candidates, 1, 0),
        MatchCreationStep::Attempt { attempt: 2, wire_id: 0 }
    );
    assert_eq!(
        next_creation_step(&candidates, 2, 1),
        MatchCreationStep::Created { wire_id: 0 }
    );
    let last = candidates.len() - 1;
    assert_eq!(next_creation_step(&candidates, last, 0), MatchCreationStep::Exhausted);
    assert_eq!(first_creation_step(&Vec::new()), MatchCreationStep::Exhausted);
}

#[test]
fn playing_notices() {
    let slots = vec![occupied(1, 10), MultiplayerMatchSlot::vacant(SLOT_EMPTY), occupied(2, 20)];
    let change = change_playing_state(&slots, 2, PlayingFlag::Skipped).unwrap();
    assert!(!change.all);
    assert_eq!(playing_notice(PlayingFlag::Skipped, &change), PlayingNotice::PlayerSkipped { slot_id: 1 });
    assert_eq!(playing_notice(PlayingFlag::Failed, &change), PlayingNotice::PlayerFailed { slot_id: 1 });
    assert_eq!(playing_notice(PlayingFlag::Loaded, &change), PlayingNotice::Quiet);
    assert_eq!(playing_notice(PlayingFlag::Completed, &change), PlayingNotice::Quiet);

    let done = change_playing_state(&change.slots, 1, PlayingFlag::Skipped).unwrap();
    assert!(done.all);
    assert_eq!(playing_notice(PlayingFlag::Skipped, &done), PlayingNotice::MatchSkip);
    assert_eq!(playing_notice(PlayingFlag::Loaded, &done), PlayingNotice::AllPlayersLoaded);
    assert_eq!(playing_notice(PlayingFlag::Completed, &done), PlayingNotice::GameEnded);
}

#[test]
fn unsigned_parsing_matches_std() {
    assert_eq!(parse_u16("65535"), Some(65535));
    assert_eq!(parse_u16("65536"), None);
    assert_eq!(parse_u16("+80"), Some(80));
    assert_eq!(parse_u16("-0"), None);
    assert_eq!(parse_u64("18446744073709551615"), Some(u64::MAX));
    assert_eq!(parse_u64("18446744073709551616"), None);
    assert_eq!(parse_usize("32"), Some(32));
    for s in ["", "+", "0", "00", "12a", " 1", "4294967296", "99999999999999999999"] {
        assert_eq!(parse_u16(s), s.parse::<u16>().ok(), "{s}");
        assert_eq!(parse_u64(s), s.parse::<u64>().ok(), "{s}");
        assert_eq!(parse_usize(s), s.parse::<usize>().ok(), "{s}");
    }
}

#[test]
fn player_details_need_a_game_and_a_slot() {
    let mut slots = vec![occupied(1, 10), occupied(2, 20)];
    slots[1].team = MatchTeam::Red;
    assert_eq!(
        player_match_details(300, room(None), &slots, 2),
        Err(AppError::MultiplayerNotFound)
    );
    assert_eq!(
        player_match_details(300, room(Some(9)), &slots, 3),
        Err(AppError::MultiplayerUserNotInMatch)
    );
    let details = player_match_details(300, room(Some(9)), &slots, 2).unwrap();
    assert_eq!(details.match_id, 300);
    assert_eq!(details.match_name, "room");
    assert_eq!(details.game_id, 9);
    assert_eq!(details.slot_id, 1);
    assert_eq!(details.team, MatchTeam::Red);
    assert_eq!(slots[0].status, SLOT_NOT_READY);
}

#[test]
fn now_playing_mode_follows_converted_beatmaps() {
    let np = NowPlayingMessage { beatmap_id: 75, mode: 1, mods: 72 };
    let beatmap = |mode| BeatmapInfo {
        beatmapset_id: 1,
        beatmap_md5: "a5b99395a42bd55bc5eb1d2411cbdf8b".to_string(),
        song_name: "Kenji Ninuma - DISCO PRINCE [Normal]".to_string(),
        max_combo: 314,
        mode,
    };
    let std_map = now_playing_state(np, beatmap(0));
    assert_eq!(std_map.mode, 1);
    assert_eq!(std_map.beatmap_id, 75);
    assert_eq!(std_map.beatmap_set_id, 1);
    assert_eq!(std_map.beatmap_max_combo, 314);
    assert_eq!(std_map.mods, 72);
    let mania_map = now_playing_state(np, beatmap(3));
    assert_eq!(mania_map.mode, 3);
}
