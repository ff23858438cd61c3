use bancho_service::common::chat::safe_username;
use bancho_service::entities::multiplayer::{MultiplayerMatchSlot, SLOT_EMPTY, SLOT_LOCKED, SLOT_NOT_READY};
use bancho_service::entities::sessions::SessionIdentity;
use bancho_service::usecases::hardware_logs::{aggregate_by_user, MatchingHardwareLog};
use bancho_service::repositories::multiplayer::{join_slots, leave_slots, new_match_slots};
use bancho_service::usecases::multiplayer::{slot_status_change, swap_user_slots};
use std::collections::HashSet;
use bancho_service::workers::pubsub_consumer::parse_wipe_payload;

#[test]
fn wipe_payload_reads_back() {
    for (user_id, rx, gm) in [(1000i64, 1u8, 0u8), (-5, 255, 3), (i64::MIN, 0, 255), (i64::MAX, 2, 1)] {
        let payload = format!("{user_id},{rx},{gm}");
        assert_eq!(parse_wipe_payload(&payload), Ok((user_id, rx, gm)), "{payload}");
    }
}

#[test]
fn aggregate_totals_add_up_one_per_user() {
    let row = |user_id: i64, occurrences: u64| MatchingHardwareLog {
        user_id,
        username: format!("u{user_id}"),
        user_privileges: 1,
        occurrences,
        activated: false,
    };
    let rows = vec![row(3, 2), row(3, 5), row(4, 1), row(9, 7), row(9, 1)];
    let res = aggregate_by_user(&rows);
    let ids: Vec<i64> = res.user_matches.iter().map(|m| m.user_id).collect();
    assert_eq!(ids, vec![3, 4, 9]);
    let per_user: u64 = res.user_matches.iter().map(|m| m.total_occurrences).sum();
    assert_eq!(per_user, 16);
    assert_eq!(res.total_hardware_matches, 16);
}

#[test]
fn safe_username_is_idempotent() {
    for name in ["Cookiezi", "Some Player", "already_safe", "MiXeD CaSe 99"] {
        let once = safe_username(name);
        assert_eq!(safe_username(&once), once);
    }
    assert_eq!(safe_username("Some Player"), "some_player");
}

#[test]
fn lock_toggles() {
    let mut occupied = MultiplayerMatchSlot::vacant(SLOT_EMPTY);
    occupied.prepare(SessionIdentity { session_id: 7, user_id: 70 });
    assert_eq!(occupied.status, SLOT_NOT_READY);
    let (locked, kicked) = slot_status_change(occupied, SLOT_LOCKED);
    assert_eq!(locked.status, SLOT_LOCKED);
    assert_eq!(locked.user, None);
    assert_eq!(kicked, Some(SessionIdentity { session_id: 7, user_id: 70 }));
    let (opened, kicked_again) = slot_status_change(locked, SLOT_LOCKED);
    assert_eq!(opened.status, SLOT_EMPTY);
    assert_eq!(opened.user, None);
    assert_eq!(kicked_again, None);
}

#[test]
fn sessions_stay_in_one_slot() {
    let ident = |s: u128| SessionIdentity { session_id: s, user_id: s as i64 * 10 };
    let distinct = |slots: &Vec<MultiplayerMatchSlot>| {
        let ids: Vec<u128> = slots.iter().filter_map(|s| s.user.map(|u| u.session_id)).collect();
        ids.len() == ids.iter().collect::<HashSet<_>>().len()
    };
    let mut slots = new_match_slots(ident(1), 8);
    for s in 2..=5 {
        slots = join_slots(&slots, ident(s)).unwrap().1;
        assert!(distinct(&slots));
    }
    let (_, swapped) = swap_user_slots(&slots, 7, 30).unwrap();
    assert!(distinct(&swapped));
    let out = leave_slots(&swapped, 3).unwrap();
    assert!(distinct(&out.slots));
    assert!(out.slots.iter().all(|s| s.user.map(|u| u.session_id) != Some(3)));
    assert_eq!(out.user_count, 4);
}
