use bancho_service::common::error::AppError;
use bancho_service::common::parse::{parse_i64, parse_u8, split_commas};
use bancho_service::entities::channels::ChannelName;
use bancho_service::repositories::scores::first_place_successor_lookup;
use bancho_service::repositories::streams::StreamName;
use bancho_service::usecases::bancho_settings::{maintenance_toggle, setting_enabled};
use bancho_service::usecases::beatmaps::{generate_mirror_links, map_status_changes, map_update_message, maps_to_publish};
use bancho_service::usecases::channels::{classify_channel_name, message_stream, update_stream, ChannelNameKind};
use bancho_service::usecases::messages::{
    check_message, recipient_info, spam_silence_end, RecipientFacts, RecipientInfo, RelationshipLookup,
};
use bancho_service::usecases::performance::{default_pp_requests, PerformanceRequestArgs};
use bancho_service::usecases::spectators::{
    spectator_join_follow_up, spectator_leave_follow_up, SpectatorJoinFollowUp, SpectatorLeaveFollowUp,
};
use bancho_service::usecases::streams::{
    advance_offsets, load_offsets, offset_pairs, pending_data, MessageInfo, StreamReadIds, StreamReadMessage,
};
use bancho_service::workers::cleanup::{session_timed_out, stream_cleanup, StreamCleanup};
use bancho_service::workers::pubsub_consumer::{
    ban_session_action, parse_wipe_payload, restriction_message, route_channel, silence_seconds_left,
    unrestriction_message, username_change_action, BanSessionAction, PubsubEvent, UsernameChangeAction,
    WipePayloadError, PUBSUB_CHANNELS,
};

fn msg(id: &str, data: &[u8], excluded: Option<Vec<u128>>, privs: Option<i32>) -> StreamReadMessage {
    StreamReadMessage {
        message_id: id.to_string(),
        data: data.to_vec(),
        info: MessageInfo { excluded_session_ids: excluded, read_privileges: privs },
    }
}

#[test]
fn mirror_links() {
    let links = generate_mirror_links(123, "Artist - Title");
    assert_eq!(
        links,
        vec![
            "osu! (official servers): [https://osu.ppy.sh/beatmapsets/123 Artist - Title]".to_string(),
            "osu.direct (Chimu): [https://osu.direct/beatmapsets/123 Artist - Title]".to_string(),
            "Akatsuki (direct download): [https://beatmaps.akatsuki.gg/api/d/123 Artist - Title]".to_string(),
        ]
    );
}

#[test]
fn beatmap_status_changes() {
    assert_eq!(map_update_message("abc", -1), "abc,-1");
    assert_eq!(map_update_message("abc", 2), "abc,2");
    assert!(map_status_changes(0, 2));
    assert!(!map_status_changes(2, 2));
    assert_eq!(maps_to_publish(&vec![2, 0, 2, 5], 2), vec![1, 3]);
}

#[test]
fn offsets_follow_reads() {
    let mut offsets = load_offsets(&vec![
        ("a".to_string(), "1-0".to_string()),
        ("b".to_string(), "2-0".to_string()),
        ("a".to_string(), "3-0".to_string()),
    ]);
    let mut pairs = offset_pairs(&offsets);
    pairs.sort();
    assert_eq!(pairs, vec![("a".to_string(), "3-0".to_string()), ("b".to_string(), "2-0".to_string())]);
    advance_offsets(
        &mut offsets,
        &vec![
            StreamReadIds { stream_name: "a".to_string(), message_ids: vec!["4-0".to_string(), "5-0".to_string()] },
            StreamReadIds { stream_name: "b".to_string(), message_ids: vec![] },
            StreamReadIds { stream_name: "c".to_string(), message_ids: vec!["9-1".to_string()] },
        ],
    );
    let mut after = offset_pairs(&offsets);
    after.sort();
    assert_eq!(after, vec![("a".to_string(), "5-0".to_string()), ("c".to_string(), "9-1".to_string())]);
}

#[test]
fn pending_data_filters_messages() {
    let msgs = vec![
        msg("1", b"ab", None, None),
        msg("2", b"cd", Some(vec![7]), None),
        msg("3", b"ef", None, Some(4)),
        msg("4", b"gh", Some(vec![8]), Some(1)),
    ];
    assert_eq!(pending_data(&msgs, 7, 1), b"abgh".to_vec());
    assert_eq!(pending_data(&msgs, 8, 5), b"abcdef".to_vec());
}

#[test]
fn integer_parsing() {
    assert_eq!(parse_i64("42"), Some(42));
    assert_eq!(parse_i64("-9223372036854775808"), Some(i64::MIN));
    assert_eq!(parse_i64("9223372036854775808"), None);
    assert_eq!(parse_i64("+7"), Some(7));
    assert_eq!(parse_i64("-"), None);
    assert_eq!(parse_i64(""), None);
    assert_eq!(parse_i64("1a"), None);
    assert_eq!(parse_u8("255"), Some(255));
    assert_eq!(parse_u8("256"), None);
    assert_eq!(parse_u8("-1"), None);
    assert_eq!(parse_u8("007"), Some(7));
    for s in ["0", "-12", "+3", "x", "99999999999999999999", "-0"] {
        assert_eq!(parse_i64(s), s.parse::<i64>().ok(), "{s}");
        assert_eq!(parse_u8(s), s.parse::<u8>().ok(), "{s}");
    }
    assert_eq!(split_commas("a,,b"), vec!["a".to_string(), "".to_string(), "b".to_string()]);
    assert_eq!(split_commas(""), vec!["".to_string()]);
}

#[test]
fn pubsub_rules() {
    assert_eq!(route_channel("peppy:ban"), Some(PubsubEvent::Ban));
    assert_eq!(route_channel("peppy:wipe"), Some(PubsubEvent::Wipe));
    assert_eq!(route_channel("peppy:other"), None);
    for c in PUBSUB_CHANNELS {
        assert!(route_channel(c).is_some());
    }
    assert_eq!(parse_wipe_payload("1000,1,0"), Ok((1000, 1, 0)));
    assert_eq!(parse_wipe_payload("1000,1,0,extra"), Ok((1000, 1, 0)));
    assert_eq!(parse_wipe_payload("1000,1"), Err(WipePayloadError::MissingField));
    assert_eq!(parse_wipe_payload("1000,x,0"), Err(WipePayloadError::InvalidNumber));
    assert_eq!(silence_seconds_left(Some(150), 100), 50);
    assert_eq!(silence_seconds_left(Some(50), 100), 0);
    assert_eq!(silence_seconds_left(None, 100), 0);
    assert_eq!(ban_session_action(1), BanSessionAction::EndSession);
    assert_eq!(ban_session_action(3), BanSessionAction::Restrict);
    assert_eq!(username_change_action(Some(2)), UsernameChangeAction::Queue);
    assert_eq!(username_change_action(Some(12)), UsernameChangeAction::Queue);
    assert_eq!(username_change_action(Some(0)), UsernameChangeAction::RenameOnline);
    assert_eq!(username_change_action(None), UsernameChangeAction::RenameOffline);
    let r = restriction_message("bob");
    assert_eq!(r.recipient, "bob");
    assert_eq!(r.sender_id, 999);
    assert_eq!(unrestriction_message("bob").text, "Your account is now unrestricted.");
}

#[test]
fn cleanup_rules() {
    assert!(session_timed_out(0, 301));
    assert!(!session_timed_out(0, 300));
    assert_eq!(stream_cleanup(0, 601), StreamCleanup::Clear);
    assert_eq!(stream_cleanup(0, 600), StreamCleanup::Trim { ttl_seconds: 300 });
}

#[test]
fn message_rules() {
    assert_eq!(check_message(true, false, "  hi  "), Ok("hi".to_string()));
    assert_eq!(check_message(true, false, "   "), Ok("".to_string()));
    assert_eq!(check_message(false, false, "hi"), Err(AppError::InteractionBlocked));
    assert_eq!(check_message(true, true, "hi"), Err(AppError::MessagesUserSilenced));
    assert_eq!(spam_silence_end(9, 1000), None);
    assert_eq!(spam_silence_end(10, 1000), Some(1300));
    assert_eq!(
        recipient_info(3, RecipientFacts::Channel { can_write: false }),
        Err(AppError::ChannelsUnauthorized)
    );
    assert_eq!(
        recipient_info(3, RecipientFacts::UserSession { user_id: 5, visible: false, private_dms: false, relationship: RelationshipLookup::Found }),
        Err(AppError::InteractionBlocked)
    );
    assert_eq!(
        recipient_info(3 | 4194304, RecipientFacts::UserSession { user_id: 5, visible: false, private_dms: false, relationship: RelationshipLookup::Found }),
        Ok(RecipientInfo { to_channel: false, recipient_id: Some(5), mark_as_unread: false })
    );
    assert_eq!(
        recipient_info(3, RecipientFacts::UserSession { user_id: 5, visible: true, private_dms: true, relationship: RelationshipLookup::NotFound }),
        Err(AppError::InteractionBlocked)
    );
    assert_eq!(
        recipient_info(3, RecipientFacts::UserSession { user_id: 5, visible: true, private_dms: true, relationship: RelationshipLookup::Failed }),
        Ok(RecipientInfo { to_channel: false, recipient_id: Some(5), mark_as_unread: false })
    );
    assert_eq!(
        recipient_info(3, RecipientFacts::OfflineUser { user_id: 6, visible: true }),
        Ok(RecipientInfo { to_channel: false, recipient_id: Some(6), mark_as_unread: true })
    );
    assert_eq!(
        recipient_info(3, RecipientFacts::Bot),
        Ok(RecipientInfo { to_channel: false, recipient_id: Some(999), mark_as_unread: false })
    );
}

#[test]
fn misc_rules() {
    assert_eq!(maintenance_toggle(0), (1, true));
    assert_eq!(maintenance_toggle(5), (0, false));
    assert!(setting_enabled(1));
    assert_eq!(classify_channel_name("#spectator"), ChannelNameKind::Spectator);
    assert_eq!(classify_channel_name("#multiplayer"), ChannelNameKind::Multiplayer);
    assert_eq!(classify_channel_name("#osu"), ChannelNameKind::Chat);
    assert_eq!(message_stream(ChannelName::Multiplayer(4)), StreamName::Multiplayer(4));
    assert_eq!(update_stream(ChannelName::Chat("#osu"), 7), (StreamName::Main, Some(7)));
    assert_eq!(ChannelName::Multiplayer(4).to_string(), "#multi_4");
    assert_eq!(spectator_join_follow_up(1), SpectatorJoinFollowUp::FirstSpectator);
    assert_eq!(spectator_join_follow_up(2), SpectatorJoinFollowUp::FellowSpectator);
    assert_eq!(spectator_leave_follow_up(0), SpectatorLeaveFollowUp::LastSpectator);
    assert_eq!(spectator_leave_follow_up(3), SpectatorLeaveFollowUp::OthersRemain);
    assert_eq!(first_place_successor_lookup(0, 0), Some(("scores", "score")));
    assert_eq!(first_place_successor_lookup(3, 2), Some(("scores_ap", "pp")));
    assert_eq!(first_place_successor_lookup(4, 0), None);
    let reqs = default_pp_requests(&PerformanceRequestArgs {
        beatmap_id: 1,
        beatmap_md5: "m".to_string(),
        mode: 0,
        mods: 8,
        beatmap_max_combo: 300,
    });
    let acc: Vec<u32> = reqs.iter().map(|r| r.accuracy_percent).collect();
    assert_eq!(acc, vec![100, 99, 98, 95]);
    assert!(reqs.iter().all(|r| r.max_combo == 300 && r.miss_count == 0 && r.mods == 8));
}
