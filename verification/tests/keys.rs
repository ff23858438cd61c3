use bancho_service::entities::channels::ChannelName;
use bancho_service::entities::gamemodes::{CustomGamemode, Mode};
use bancho_service::repositories::channels::{make_channel_members_key, make_session_channels_key};
use bancho_service::repositories::multiplayer::{make_referees_key, make_slots_key, make_timer_key, TimerType};
use bancho_service::repositories::sessions::{make_id_key, make_username_key};
use bancho_service::repositories::spectators;
use bancho_service::repositories::stats::{displayed_rank, make_country_key};
use bancho_service::repositories::streams::{make_key, make_offsets_key, StreamName};
use bancho_service::repositories::tillerino;
use bancho_service::repositories::users::make_queued_username_change_key;
use bancho_service::common::chat::safe_username;
use bancho_service::text::{decimal_string, to_ascii_lowercase};

const SESSION: u128 = 0x67e55044_10b1_426f_9247_bb680e5fe0c8;

#[test]
fn decimal_rendering() {
    assert_eq!(decimal_string(0), "0");
    assert_eq!(decimal_string(-42), "-42");
    assert_eq!(decimal_string(i64::MIN), "-9223372036854775808");
    assert_eq!(decimal_string(i64::MAX), "9223372036854775807");
}

#[test]
fn multiplayer_keys() {
    assert_eq!(make_referees_key(12), "akatsuki:bancho:multiplayer:referees:12");
    assert_eq!(make_slots_key(12), "akatsuki:bancho:multiplayer:12");
    assert_eq!(make_timer_key(12, TimerType::Regular), "akatsuki:bancho:multiplayer:timer:12");
    assert_eq!(make_timer_key(12, TimerType::MatchStart), "akatsuki:bancho:multiplayer:start_timer:12");
}

#[test]
fn session_keys_use_uuid_text() {
    assert_eq!(make_id_key(1000), "akatsuki:bancho:sessions:user_ids:1000");
    assert_eq!(make_username_key("Cool Guy"), "akatsuki:bancho:sessions:usernames:cool_guy");
    assert_eq!(
        make_offsets_key(SESSION),
        "akatsuki:bancho:sessions:67e55044-10b1-426f-9247-bb680e5fe0c8:stream_offsets"
    );
    assert_eq!(
        make_session_channels_key(SESSION),
        "akatsuki:bancho:session:67e55044-10b1-426f-9247-bb680e5fe0c8:channels"
    );
    assert_eq!(spectators::make_key(1), "akatsuki:bancho:spectator:00000000-0000-0000-0000-000000000001");
    assert_eq!(tillerino::make_key(SESSION), "akatsuki:bancho:tillerino:67e55044-10b1-426f-9247-bb680e5fe0c8");
    assert_eq!(make_channel_members_key("#osu"), "akatsuki:bancho:channels:#osu:members");
    assert_eq!(make_queued_username_change_key(5), "ripple:change_username_pending:5");
}

#[test]
fn stream_keys() {
    assert_eq!(make_key(StreamName::Main), "akatsuki:bancho:streams:main");
    assert_eq!(make_key(StreamName::Multiplaying(3)), "akatsuki:bancho:streams:multiplayer:3:playing");
    assert_eq!(make_key(StreamName::Multiplayer(3)), "akatsuki:bancho:streams:multiplayer:3");
    assert_eq!(
        make_key(StreamName::User(SESSION)),
        "akatsuki:bancho:streams:user:67e55044-10b1-426f-9247-bb680e5fe0c8"
    );
    assert_eq!(make_key(StreamName::Channel(ChannelName::Chat("#osu"))), "akatsuki:bancho:streams:channel:#osu");
    assert_eq!(StreamName::Lobby.to_string(), "lobby");
    assert_eq!(StreamName::Staff.to_string(), "staff");
}

#[test]
fn leaderboard_keys() {
    assert_eq!(
        make_country_key(Mode::Catch, CustomGamemode::Relax, "GB"),
        "ripple:relaxboard:ctb:gb"
    );
    assert_eq!(
        make_country_key(Mode::Standard, CustomGamemode::Autopilot, "us"),
        "ripple:autoboard:std:us"
    );
    assert_eq!(displayed_rank(Some(0)), 1);
    assert_eq!(displayed_rank(None), 0);
}

#[test]
fn username_normalisation() {
    assert_eq!(safe_username("Some User_X"), "some_user_x");
    assert_eq!(to_ascii_lowercase("ÄbC"), "Äbc");
}
