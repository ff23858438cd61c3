use bancho_service::common::error::AppError;
use bancho_service::entities::channels::ChannelName;
use bancho_service::entities::gamemodes::{split_gamemode, CustomGamemode, Mode};
use bancho_service::models::privileges::{ADMIN_CAKER, PUBLICLY_VISIBLE};
use bancho_service::repositories::streams::{make_key, stream_name_from_key, StreamName};
use bancho_service::usecases::channels::channel_privileges;
use bancho_service::usecases::messages::check_message;
use bancho_service::usecases::spectators::spectating_allowed;

const SESSION: u128 = 0x67e55044_10b1_426f_9247_bb680e5fe0c8;

#[test]
fn stream_keys_read_back() {
    let names = [
        StreamName::User(SESSION),
        StreamName::Main,
        StreamName::Lobby,
        StreamName::Donator,
        StreamName::Staff,
        StreamName::Dev,
        StreamName::Channel(ChannelName::Chat("#osu")),
        StreamName::Spectator(SESSION),
        StreamName::Multiplayer(-42),
        StreamName::Multiplaying(70000),
    ];
    for name in names {
        let key = make_key(name);
        let parsed = stream_name_from_key(&key).expect("a rendered key parses");
        assert_eq!(make_key(parsed), key);
        assert_eq!(parsed, name);
    }
}

#[test]
fn stream_keys_outside_the_image_are_refused() {
    for key in [
        "akatsuki:bancho:streams",
        "akatsuki:bancho:sessions:main",
        "akatsuki:bancho:streams:mainx",
        "akatsuki:bancho:streams:user:67E55044-10B1-426F-9247-BB680E5FE0C8",
        "akatsuki:bancho:streams:user:67e5504410b1426f9247bb680e5fe0c8",
        "akatsuki:bancho:streams:spectator:nope",
        "akatsuki:bancho:streams:multiplayer:007",
        "akatsuki:bancho:streams:multiplayer:+7",
        "akatsuki:bancho:streams:multiplayer:7:paused",
        "akatsuki:bancho:streams:multiplayer::playing",
        "akatsuki:bancho:streams:unknown",
    ] {
        assert_eq!(stream_name_from_key(key), None, "{key}");
    }
    assert_eq!(
        stream_name_from_key("akatsuki:bancho:streams:channel:#spect_x"),
        Some(StreamName::Channel(ChannelName::Chat("#spect_x")))
    );
}

#[test]
fn spectating_needs_visibility() {
    assert_eq!(spectating_allowed(PUBLICLY_VISIBLE | 2), Ok(()));
    assert_eq!(spectating_allowed(2), Err(AppError::InteractionBlocked));
}

#[test]
fn gamemode_values_split() {
    assert_eq!(split_gamemode(0), Some((Mode::Standard, CustomGamemode::Vanilla)));
    assert_eq!(split_gamemode(5), Some((Mode::Taiko, CustomGamemode::Relax)));
    assert_eq!(split_gamemode(8), Some((Mode::Standard, CustomGamemode::Autopilot)));
    assert_eq!(split_gamemode(12), None);
}

#[test]
fn channel_privileges_by_direction() {
    assert_eq!(channel_privileges(true), 0);
    assert_eq!(channel_privileges(false), ADMIN_CAKER);
}

#[test]
fn trim_removes_unicode_whitespace() {
    assert_eq!(check_message(true, false, "\u{3000}\t hi there\u{a0}\u{2028}"), Ok("hi there".to_string()));
    assert_eq!(check_message(true, false, "\u{200b}x"), Ok("\u{200b}x".to_string()));
}
