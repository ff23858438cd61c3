//! The redis layout of the leaderboards.
use crate::entities::gamemodes::{CustomGamemode, Mode};
use crate::text::{ascii_lowercase, to_ascii_lowercase};
use vstd::prelude::*;

verus! {

/// The name of a leaderboard family's board.
pub open spec fn board_text(custom: CustomGamemode) -> Seq<char> {
    match custom {
        CustomGamemode::Vanilla => "leaderboard"@,
        CustomGamemode::Relax => "relaxboard"@,
        CustomGamemode::Autopilot => "autoboard"@,
    }
}

/// The short name of a ruleset.
pub open spec fn mode_text(mode: Mode) -> Seq<char> {
    match mode {
        Mode::Standard => "std"@,
        Mode::Taiko => "taiko"@,
        Mode::Catch => "ctb"@,
        Mode::Mania => "mania"@,
    }
}

fn board_str(custom: CustomGamemode) -> (s: &'static str)
    ensures
        s@ == board_text(custom),
{
    match custom {
        CustomGamemode::Vanilla => "leaderboard",
        CustomGamemode::Relax => "relaxboard",
        CustomGamemode::Autopilot => "autoboard",
    }
}

fn mode_str(mode: Mode) -> (s: &'static str)
    ensures
        s@ == mode_text(mode),
{
    match mode {
        Mode::Standard => "std",
        Mode::Taiko => "taiko",
        Mode::Catch => "ctb",
        Mode::Mania => "mania",
    }
}

/// The redis key of a global leaderboard.
pub fn make_key(mode: Mode, custom_gamemode: CustomGamemode) -> (key: String)
    ensures
        key@ == "ripple:"@ + board_text(custom_gamemode) + ":"@ + mode_text(mode),
{
    let mut key = String::from_str("ripple:");
    key.append(board_str(custom_gamemode));
    key.append(":");
    key.append(mode_str(mode));
    key
}

/// The redis key of a country leaderboard (country code in lower case).
pub fn make_country_key(mode: Mode, custom_gamemode: CustomGamemode, country: &str) -> (key: String)
    ensures
        key@ == "ripple:"@ + board_text(custom_gamemode) + ":"@ + mode_text(mode) + ":"@ + ascii_lowercase(country@),
{
    let mut key = make_key(mode, custom_gamemode);
    key.append(":");
    let lower = to_ascii_lowercase(country);
    key.append(lower.as_str());
    key
}

/// A user's rank as shown: one more than the zero-based leaderboard rank, or
/// 0 when the user is not on the leaderboard.
pub fn displayed_rank(rank: Option<usize>) -> (r: usize)
    requires
        rank matches Some(x) ==> x < usize::MAX,
    ensures
        r == match rank {
            Some(x) => x + 1,
            None => 0,
        },
{
    match rank {
        Some(x) => x + 1,
        None => 0,
    }
}

} // verus!
