//! Score tables and the first place rules of each leaderboard family.
use crate::entities::gamemodes::CustomGamemode;
use vstd::prelude::*;

verus! {

/// The score table of a leaderboard family.
pub open spec fn scores_table_text(custom: CustomGamemode) -> Seq<char> {
    match custom {
        CustomGamemode::Vanilla => "scores"@,
        CustomGamemode::Relax => "scores_relax"@,
        CustomGamemode::Autopilot => "scores_ap"@,
    }
}

/// The score table of a leaderboard family.
pub fn scores_table(custom: CustomGamemode) -> (t: &'static str)
    ensures
        t@ == scores_table_text(custom),
{
    match custom {
        CustomGamemode::Vanilla => "scores",
        CustomGamemode::Relax => "scores_relax",
        CustomGamemode::Autopilot => "scores_ap",
    }
}

/// How a first place is looked for when it is taken away: the score table
/// and the column the candidates are ranked by (score on the vanilla boards,
/// pp elsewhere). `None` for a first place of an unknown mode or family,
/// for which no lookup is made.
pub fn first_place_successor_lookup(mode: u8, rx: u8) -> (res: Option<(&'static str, &'static str)>)
    ensures
        match res {
            Some((table, sort)) => mode <= 3 && rx <= 2
                && table@ == scores_table_text(CustomGamemode::from_value_spec(rx))
                && sort@ == if rx == 0 { "score"@ } else { "pp"@ },
            None => mode > 3 || rx > 2,
        },
{
    if mode > 3 || rx > 2 {
        return None;
    }
    let custom = match rx {
        0 => CustomGamemode::Vanilla,
        1 => CustomGamemode::Relax,
        _ => CustomGamemode::Autopilot,
    };
    let sort = if rx == 0 { "score" } else { "pp" };
    Some((scores_table(custom), sort))
}

} // verus!
