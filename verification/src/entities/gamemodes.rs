//! Game modes: the four osu! rulesets and the server's relax/autopilot boards.
use vstd::prelude::*;

verus! {

/// The four osu! rulesets (wire values 0 to 3).
#[derive(Debug, Clone, Copy, PartialEq, Eq, Structural)]
pub enum Mode {
    Standard,
    Taiko,
    Catch,
    Mania,
}

/// The leaderboard family a score belongs to (wire values 0 to 2).
#[derive(Debug, Clone, Copy, PartialEq, Eq, Structural)]
pub enum CustomGamemode {
    Vanilla,
    Relax,
    Autopilot,
}

/// Wire value of a ruleset.
pub open spec fn mode_value(mode: Mode) -> u8 {
    match mode {
        Mode::Standard => 0,
        Mode::Taiko => 1,
        Mode::Catch => 2,
        Mode::Mania => 3,
    }
}

/// Wire value of a leaderboard family.
pub open spec fn custom_gamemode_value(custom: CustomGamemode) -> u8 {
    match custom {
        CustomGamemode::Vanilla => 0,
        CustomGamemode::Relax => 1,
        CustomGamemode::Autopilot => 2,
    }
}

impl Mode {
    /// The ruleset with the given wire value.
    pub fn from_value(value: u8) -> (mode: Option<Mode>)
        ensures
            match mode {
                Some(m) => mode_value(m) == value,
                None => value > 3,
            },
    {
        match value {
            0 => Some(Mode::Standard),
            1 => Some(Mode::Taiko),
            2 => Some(Mode::Catch),
            3 => Some(Mode::Mania),
            _ => None,
        }
    }

    /// The wire value of the ruleset.
    pub fn value(&self) -> (v: u8)
        ensures
            v == mode_value(*self),
    {
        match self {
            Mode::Standard => 0,
            Mode::Taiko => 1,
            Mode::Catch => 2,
            Mode::Mania => 3,
        }
    }
}

impl CustomGamemode {
    /// The family with a wire value of at most 2.
    pub open spec fn from_value_spec(value: u8) -> CustomGamemode {
        if value == 0 {
            CustomGamemode::Vanilla
        } else if value == 1 {
            CustomGamemode::Relax
        } else {
            CustomGamemode::Autopilot
        }
    }

    /// The leaderboard family with the given wire value.
    pub fn from_value(value: u8) -> (custom: Option<CustomGamemode>)
        ensures
            match custom {
                Some(c) => custom_gamemode_value(c) == value,
                None => value > 2,
            },
    {
        match value {
            0 => Some(CustomGamemode::Vanilla),
            1 => Some(CustomGamemode::Relax),
            2 => Some(CustomGamemode::Autopilot),
            _ => None,
        }
    }

    /// The wire value of the family.
    pub fn value(&self) -> (v: u8)
        ensures
            v == custom_gamemode_value(*self),
    {
        match self {
            CustomGamemode::Vanilla => 0,
            CustomGamemode::Relax => 1,
            CustomGamemode::Autopilot => 2,
        }
    }
}

/// The combined game mode value the server stores: the ruleset, plus 4 on the
/// relax boards (standard, taiko, catch) and 8 for standard autopilot.
pub open spec fn gamemode_value(mode: Mode, custom: CustomGamemode) -> u8 {
    match custom {
        CustomGamemode::Vanilla => mode_value(mode),
        CustomGamemode::Relax => (mode_value(mode) + 4) as u8,
        CustomGamemode::Autopilot => (mode_value(mode) + 8) as u8,
    }
}

/// The leaderboard family a set of mods plays on for a ruleset: relax (bit
/// 128) outside mania, autopilot (bit 8192) on standard, vanilla otherwise.
pub open spec fn custom_gamemode_for(mode: Mode, mods: u32) -> CustomGamemode {
    if mods & 128 != 0 && mode != Mode::Mania {
        CustomGamemode::Relax
    } else if mods & 8192 != 0 && mode == Mode::Standard {
        CustomGamemode::Autopilot
    } else {
        CustomGamemode::Vanilla
    }
}

/// Relax (bit 128) moves every ruleset but mania onto its relax board, four
/// above the ruleset's value; autopilot (bit 8192) without relax moves
/// standard to value 8; mania always stays on its vanilla board (3), and
/// without either bit the value is the ruleset's.
pub proof fn lemma_relax_and_autopilot_boards(mode: Mode, mods: u32)
    ensures
        mods & 128 != 0 && mode != Mode::Mania
            ==> gamemode_value(mode, custom_gamemode_for(mode, mods)) == mode_value(mode) + 4,
        mods & 128 == 0 && mods & 8192 != 0 && mode == Mode::Standard
            ==> gamemode_value(mode, custom_gamemode_for(mode, mods)) == 8,
        mode == Mode::Mania ==> gamemode_value(mode, custom_gamemode_for(mode, mods)) == 3,
        mods & 128 == 0 && mods & 8192 == 0
            ==> gamemode_value(mode, custom_gamemode_for(mode, mods)) == mode_value(mode),
{
}

/// The combined game mode value for a ruleset played with the given mods.
pub fn gamemode_from_mode_and_mods(mode: Mode, mods: u32) -> (g: u8)
    ensures
        g == gamemode_value(mode, custom_gamemode_for(mode, mods)),
        mods & 128 != 0 && mode != Mode::Mania ==> g == mode_value(mode) + 4,
        mods & 128 == 0 && mods & 8192 != 0 && mode == Mode::Standard ==> g == 8,
        mods & 128 == 0 && mods & 8192 == 0 ==> g == mode_value(mode),
        mode == Mode::Mania ==> g == 3,
{
    let base = mode.value();
    let relax = mods & 128 != 0;
    let autopilot = mods & 8192 != 0;
    if relax && base != 3 {
        base + 4
    } else if autopilot && base == 0 {
        base + 8
    } else {
        base
    }
}

/// The ruleset and leaderboard family of a combined game mode value (the
/// inverse of `gamemode_value`), `None` for a value that names none.
pub fn split_gamemode(g: u8) -> (res: Option<(Mode, CustomGamemode)>)
    ensures
        match res {
            Some((m, c)) => gamemode_value(m, c) == g,
            None => forall|m: Mode, c: CustomGamemode| #[trigger] gamemode_value(m, c) != g,
        },
{
    let mode = match Mode::from_value(g % 4) {
        Some(m) => m,
        None => return None,
    };
    match CustomGamemode::from_value(g / 4) {
        Some(c) => Some((mode, c)),
        None => {
            assert forall|m: Mode, c: CustomGamemode| #[trigger] gamemode_value(m, c) != g by {
                assert(gamemode_value(m, c) < 12);
            }
            None
        },
    }
}

} // verus!
