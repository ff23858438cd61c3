//! Multiplayer matches and their slots.
use crate::entities::sessions::SessionIdentity;
use vstd::prelude::*;

verus! {

/// Number of slots of every match.
pub const MULTIPLAYER_MAX_SIZE: usize = 16;

/// Slot status bits of the osu! protocol.
pub const SLOT_EMPTY: u8 = 1;
pub const SLOT_LOCKED: u8 = 2;
pub const SLOT_NOT_READY: u8 = 4;
pub const SLOT_READY: u8 = 8;
pub const SLOT_NO_MAP: u8 = 16;
pub const SLOT_PLAYING: u8 = 32;
pub const SLOT_COMPLETE: u8 = 64;
pub const SLOT_QUIT: u8 = 128;

/// Mod bits that belong to the whole match even when free mod is enabled.
pub const MOD_DOUBLETIME: u32 = 64;
pub const MOD_HALFTIME: u32 = 256;
pub const MOD_NIGHTCORE: u32 = 512;
pub const MOD_RELAX: u32 = 128;
pub const MOD_AUTOPILOT: u32 = 8192;

/// The team of a slot.
#[derive(Debug, Clone, Copy, PartialEq, Eq, Structural)]
pub enum MatchTeam {
    NoTeam,
    Blue,
    Red,
}

/// One slot of a match.
#[derive(Debug, Clone, Copy, PartialEq, Eq, Structural)]
pub struct MultiplayerMatchSlot {
    pub status: u8,
    pub team: MatchTeam,
    pub mods: u32,
    pub user: Option<SessionIdentity>,
    pub loaded: bool,
    pub skipped: bool,
    pub failed: bool,
    pub completed: bool,
}

/// A slot with no user in it and the given status.
pub open spec fn vacant_slot(status: u8) -> MultiplayerMatchSlot {
    MultiplayerMatchSlot {
        status,
        team: MatchTeam::NoTeam,
        mods: 0,
        user: None,
        loaded: false,
        skipped: false,
        failed: false,
        completed: false,
    }
}

/// The slot a user takes when joining: not ready, no team, no mods.
pub open spec fn prepared_slot(identity: SessionIdentity) -> MultiplayerMatchSlot {
    MultiplayerMatchSlot {
        status: SLOT_NOT_READY,
        team: MatchTeam::NoTeam,
        mods: 0,
        user: Some(identity),
        loaded: false,
        skipped: false,
        failed: false,
        completed: false,
    }
}

impl MultiplayerMatchSlot {
    /// A vacant slot with the given status.
    pub fn vacant(status: u8) -> (slot: Self)
        ensures
            slot == vacant_slot(status),
    {
        MultiplayerMatchSlot {
            status,
            team: MatchTeam::NoTeam,
            mods: 0,
            user: None,
            loaded: false,
            skipped: false,
            failed: false,
            completed: false,
        }
    }

    /// Puts a user into the slot.
    pub fn prepare(&mut self, identity: SessionIdentity)
        ensures
            *final(self) == prepared_slot(identity),
    {
        *self = MultiplayerMatchSlot {
            status: SLOT_NOT_READY,
            team: MatchTeam::NoTeam,
            mods: 0,
            user: Some(identity),
            loaded: false,
            skipped: false,
            failed: false,
            completed: false,
        };
    }

    /// Empties the slot.
    pub fn clear(&mut self)
        ensures
            *final(self) == vacant_slot(SLOT_EMPTY),
    {
        *self = Self::vacant(SLOT_EMPTY);
    }
}

/// The persistent state of a match.
#[derive(Debug, Clone, PartialEq, Eq)]
pub struct MultiplayerMatch {
    pub match_id: i64,
    pub wire_id: Option<u16>,
    pub name: String,
    pub password: String,
    pub host_user_id: i64,
    pub beatmap_name: String,
    pub beatmap_md5: String,
    pub beatmap_id: i32,
    pub mode: u8,
    pub mods: u32,
    pub freemod_enabled: bool,
    pub in_progress: bool,
    pub win_condition: u8,
    pub team_type: u8,
    pub random_seed: i32,
    pub last_game_id: Option<i64>,
}

} // verus!
