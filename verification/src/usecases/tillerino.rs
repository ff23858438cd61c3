//! What the Tillerino bot remembers of the beatmap a player last announced.
use vstd::prelude::*;

verus! {

/// A player's "now playing" announcement.
#[derive(Debug, Clone, Copy, PartialEq, Eq, Structural)]
pub struct NowPlayingMessage {
    pub beatmap_id: i32,
    pub mode: u8,
    pub mods: u32,
}

/// What the beatmap service knows of the announced beatmap.
#[derive(Debug, Clone, PartialEq, Eq)]
pub struct BeatmapInfo {
    pub beatmapset_id: i32,
    pub beatmap_md5: String,
    pub song_name: String,
    pub max_combo: i32,
    pub mode: u8,
}

/// The state kept for the announcement.
#[derive(Debug, Clone, PartialEq, Eq)]
pub struct NowPlayingState {
    pub beatmap_id: i32,
    pub beatmap_set_id: i32,
    pub beatmap_md5: String,
    pub beatmap_song_name: String,
    pub beatmap_max_combo: i32,
    pub mode: u8,
    pub mods: u32,
}

/// Combines an announcement with its beatmap. A beatmap made for a mode other
/// than standard (mode 0) is played in that mode; a standard beatmap in the
/// mode the player announced.
pub fn now_playing_state(np: NowPlayingMessage, beatmap: BeatmapInfo) -> (state: NowPlayingState)
    ensures
        state.beatmap_id == np.beatmap_id,
        state.beatmap_set_id == beatmap.beatmapset_id,
        state.beatmap_md5@ == beatmap.beatmap_md5@,
        state.beatmap_song_name@ == beatmap.song_name@,
        state.beatmap_max_combo == beatmap.max_combo,
        state.mode == if beatmap.mode != 0 { beatmap.mode } else { np.mode },
        state.mods == np.mods,
{
    let mode = if beatmap.mode != 0 { beatmap.mode } else { np.mode };
    NowPlayingState {
        beatmap_id: np.beatmap_id,
        beatmap_set_id: beatmap.beatmapset_id,
        beatmap_md5: beatmap.beatmap_md5,
        beatmap_song_name: beatmap.song_name,
        beatmap_max_combo: beatmap.max_combo,
        mode,
        mods: np.mods,
    }
}

} // verus!
