pub mod channels;
pub mod gamemodes;
pub mod multiplayer;
pub mod sessions;
