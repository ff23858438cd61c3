pub mod bancho_settings;
pub mod beatmaps;
pub mod hardware_logs;
pub mod multiaccounts;
pub mod multiplayer;
pub mod spectators;
pub mod streams;
pub mod users;
pub mod messages;
pub mod sessions;
pub mod channels;
pub mod performance;
pub mod ripple;
pub mod tillerino;
