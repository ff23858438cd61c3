pub mod channels;
pub mod hardware_logs;
pub mod multiplayer;
pub mod sessions;
pub mod spectators;
pub mod stats;
pub mod streams;
pub mod tillerino;
pub mod users;
pub mod scores;
