//! Verified core of the bancho session service: redis key layout, multiplayer
//! slot rules, stream delivery bookkeeping, login and multi-account decisions.
pub mod common;
pub mod entities;
pub mod models;
pub mod repositories;
pub mod text;
pub mod usecases;
pub mod workers;
