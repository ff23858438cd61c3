pub mod chat;
pub mod error;
pub mod parse;
pub mod redis_json;
