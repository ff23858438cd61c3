//! The periodic clean-up of idle sessions and stale streams.
use vstd::prelude::*;

verus! {

/// Seconds without activity after which a session is ended.
pub const CLIENT_TIMEOUT: i64 = 300;
/// Seconds a stream message is kept.
pub const MESSAGE_TTL: u64 = 300;
/// Seconds without any message after which a stream is deleted.
pub const CLEAR_STREAM_INTERVAL: i64 = 600;

/// Whether a session last updated at `updated_at` has timed out at `now`
/// (both in seconds since the epoch).
pub fn session_timed_out(updated_at: i64, now: i64) -> (b: bool)
    ensures
        b == (updated_at + CLIENT_TIMEOUT < now),
{
    if updated_at > i64::MAX - CLIENT_TIMEOUT {
        false
    } else {
        updated_at + CLIENT_TIMEOUT < now
    }
}

/// What the clean-up does to a stream.
#[derive(Debug, Clone, Copy, PartialEq, Eq, Structural)]
pub enum StreamCleanup {
    /// No message for ten minutes: delete the stream.
    Clear,
    /// Remove the messages older than the given number of seconds.
    Trim { ttl_seconds: u64 },
}

/// Decides the clean-up of a stream whose latest message is from `latest`.
pub fn stream_cleanup(latest: i64, now: i64) -> (c: StreamCleanup)
    ensures
        c == if latest + CLEAR_STREAM_INTERVAL < now {
            StreamCleanup::Clear
        } else {
            StreamCleanup::Trim { ttl_seconds: MESSAGE_TTL }
        },
{
    if latest <= i64::MAX - CLEAR_STREAM_INTERVAL && latest + CLEAR_STREAM_INTERVAL < now {
        StreamCleanup::Clear
    } else {
        StreamCleanup::Trim { ttl_seconds: MESSAGE_TTL }
    }
}

} // verus!
