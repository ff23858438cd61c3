//! Message streams: their names, their redis keys, and the per-session read
//! offsets.
use crate::entities::channels::{ChannelName, channel_name_text};
use crate::common::parse::{lemma_decimal_roundtrip, parse_i64, parse_i64_spec};
use crate::text::{decimal_int, decimal_string, parse_uuid, push_decimal_i64, uuid_string, uuid_text};
use vstd::prelude::*;

verus! {

/// A message stream.
#[derive(Debug, Clone, Copy, PartialEq, Eq)]
pub enum StreamName<'a> {
    /// Messages queued for one session.
    User(u128),
    /// Global events.
    Main,
    /// Multiplayer lobby updates.
    Lobby,
    /// Messages for supporters.
    Donator,
    /// Messages for staff members.
    Staff,
    /// Messages for developers.
    Dev,
    /// The messages of a chat channel.
    Channel(ChannelName<'a>),
    /// Messages for the spectators of a host session.
    Spectator(u128),
    /// Messages for the members of a match.
    Multiplayer(i64),
    /// Messages for the players of a running game.
    Multiplaying(i64),
}

/// The text form of a stream name.
pub open spec fn stream_name_text(s: StreamName) -> Seq<char> {
    match s {
        StreamName::User(id) => "user:"@ + uuid_text(id),
        StreamName::Main => "main"@,
        StreamName::Lobby => "lobby"@,
        StreamName::Donator => "donator"@,
        StreamName::Staff => "staff"@,
        StreamName::Dev => "dev"@,
        StreamName::Channel(c) => "channel:"@ + channel_name_text(c),
        StreamName::Spectator(id) => "spectator:"@ + uuid_text(id),
        StreamName::Multiplayer(m) => "multiplayer:"@ + decimal_int(m as int),
        StreamName::Multiplaying(m) => "multiplayer:"@ + decimal_int(m as int) + ":playing"@,
    }
}

impl<'a> StreamName<'a> {
    /// The text form of the stream name.
    pub fn to_string(&self) -> (s: String)
        ensures
            s@ == stream_name_text(*self),
    {
        match self {
            StreamName::User(id) => {
                let mut s = String::from_str("user:");
                let t = uuid_string(*id);
                s.append(t.as_str());
                s
            },
            StreamName::Main => String::from_str("main"),
            StreamName::Lobby => String::from_str("lobby"),
            StreamName::Donator => String::from_str("donator"),
            StreamName::Staff => String::from_str("staff"),
            StreamName::Dev => String::from_str("dev"),
            StreamName::Channel(c) => {
                let mut s = String::from_str("channel:");
                let t = c.to_string();
                s.append(t.as_str());
                s
            },
            StreamName::Spectator(id) => {
                let mut s = String::from_str("spectator:");
                let t = uuid_string(*id);
                s.append(t.as_str());
                s
            },
            StreamName::Multiplayer(m) => {
                let mut s = String::from_str("multiplayer:");
                push_decimal_i64(&mut s, *m);
                s
            },
            StreamName::Multiplaying(m) => {
                let mut s = String::from_str("multiplayer:");
                push_decimal_i64(&mut s, *m);
                s.append(":playing");
                s
            },
        }
    }
}

/// The redis key of a stream, as `make_key` renders it.
pub open spec fn stream_key(s: StreamName) -> Seq<char> {
    "akatsuki:bancho:streams:"@ + stream_name_text(s)
}

/// Whether `p` begins `s`.
pub open spec fn has_prefix(s: Seq<char>, p: Seq<char>) -> bool {
    p.len() <= s.len() && s.subrange(0, p.len() as int) == p
}

fn starts_with(s: &str, p: &str) -> (r: bool)
    ensures
        r == has_prefix(s@, p@),
{
    let n = s.unicode_len();
    let m = p.unicode_len();
    if m > n {
        return false;
    }
    let head = s.substring_char(0, m);
    String::from_str(head) == String::from_str(p)
}

fn text_eq(a: &str, b: &str) -> (r: bool)
    ensures
        r == (a@ == b@),
{
    String::from_str(a) == String::from_str(b)
}

/// The UUID whose hyphenated lower-case text `t` is, if any.
fn uuid_exact(t: &str) -> (r: Option<u128>)
    ensures
        match r {
            Some(v) => uuid_text(v) == t@,
            None => forall|v: u128| #[trigger] uuid_text(v) != t@,
        },
{
    match parse_uuid(t) {
        Some(v) => {
            let back = uuid_string(v);
            if back == String::from_str(t) {
                Some(v)
            } else {
                None
            }
        },
        None => None,
    }
}

/// The integer whose decimal text `t` is, if any.
fn decimal_exact(t: &str) -> (r: Option<i64>)
    ensures
        match r {
            Some(m) => decimal_int(m as int) == t@,
            None => forall|m: i64| #[trigger] decimal_int(m as int) != t@,
        },
{
    let parsed = parse_i64(t);
    let res = match parsed {
        Some(m) => {
            let back = decimal_string(m);
            if back == String::from_str(t) {
                Some(m)
            } else {
                None
            }
        },
        None => None,
    };
    proof {
        if res is None {
            assert forall|m: i64| #[trigger] decimal_int(m as int) != t@ by {
                lemma_decimal_roundtrip(m);
                if decimal_int(m as int) == t@ {
                    assert(parse_i64_spec(t@) == Some(m));
                }
            }
        }
    }
    res
}

/// Decimal texts end with a digit.
proof fn lemma_decimal_ends_with_digit(m: i64)
    ensures
        decimal_int(m as int).len() > 0,
        '0' <= decimal_int(m as int).last() <= '9',
{
    crate::common::parse::lemma_decimal_nat_reads_back(if m < 0 { (-(m as int)) as nat } else { m as nat });
    let d = if m < 0 { (-(m as int)) as nat } else { m as nat };
    let t = decimal_int(m as int);
    assert(crate::common::parse::is_digit(crate::text::decimal_nat(d)[crate::text::decimal_nat(d).len() - 1]));
    if m < 0 {
        assert(t.last() == crate::text::decimal_nat(d).last());
    }
}

/// Every stream text begins with the text that tells its kind.
proof fn lemma_stream_text_kinds(s: StreamName)
    ensures
        s is Channel ==> has_prefix(stream_name_text(s), "channel:"@),
        s is User ==> has_prefix(stream_name_text(s), "user:"@),
        s is Spectator ==> has_prefix(stream_name_text(s), "spectator:"@),
        s is Multiplayer ==> has_prefix(stream_name_text(s), "multiplayer:"@),
        s is Multiplaying ==> has_prefix(stream_name_text(s), "multiplayer:"@),
{
    match s {
        StreamName::Channel(c) => {
            assert(("channel:"@ + channel_name_text(c)).subrange(0, "channel:"@.len() as int) =~= "channel:"@);
        },
        StreamName::User(id) => {
            assert(("user:"@ + uuid_text(id)).subrange(0, "user:"@.len() as int) =~= "user:"@);
        },
        StreamName::Spectator(id) => {
            assert(("spectator:"@ + uuid_text(id)).subrange(0, "spectator:"@.len() as int) =~= "spectator:"@);
        },
        StreamName::Multiplayer(m) => {
            assert(("multiplayer:"@ + decimal_int(m as int)).subrange(0, "multiplayer:"@.len() as int) =~= "multiplayer:"@);
        },
        StreamName::Multiplaying(m) => {
            let t = "multiplayer:"@ + decimal_int(m as int) + ":playing"@;
            assert(t.subrange(0, "multiplayer:"@.len() as int) =~= "multiplayer:"@);
        },
        _ => {},
    }
}

/// The stream whose text `rest` is, if any. A text after `channel:` names a
/// chat channel of that name (the spectator and match channels render the
/// same text as a chat channel named like them).
fn stream_name_from_text<'a>(rest: &'a str) -> (res: Option<StreamName<'a>>)
    ensures
        match res {
            Some(s) => stream_name_text(s) == rest@,
            None => forall|s: StreamName<'a>| #[trigger] stream_name_text(s) != rest@,
        },
{
    proof {
        reveal_strlit("main");
        reveal_strlit("lobby");
        reveal_strlit("donator");
        reveal_strlit("staff");
        reveal_strlit("dev");
        reveal_strlit("channel:");
        reveal_strlit("user:");
        reveal_strlit("spectator:");
        reveal_strlit("multiplayer:");
        reveal_strlit(":playing");
    }
    if text_eq(rest, "main") {
        return Some(StreamName::Main);
    }
    if text_eq(rest, "lobby") {
        return Some(StreamName::Lobby);
    }
    if text_eq(rest, "donator") {
        return Some(StreamName::Donator);
    }
    if text_eq(rest, "staff") {
        return Some(StreamName::Staff);
    }
    if text_eq(rest, "dev") {
        return Some(StreamName::Dev);
    }
    let n = rest.unicode_len();
    let on_channel = starts_with(rest, "channel:");
    let on_user = starts_with(rest, "user:");
    let on_spectator = starts_with(rest, "spectator:");
    let on_multiplayer = starts_with(rest, "multiplayer:");
    let res = if on_channel {
        let name = rest.substring_char(8, n);
        assert(rest@ =~= "channel:"@ + name@);
        Some(StreamName::Channel(ChannelName::Chat(name)))
    } else if on_user {
        let t = rest.substring_char(5, n);
        assert(rest@ =~= "user:"@ + t@);
        match uuid_exact(t) {
            Some(id) => Some(StreamName::User(id)),
            None => None,
        }
    } else if on_spectator {
        let t = rest.substring_char(10, n);
        assert(rest@ =~= "spectator:"@ + t@);
        match uuid_exact(t) {
            Some(id) => Some(StreamName::Spectator(id)),
            None => None,
        }
    } else if on_multiplayer {
        let t = rest.substring_char(12, n);
        assert(rest@ =~= "multiplayer:"@ + t@);
        let tn = n - 12;
        let playing = tn >= 8 && text_eq(t.substring_char(tn - 8, tn), ":playing");
        if playing {
            let u = t.substring_char(0, tn - 8);
            assert(t@ =~= u@ + ":playing"@);
            match decimal_exact(u) {
                Some(m) => Some(StreamName::Multiplaying(m)),
                None => None,
            }
        } else {
            match decimal_exact(t) {
                Some(m) => Some(StreamName::Multiplayer(m)),
                None => None,
            }
        }
    } else {
        None
    };
    proof {
        if res is None {
            assert forall|s: StreamName<'a>| #[trigger] stream_name_text(s) != rest@ by {
                lemma_stream_text_kinds(s);
                if stream_name_text(s) == rest@ {
                    match s {
                        StreamName::Channel(c) => {},
                        StreamName::User(id) => {
                            assert(!on_channel);
                            assert(rest@.subrange(5, rest@.len() as int) =~= uuid_text(id));
                        },
                        StreamName::Spectator(id) => {
                            assert(rest@[0] == 's' && rest@[1] == 'p');
                            assert(rest@.subrange(10, rest@.len() as int) =~= uuid_text(id));
                        },
                        StreamName::Multiplayer(m) => {
                            assert(rest@[0] == 'm');
                            let d = decimal_int(m as int);
                            assert(rest@.subrange(12, rest@.len() as int) =~= d);
                            lemma_decimal_ends_with_digit(m);
                        },
                        StreamName::Multiplaying(m) => {
                            assert(rest@[0] == 'm');
                            let d = decimal_int(m as int);
                            assert(rest@.subrange(12, rest@.len() as int) =~= d + ":playing"@);
                            let tt = d + ":playing"@;
                            assert(tt.subrange(tt.len() - 8, tt.len() as int) =~= ":playing"@);
                            assert(tt.subrange(0, tt.len() - 8) =~= d);
                        },
                        _ => {},
                    }
                }
            }
        }
    }
    res
}

/// The stream a redis key belongs to: the inverse of `make_key`. `None`
/// exactly for keys that `make_key` gives for no stream.
pub fn stream_name_from_key<'a>(key: &'a str) -> (res: Option<StreamName<'a>>)
    ensures
        match res {
            Some(s) => stream_key(s) == key@,
            None => forall|s: StreamName<'a>| #[trigger] stream_key(s) != key@,
        },
{
    proof {
        reveal_strlit("akatsuki:bancho:streams:");
    }
    let prefix = "akatsuki:bancho:streams:";
    if !starts_with(key, prefix) {
        proof {
            assert forall|s: StreamName<'a>| #[trigger] stream_key(s) != key@ by {
                assert(stream_key(s).subrange(0, prefix@.len() as int) =~= prefix@);
            }
        }
        return None;
    }
    let rest = key.substring_char(24, key.unicode_len());
    assert(key@ =~= prefix@ + rest@);
    let res = stream_name_from_text(rest);
    proof {
        if res is None {
            assert forall|s: StreamName<'a>| #[trigger] stream_key(s) != key@ by {
                if stream_key(s) == key@ {
                    assert(key@.subrange(24, key@.len() as int) =~= stream_name_text(s));
                    assert(key@.subrange(24, key@.len() as int) =~= rest@);
                    assert(stream_name_text(s) == rest@);
                }
            }
        }
    }
    res
}

/// The pattern that matches the keys of all streams.
pub const ALL_KEY: &'static str = "akatsuki:bancho:streams:*";

/// The redis key of a stream.
pub fn make_key(stream_name: StreamName) -> (key: String)
    ensures
        key@ == "akatsuki:bancho:streams:"@ + stream_name_text(stream_name),
{
    let mut key = String::from_str("akatsuki:bancho:streams:");
    let t = stream_name.to_string();
    key.append(t.as_str());
    key
}

/// The redis key of a session's stream read offsets.
pub fn make_offsets_key(session_id: u128) -> (key: String)
    ensures
        key@ == "akatsuki:bancho:sessions:"@ + uuid_text(session_id) + ":stream_offsets"@,
{
    let mut key = String::from_str("akatsuki:bancho:sessions:");
    let t = uuid_string(session_id);
    key.append(t.as_str());
    key.append(":stream_offsets");
    key
}

} // verus!
