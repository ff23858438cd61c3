//! Stream delivery bookkeeping: the read offsets a session keeps per stream,
//! and which of the messages read a session receives.
use crate::models::privileges::{has_all, has_all_privileges};
use vstd::prelude::*;

verus! {

/// A session's read offsets: for each stream key, the ID of the last message
/// read. The map lives in a `hashbrown::HashMap`.
#[verifier::external_body]
pub struct StreamOffsets {
    map: hashbrown::HashMap<String, String>,
}

/// The offsets held: stream key to last read message ID.
pub uninterp spec fn offsets_contents(offsets: StreamOffsets) -> Map<Seq<char>, Seq<char>>;

/// No offsets at all.
pub open spec fn empty_offsets() -> Map<Seq<char>, Seq<char>> {
    Map::empty()
}

impl StreamOffsets {
    /// No offsets (`hashbrown::HashMap::new`).
    #[verifier::external_body]
    fn new_map() -> (fresh: StreamOffsets)
        ensures
            offsets_contents(fresh) == empty_offsets(),
    {
        StreamOffsets { map: hashbrown::HashMap::new() }
    }

    /// Sets the offset of a stream, replacing any earlier one
    /// (`hashbrown::HashMap::insert`).
    #[verifier::external_body]
    fn insert_offset(&mut self, stream_key: String, message_id: String)
        ensures
            offsets_contents(*final(self)) == offsets_contents(*old(self)).insert(stream_key@, message_id@),
    {
        self.map.insert(stream_key, message_id);
    }

    /// Forgets the offset of a stream (`hashbrown::HashMap::remove`).
    #[verifier::external_body]
    fn remove_offset(&mut self, stream_key: &str)
        ensures
            offsets_contents(*final(self)) == offsets_contents(*old(self)).remove(stream_key@),
    {
        self.map.remove(stream_key);
    }

    /// Every offset once, in the map's iteration order
    /// (`hashbrown::HashMap::iter`, each pair cloned).
    #[verifier::external_body]
    fn pairs(&self) -> (pairs: Vec<(String, String)>)
        ensures
            pairs@.len() == offsets_contents(*self).dom().len(),
            forall|i: int| 0 <= i < pairs@.len() ==> offsets_contents(*self).contains_key(#[trigger] pairs@[i].0@)
                && offsets_contents(*self)[pairs@[i].0@] == pairs@[i].1@,
            forall|i: int, j: int| 0 <= i < j < pairs@.len() ==> #[trigger] pairs@[i].0@ != #[trigger] pairs@[j].0@,
    {
        self.map.iter().map(|(k, v)| (k.clone(), v.clone())).collect()
    }
}

/// The offsets after loading the given pairs in order (a later pair for the
/// same stream replaces an earlier one).
pub open spec fn loaded_offsets(pairs: Seq<(String, String)>) -> Map<Seq<char>, Seq<char>>
    decreases pairs.len(),
{
    if pairs.len() == 0 {
        empty_offsets()
    } else {
        loaded_offsets(pairs.drop_last()).insert(pairs.last().0@, pairs.last().1@)
    }
}

/// Builds a session's offsets from the pairs stored in redis.
pub fn load_offsets(pairs: &Vec<(String, String)>) -> (offsets: StreamOffsets)
    ensures
        offsets_contents(offsets) == loaded_offsets(pairs@),
{
    let mut offsets = StreamOffsets::new_map();
    let mut i: usize = 0;
    while i < pairs.len()
        invariant
            i <= pairs@.len(),
            offsets_contents(offsets) == loaded_offsets(pairs@.take(i as int)),
        decreases pairs@.len() - i,
    {
        assert(pairs@.take(i + 1).drop_last() == pairs@.take(i as int));
        let k = pairs[i].0.clone();
        let v = pairs[i].1.clone();
        offsets.insert_offset(k, v);
        i = i + 1;
    }
    assert(pairs@.take(pairs@.len() as int) == pairs@);
    offsets
}

/// The offsets as `(stream key, message ID)` pairs, each stream once, in no
/// particular order.
pub fn offset_pairs(offsets: &StreamOffsets) -> (pairs: Vec<(String, String)>)
    ensures
        pairs@.len() == offsets_contents(*offsets).dom().len(),
        forall|i: int| 0 <= i < pairs@.len() ==> offsets_contents(*offsets).contains_key(#[trigger] pairs@[i].0@)
            && offsets_contents(*offsets)[pairs@[i].0@] == pairs@[i].1@,
        forall|i: int, j: int| 0 <= i < j < pairs@.len() ==> #[trigger] pairs@[i].0@ != #[trigger] pairs@[j].0@,
{
    offsets.pairs()
}

/// One stream of a read reply: its key and the IDs of the messages read, in order.
#[derive(Debug, Clone)]
pub struct StreamReadIds {
    pub stream_name: String,
    pub message_ids: Vec<String>,
}

/// The offsets after a read: a stream that delivered messages moves to its
/// last message; a stream that delivered none is forgotten.
pub open spec fn offsets_after_read(offsets: Map<Seq<char>, Seq<char>>, streams: Seq<StreamReadIds>) -> Map<Seq<char>, Seq<char>>
    decreases streams.len(),
{
    if streams.len() == 0 {
        offsets
    } else {
        let prev = offsets_after_read(offsets, streams.drop_last());
        let s = streams.last();
        if s.message_ids@.len() > 0 {
            prev.insert(s.stream_name@, s.message_ids@.last()@)
        } else {
            prev.remove(s.stream_name@)
        }
    }
}

/// Moves the offsets past the messages of a read reply.
pub fn advance_offsets(offsets: &mut StreamOffsets, streams: &Vec<StreamReadIds>)
    ensures
        offsets_contents(*final(offsets)) == offsets_after_read(offsets_contents(*old(offsets)), streams@),
{
    let ghost start = offsets_contents(*offsets);
    let mut i: usize = 0;
    while i < streams.len()
        invariant
            i <= streams@.len(),
            offsets_contents(*offsets) == offsets_after_read(start, streams@.take(i as int)),
        decreases streams@.len() - i,
    {
        assert(streams@.take(i + 1).drop_last() == streams@.take(i as int));
        let s = &streams[i];
        let n = s.message_ids.len();
        if n > 0 {
            let id = s.message_ids[n - 1].clone();
            let name = s.stream_name.clone();
            offsets.insert_offset(name, id);
        } else {
            offsets.remove_offset(s.stream_name.as_str());
        }
        i = i + 1;
    }
    assert(streams@.take(streams@.len() as int) == streams@);
}

/// A stream key absent from a read reply keeps its offset.
pub proof fn lemma_read_keeps_other_offsets(offsets: Map<Seq<char>, Seq<char>>, streams: Seq<StreamReadIds>, k: Seq<char>)
    requires
        forall|i: int| 0 <= i < streams.len() ==> streams[i].stream_name@ != k,
    ensures
        offsets_after_read(offsets, streams).contains_key(k) == offsets.contains_key(k),
        offsets.contains_key(k) ==> offsets_after_read(offsets, streams)[k] == offsets[k],
    decreases streams.len(),
{
    if streams.len() > 0 {
        let init = streams.drop_last();
        assert(forall|i: int| 0 <= i < init.len() ==> init[i] == streams[i]);
        lemma_read_keeps_other_offsets(offsets, init, k);
        assert(streams[streams.len() - 1].stream_name@ != k);
    }
}

/// A stream that delivered messages, and is the only stream of its key in the
/// read reply, ends at its last message.
pub proof fn lemma_read_moves_offset_to_last_message(offsets: Map<Seq<char>, Seq<char>>, streams: Seq<StreamReadIds>, i: int)
    requires
        0 <= i < streams.len(),
        streams[i].message_ids@.len() > 0,
        forall|j: int| 0 <= j < streams.len() && j != i ==> streams[j].stream_name@ != streams[i].stream_name@,
    ensures
        offsets_after_read(offsets, streams).contains_key(streams[i].stream_name@),
        offsets_after_read(offsets, streams)[streams[i].stream_name@] == streams[i].message_ids@.last()@,
    decreases streams.len(),
{
    let k = streams[i].stream_name@;
    let init = streams.drop_last();
    assert(forall|j: int| 0 <= j < init.len() ==> init[j] == streams[j]);
    if i < streams.len() - 1 {
        lemma_read_moves_offset_to_last_message(offsets, init, i);
        assert(streams[streams.len() - 1].stream_name@ != k);
    } else {
        lemma_read_keeps_other_offsets(offsets, init, k);
    }
}

/// Who may read a message.
#[derive(Debug, Clone)]
pub struct MessageInfo {
    /// Sessions that do not receive the message.
    pub excluded_session_ids: Option<Vec<u128>>,
    /// Privileges a session needs, all of them, to receive the message.
    pub read_privileges: Option<i32>,
}

/// A message read from a stream.
#[derive(Debug, Clone)]
pub struct StreamReadMessage {
    pub message_id: String,
    pub data: Vec<u8>,
    pub info: MessageInfo,
}

/// Whether the session receives the message.
pub open spec fn receives(msg: StreamReadMessage, session_id: u128, privileges: i32) -> bool {
    let excluded = match msg.info.excluded_session_ids {
        Some(ids) => ids@.contains(session_id),
        None => false,
    };
    let can_read = match msg.info.read_privileges {
        Some(required) => has_all(privileges, required),
        None => true,
    };
    can_read && !excluded
}

/// The bytes a session receives from the messages, in order.
pub open spec fn pending_bytes(msgs: Seq<StreamReadMessage>, session_id: u128, privileges: i32) -> Seq<u8>
    decreases msgs.len(),
{
    if msgs.len() == 0 {
        Seq::empty()
    } else {
        let prev = pending_bytes(msgs.drop_last(), session_id, privileges);
        if receives(msgs.last(), session_id, privileges) {
            prev + msgs.last().data@
        } else {
            prev
        }
    }
}

fn is_excluded(ids: &Vec<u128>, session_id: u128) -> (b: bool)
    ensures
        b == ids@.contains(session_id),
{
    let mut i: usize = 0;
    while i < ids.len()
        invariant
            i <= ids@.len(),
            forall|j: int| 0 <= j < i ==> ids@[j] != session_id,
        decreases ids@.len() - i,
    {
        if ids[i] == session_id {
            assert(ids@[i as int] == session_id);
            return true;
        }
        i = i + 1;
    }
    false
}

/// Concatenates the data of the messages the session may receive: those that
/// do not exclude it and whose required privileges it all has.
pub fn pending_data(messages: &Vec<StreamReadMessage>, session_id: u128, privileges: i32) -> (data: Vec<u8>)
    ensures
        data@ == pending_bytes(messages@, session_id, privileges),
{
    let mut data: Vec<u8> = Vec::new();
    let mut i: usize = 0;
    while i < messages.len()
        invariant
            i <= messages@.len(),
            data@ == pending_bytes(messages@.take(i as int), session_id, privileges),
        decreases messages@.len() - i,
    {
        assert(messages@.take(i + 1).drop_last() == messages@.take(i as int));
        let msg = &messages[i];
        let excluded = match &msg.info.excluded_session_ids {
            Some(ids) => is_excluded(ids, session_id),
            None => false,
        };
        let can_read = match msg.info.read_privileges {
            Some(required) => has_all_privileges(privileges, required),
            None => true,
        };
        if can_read && !excluded {
            let mut j: usize = 0;
            let ghost before = data@;
            while j < msg.data.len()
                invariant
                    j <= msg.data@.len(),
                    data@ == before + msg.data@.take(j as int),
                decreases msg.data@.len() - j,
            {
                data.push(msg.data[j]);
                assert(msg.data@.take(j + 1) == msg.data@.take(j as int).push(msg.data@[j as int]));
                j = j + 1;
            }
            assert(msg.data@.take(msg.data@.len() as int) == msg.data@);
        }
        i = i + 1;
    }
    assert(messages@.take(messages@.len() as int) == messages@);
    data
}

} // verus!
