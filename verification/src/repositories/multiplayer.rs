//! The redis layout of multiplayer matches and the slot bookkeeping that the
//! match repository performs around its reads and writes.
use crate::common::redis_json::Json;
use crate::entities::multiplayer::{MULTIPLAYER_MAX_SIZE, MultiplayerMatch, MultiplayerMatchSlot, SLOT_EMPTY, SLOT_LOCKED, prepared_slot, vacant_slot};
use crate::entities::sessions::SessionIdentity;
use crate::common::parse::lemma_decimal_injective;
use crate::text::{decimal_int, push_decimal_i64};
use vstd::prelude::*;

verus! {

/// Number of match IDs of the osu! wire protocol (all `u16` values).
pub const WIRE_ID_CAPACITY: u32 = 65536;

/// Which countdown of a match a timer key belongs to.
#[derive(Debug, Clone, Copy, PartialEq, Eq, Hash, Structural)]
pub enum TimerType {
    Regular,
    MatchStart,
}

/// The redis key of a match's referee set.
pub fn make_referees_key(match_id: i64) -> (key: String)
    ensures
        key@ == "akatsuki:bancho:multiplayer:referees:"@ + decimal_int(match_id as int),
{
    let mut key = String::from_str("akatsuki:bancho:multiplayer:referees:");
    push_decimal_i64(&mut key, match_id);
    key
}

/// The redis key of a match's slot hash.
pub fn make_slots_key(match_id: i64) -> (key: String)
    ensures
        key@ == "akatsuki:bancho:multiplayer:"@ + decimal_int(match_id as int),
{
    let mut key = String::from_str("akatsuki:bancho:multiplayer:");
    push_decimal_i64(&mut key, match_id);
    key
}

/// The text of a timer key without its match ID.
pub open spec fn timer_key_prefix(timer_type: TimerType) -> Seq<char> {
    match timer_type {
        TimerType::Regular => "akatsuki:bancho:multiplayer:timer:"@,
        TimerType::MatchStart => "akatsuki:bancho:multiplayer:start_timer:"@,
    }
}

/// The redis key of one of a match's countdowns.
pub fn make_timer_key(match_id: i64, timer_type: TimerType) -> (key: String)
    ensures
        key@ == timer_key_prefix(timer_type) + decimal_int(match_id as int),
{
    let mut key = match timer_type {
        TimerType::Regular => String::from_str("akatsuki:bancho:multiplayer:timer:"),
        TimerType::MatchStart => String::from_str("akatsuki:bancho:multiplayer:start_timer:"),
    };
    push_decimal_i64(&mut key, match_id);
    key
}

/// The `offset`-th wire ID tried when allocating from `start`: the IDs count
/// up from `start` and wrap around after 65535.
pub open spec fn wire_id_candidate(start: u16, offset: int) -> int {
    if start + offset < WIRE_ID_CAPACITY {
        start + offset
    } else {
        start + offset - WIRE_ID_CAPACITY
    }
}

/// All wire IDs in the order in which a new match tries them: from `start`
/// upwards, wrapping around, each of the 65536 IDs once.
pub fn wire_id_candidates(start: u16) -> (candidates: Vec<u16>)
    ensures
        candidates@.len() == WIRE_ID_CAPACITY,
        forall|i: int|
            0 <= i < WIRE_ID_CAPACITY ==> candidates@[i] == wire_id_candidate(start, i),
{
    let mut candidates: Vec<u16> = Vec::new();
    let mut offset: u32 = 0;
    while offset < WIRE_ID_CAPACITY
        invariant
            offset <= WIRE_ID_CAPACITY,
            candidates@.len() == offset,
            forall|i: int| 0 <= i < offset ==> candidates@[i] == wire_id_candidate(start, i),
        decreases WIRE_ID_CAPACITY - offset,
    {
        let sum: u32 = start as u32 + offset;
        let id: u16 = if sum < WIRE_ID_CAPACITY {
            sum as u16
        } else {
            (sum - WIRE_ID_CAPACITY) as u16
        };
        candidates.push(id);
        offset = offset + 1;
    }
    candidates
}

/// The position of wire ID `w` among the candidates of `start`.
pub open spec fn wire_id_offset(start: u16, w: u16) -> int {
    if w >= start {
        w - start
    } else {
        w + WIRE_ID_CAPACITY - start
    }
}

/// Every wire ID occurs exactly once among the candidates of any start (at
/// `wire_id_offset`), and the start itself comes first.
pub proof fn lemma_wire_id_candidates_cover_each_id_once(start: u16)
    ensures
        wire_id_candidate(start, 0) == start,
        forall|i: int, j: int|
            #![trigger wire_id_candidate(start, i), wire_id_candidate(start, j)]
            0 <= i < WIRE_ID_CAPACITY && 0 <= j < WIRE_ID_CAPACITY && i != j
                ==> wire_id_candidate(start, i) != wire_id_candidate(start, j),
        forall|w: u16|
            0 <= #[trigger] wire_id_offset(start, w) < WIRE_ID_CAPACITY
                && wire_id_candidate(start, wire_id_offset(start, w)) == w,
        forall|i: int|
            0 <= i < WIRE_ID_CAPACITY ==> 0 <= #[trigger] wire_id_candidate(start, i) < WIRE_ID_CAPACITY,
{
}

/// The slots of a newly created match: the host in slot 0, the slots from
/// `max_player_count` on locked, the others empty.
pub open spec fn new_match_slot(host: SessionIdentity, max_player_count: int, slot_id: int) -> MultiplayerMatchSlot {
    if slot_id == 0 {
        prepared_slot(host)
    } else if slot_id >= max_player_count {
        vacant_slot(SLOT_LOCKED)
    } else {
        vacant_slot(SLOT_EMPTY)
    }
}

/// Builds the slots of a match that `host` creates with room for
/// `max_player_count` players.
pub fn new_match_slots(host: SessionIdentity, max_player_count: usize) -> (slots: Vec<MultiplayerMatchSlot>)
    ensures
        slots@.len() == MULTIPLAYER_MAX_SIZE,
        forall|i: int|
            0 <= i < MULTIPLAYER_MAX_SIZE ==> slots@[i] == new_match_slot(host, max_player_count as int, i),
{
    let mut slots: Vec<MultiplayerMatchSlot> = Vec::new();
    let mut slot_id: usize = 0;
    while slot_id < MULTIPLAYER_MAX_SIZE
        invariant
            slot_id <= MULTIPLAYER_MAX_SIZE,
            slots@.len() == slot_id,
            forall|i: int| 0 <= i < slot_id ==> slots@[i] == new_match_slot(host, max_player_count as int, i),
        decreases MULTIPLAYER_MAX_SIZE - slot_id,
    {
        let mut slot = MultiplayerMatchSlot::vacant(SLOT_EMPTY);
        if slot_id == 0 {
            slot.prepare(host);
        } else if slot_id >= max_player_count {
            slot.status = SLOT_LOCKED;
        }
        slots.push(slot);
        slot_id = slot_id + 1;
    }
    slots
}

/// The match that `host` creates, before storage gives it an ID and a wire ID.
pub fn new_match(
    host: SessionIdentity,
    name: String,
    password: String,
    beatmap_name: String,
    beatmap_md5: String,
    beatmap_id: i32,
    mode: u8,
) -> (m: MultiplayerMatch)
    ensures
        m.match_id == 0,
        m.wire_id.is_none(),
        m.name@ == name@,
        m.password@ == password@,
        m.host_user_id == host.user_id,
        m.beatmap_name@ == beatmap_name@,
        m.beatmap_md5@ == beatmap_md5@,
        m.beatmap_id == beatmap_id,
        m.mode == mode,
        m.mods == 0,
        !m.freemod_enabled,
        !m.in_progress,
        m.win_condition == 0,
        m.team_type == 0,
        m.random_seed == 0,
        m.last_game_id.is_none(),
{
    MultiplayerMatch {
        match_id: 0,
        wire_id: None,
        name,
        password,
        host_user_id: host.user_id,
        beatmap_name,
        beatmap_md5,
        beatmap_id,
        mode,
        mods: 0,
        freemod_enabled: false,
        in_progress: false,
        win_condition: 0,
        team_type: 0,
        random_seed: 0,
        last_game_id: None,
    }
}

/// A match is listed as private exactly when it has a password.
pub fn is_private_match(password: &str) -> (private: bool)
    ensures
        private == (password@.len() > 0),
{
    password.unicode_len() > 0
}

/// Where the search for a free wire ID stands while a match is created.
#[derive(Debug, Clone, Copy, PartialEq, Eq, Structural)]
pub enum MatchCreationStep {
    /// Run the creation script with the candidate at this position.
    Attempt { attempt: usize, wire_id: u16 },
    /// The script took this wire ID: the match exists.
    Created { wire_id: u16 },
    /// Every candidate was taken.
    Exhausted,
}

/// The first step of the search: the first candidate, if there is one.
pub fn first_creation_step(candidates: &Vec<u16>) -> (step: MatchCreationStep)
    ensures
        candidates@.len() == 0 ==> step == MatchCreationStep::Exhausted,
        candidates@.len() > 0 ==> step == (MatchCreationStep::Attempt { attempt: 0, wire_id: candidates@[0] }),
{
    if candidates.len() == 0 {
        MatchCreationStep::Exhausted
    } else {
        MatchCreationStep::Attempt { attempt: 0, wire_id: candidates[0] }
    }
}

/// The step after the creation script answered `created` for the candidate
/// at position `attempt`: done when it answered 1, else the next candidate in
/// order, or exhaustion after the last one.
pub fn next_creation_step(candidates: &Vec<u16>, attempt: usize, created: i32) -> (step: MatchCreationStep)
    requires
        attempt < candidates@.len(),
    ensures
        created == 1 ==> step == (MatchCreationStep::Created { wire_id: candidates@[attempt as int] }),
        created != 1 && attempt + 1 < candidates@.len() ==> step == (MatchCreationStep::Attempt {
            attempt: (attempt + 1) as usize,
            wire_id: candidates@[attempt + 1],
        }),
        created != 1 && attempt + 1 >= candidates@.len() ==> step == MatchCreationStep::Exhausted,
{
    if created == 1 {
        MatchCreationStep::Created { wire_id: candidates[attempt] }
    } else if attempt < candidates.len() - 1 {
        MatchCreationStep::Attempt { attempt: attempt + 1, wire_id: candidates[attempt + 1] }
    } else {
        MatchCreationStep::Exhausted
    }
}

/// Index of the first slot whose status is exactly "empty", if any.
pub open spec fn is_first_empty_slot(slots: Seq<MultiplayerMatchSlot>, i: int) -> bool {
    &&& 0 <= i < slots.len()
    &&& slots[i].status == SLOT_EMPTY
    &&& forall|j: int| 0 <= j < i ==> slots[j].status != SLOT_EMPTY
}

/// Places `identity` into the first empty slot. `None` when no slot is empty.
pub fn join_slots(slots: &Vec<MultiplayerMatchSlot>, identity: SessionIdentity) -> (res: Option<(usize, Vec<MultiplayerMatchSlot>)>)
    ensures
        match res {
            Some((slot_id, new_slots)) => is_first_empty_slot(slots@, slot_id as int)
                && new_slots@ == slots@.update(slot_id as int, prepared_slot(identity)),
            None => forall|j: int| 0 <= j < slots@.len() ==> slots@[j].status != SLOT_EMPTY,
        },
{
    let mut i: usize = 0;
    while i < slots.len()
        invariant
            i <= slots@.len(),
            forall|j: int| 0 <= j < i ==> slots@[j].status != SLOT_EMPTY,
        decreases slots@.len() - i,
    {
        if slots[i].status == SLOT_EMPTY {
            let mut new_slots = slots.clone();
            let mut slot = slots[i];
            slot.prepare(identity);
            new_slots.set(i, slot);
            return Some((i, new_slots));
        }
        i = i + 1;
    }
    None
}

/// Number of slots with a user in them.
pub open spec fn occupied_count(slots: Seq<MultiplayerMatchSlot>) -> nat
    decreases slots.len(),
{
    if slots.len() == 0 {
        0
    } else {
        occupied_count(slots.drop_last()) + if slots.last().user is Some { 1nat } else { 0nat }
    }
}

/// Counts the slots with a user in them.
pub fn count_occupied(slots: &Vec<MultiplayerMatchSlot>) -> (count: usize)
    ensures
        count == occupied_count(slots@),
{
    let mut count: usize = 0;
    let mut i: usize = 0;
    while i < slots.len()
        invariant
            i <= slots@.len(),
            count == occupied_count(slots@.take(i as int)),
            count <= i,
        decreases slots@.len() - i,
    {
        assert(slots@.take(i + 1).drop_last() == slots@.take(i as int));
        if slots[i].user.is_some() {
            count = count + 1;
        }
        i = i + 1;
    }
    assert(slots@.take(slots@.len() as int) == slots@);
    count
}

/// Whether slot `i` holds the session `session_id`.
pub open spec fn slot_has_session(slots: Seq<MultiplayerMatchSlot>, i: int, session_id: u128) -> bool {
    slots[i].user matches Some(u) && u.session_id == session_id
}

/// Index of the first slot that holds the session.
pub open spec fn is_first_session_slot(slots: Seq<MultiplayerMatchSlot>, i: int, session_id: u128) -> bool {
    &&& 0 <= i < slots.len()
    &&& slot_has_session(slots, i, session_id)
    &&& forall|j: int| 0 <= j < i ==> !slot_has_session(slots, j, session_id)
}

/// What leaving a match changed: the slot that was emptied, how many users
/// remain, and the slots afterwards.
#[derive(Debug, Clone)]
pub struct LeaveOutcome {
    pub slot_id: usize,
    pub user_count: usize,
    pub slots: Vec<MultiplayerMatchSlot>,
}

/// Empties the first slot that holds the session. `None` when the session is
/// in no slot. When no user remains, the match is to be removed; otherwise
/// only the emptied slot is to be written.
pub fn leave_slots(slots: &Vec<MultiplayerMatchSlot>, session_id: u128) -> (res: Option<LeaveOutcome>)
    ensures
        match res {
            Some(out) => is_first_session_slot(slots@, out.slot_id as int, session_id)
                && out.slots@ == slots@.update(out.slot_id as int, vacant_slot(SLOT_EMPTY))
                && out.user_count == occupied_count(out.slots@),
            None => forall|j: int| 0 <= j < slots@.len() ==> !slot_has_session(slots@, j, session_id),
        },
{
    let mut i: usize = 0;
    while i < slots.len()
        invariant
            i <= slots@.len(),
            forall|j: int| 0 <= j < i ==> !slot_has_session(slots@, j, session_id),
        decreases slots@.len() - i,
    {
        let found = match slots[i].user {
            Some(u) => u.session_id == session_id,
            None => false,
        };
        if found {
            let mut new_slots = slots.clone();
            let mut slot = slots[i];
            slot.clear();
            new_slots.set(i, slot);
            let user_count = count_occupied(&new_slots);
            return Some(LeaveOutcome { slot_id: i, user_count, slots: new_slots });
        }
        i = i + 1;
    }
    None
}

/// Slots as read back from their JSON encoding, in order.
pub fn slots_from_json(json: Vec<Json<MultiplayerMatchSlot>>) -> (slots: Vec<MultiplayerMatchSlot>)
    ensures
        slots@.len() == json@.len(),
        forall|i: int| 0 <= i < json@.len() ==> slots@[i] == json@[i].0,
{
    let mut slots: Vec<MultiplayerMatchSlot> = Vec::new();
    let mut i: usize = 0;
    while i < json.len()
        invariant
            i <= json@.len(),
            slots@.len() == i,
            forall|j: int| 0 <= j < i ==> slots@[j] == json@[j].0,
        decreases json@.len() - i,
    {
        slots.push(json[i].0);
        i = i + 1;
    }
    slots
}

/// Slots from their `(slot_id, JSON)` pairs. The pairs must come ordered by
/// slot ID (0, 1, 2, ...): the IDs themselves are not read.
pub fn slots_from_json_with_index(json: Vec<(usize, Json<MultiplayerMatchSlot>)>) -> (slots: Vec<MultiplayerMatchSlot>)
    ensures
        slots@.len() == json@.len(),
        forall|i: int| 0 <= i < json@.len() ==> slots@[i] == json@[i].1.0,
{
    let mut slots: Vec<MultiplayerMatchSlot> = Vec::new();
    let mut i: usize = 0;
    while i < json.len()
        invariant
            i <= json@.len(),
            slots@.len() == i,
            forall|j: int| 0 <= j < i ==> slots@[j] == json@[j].1.0,
        decreases json@.len() - i,
    {
        slots.push(json[i].1.0);
        i = i + 1;
    }
    slots
}

/// The wire ID that deleting a match released, from the delete script's reply
/// (`-1` when the match had none).
pub fn released_wire_id(reply: i64) -> (wire_id: Option<u16>)
    ensures
        match wire_id {
            Some(w) => w == reply,
            None => reply < 0 || reply >= WIRE_ID_CAPACITY,
        },
{
    if 0 <= reply && reply < 65536 {
        Some(reply as u16)
    } else {
        None
    }
}

/// A joined user who leaves again restores the slots: the joined slot is the
/// first one holding the session, and emptying it gives back the slots from
/// before the join (when the slot was a plain empty slot and the session was
/// in no slot).
pub proof fn lemma_join_then_leave_restores(slots: Seq<MultiplayerMatchSlot>, identity: SessionIdentity, i: int)
    requires
        is_first_empty_slot(slots, i),
        slots[i] == vacant_slot(SLOT_EMPTY),
        forall|j: int| 0 <= j < slots.len() ==> !slot_has_session(slots, j, identity.session_id),
    ensures
        is_first_session_slot(slots.update(i, prepared_slot(identity)), i, identity.session_id),
        slots.update(i, prepared_slot(identity)).update(i, vacant_slot(SLOT_EMPTY)) == slots,
{
    let joined = slots.update(i, prepared_slot(identity));
    assert forall|j: int| 0 <= j < i implies !slot_has_session(joined, j, identity.session_id) by {
        assert(joined[j] == slots[j]);
        assert(!slot_has_session(slots, j, identity.session_id));
    }
    assert(joined.update(i, vacant_slot(SLOT_EMPTY)) =~= slots);
}

/// No session holds two slots of a match.
pub open spec fn sessions_distinct(slots: Seq<MultiplayerMatchSlot>) -> bool {
    forall|i: int, j: int|
        #![trigger slots[i].user, slots[j].user]
        0 <= i < j < slots.len() && slots[i].user is Some && slots[j].user is Some
            ==> slots[i].user.unwrap().session_id != slots[j].user.unwrap().session_id
}

/// Joining keeps every session in at most one slot, when the joining session
/// held none.
pub proof fn lemma_join_keeps_sessions_distinct(slots: Seq<MultiplayerMatchSlot>, identity: SessionIdentity, i: int)
    requires
        sessions_distinct(slots),
        is_first_empty_slot(slots, i),
        forall|j: int| 0 <= j < slots.len() ==> !slot_has_session(slots, j, identity.session_id),
    ensures
        sessions_distinct(slots.update(i, prepared_slot(identity))),
{
    let joined = slots.update(i, prepared_slot(identity));
    assert forall|a: int, b: int|
        0 <= a < b < joined.len() && joined[a].user is Some && joined[b].user is Some
        implies joined[a].user.unwrap().session_id != joined[b].user.unwrap().session_id by {
        if a == i {
            assert(!slot_has_session(slots, b, identity.session_id));
        } else if b == i {
            assert(!slot_has_session(slots, a, identity.session_id));
        } else {
            assert(slots[a].user == joined[a].user && slots[b].user == joined[b].user);
        }
    }
}

/// Leaving keeps every session in at most one slot, and the leaving session
/// holds no slot afterwards.
pub proof fn lemma_leave_keeps_sessions_distinct(slots: Seq<MultiplayerMatchSlot>, session_id: u128, i: int)
    requires
        sessions_distinct(slots),
        is_first_session_slot(slots, i, session_id),
    ensures
        sessions_distinct(slots.update(i, vacant_slot(SLOT_EMPTY))),
        forall|j: int|
            0 <= j < slots.len() ==> !slot_has_session(slots.update(i, vacant_slot(SLOT_EMPTY)), j, session_id),
{
    let left = slots.update(i, vacant_slot(SLOT_EMPTY));
    assert forall|a: int, b: int|
        0 <= a < b < left.len() && left[a].user is Some && left[b].user is Some
        implies left[a].user.unwrap().session_id != left[b].user.unwrap().session_id by {
        assert(slots[a].user == left[a].user && slots[b].user == left[b].user);
    }
    assert forall|j: int| 0 <= j < slots.len() implies !slot_has_session(left, j, session_id) by {
        if j != i && slot_has_session(slots, j, session_id) {
            if j < i {
                assert(!slot_has_session(slots, j, session_id));
            } else {
                assert(slots[i].user is Some && slots[j].user is Some);
            }
        }
    }
}

/// Slots that hold the same users, place by place, are equally free of
/// sessions holding two slots (status, team, mods and playing flags do not
/// matter).
pub proof fn lemma_same_users_keep_sessions_distinct(before: Seq<MultiplayerMatchSlot>, after: Seq<MultiplayerMatchSlot>)
    requires
        sessions_distinct(before),
        before.len() == after.len(),
        forall|k: int| 0 <= k < before.len() ==> #[trigger] after[k].user == before[k].user,
    ensures
        sessions_distinct(after),
{
    assert forall|a: int, b: int|
        0 <= a < b < after.len() && after[a].user is Some && after[b].user is Some
        implies after[a].user.unwrap().session_id != after[b].user.unwrap().session_id by {
        assert(after[a].user == before[a].user && after[b].user == before[b].user);
    }
}

/// Keys built from a prefix and a match ID differ for distinct match IDs.
pub proof fn lemma_match_keys_distinct(prefix: Seq<char>, a: i64, b: i64)
    ensures
        prefix + decimal_int(a as int) == prefix + decimal_int(b as int) ==> a == b,
{
    if prefix + decimal_int(a as int) == prefix + decimal_int(b as int) {
        let x = prefix + decimal_int(a as int);
        assert(x.subrange(prefix.len() as int, x.len() as int) =~= decimal_int(a as int));
        let y = prefix + decimal_int(b as int);
        assert(y.subrange(prefix.len() as int, y.len() as int) =~= decimal_int(b as int));
        lemma_decimal_injective(a, b);
    }
}

} // verus!
