//! Beatmap download links and ranked status changes.
use crate::text::{decimal_int, push_decimal_i64};
use vstd::prelude::*;

verus! {

/// The mirror name and beatmap set URL of each download mirror, in order.
pub open spec fn mirror(i: int) -> (Seq<char>, Seq<char>) {
    if i == 0 {
        ("osu! (official servers)"@, "https://osu.ppy.sh/beatmapsets"@)
    } else if i == 1 {
        ("osu.direct (Chimu)"@, "https://osu.direct/beatmapsets"@)
    } else {
        ("Akatsuki (direct download)"@, "https://beatmaps.akatsuki.gg/api/d"@)
    }
}

/// The chat link to a beatmap set on one mirror.
pub open spec fn mirror_link(i: int, beatmap_set_id: i32, song_name: Seq<char>) -> Seq<char> {
    mirror(i).0 + ": ["@ + mirror(i).1 + "/"@ + decimal_int(beatmap_set_id as int) + " "@ + song_name + "]"@
}

fn mirror_link_text(name: &str, url: &str, beatmap_set_id: i32, song_name: &str) -> (s: String)
    ensures
        s@ == name@ + ": ["@ + url@ + "/"@ + decimal_int(beatmap_set_id as int) + " "@ + song_name@ + "]"@,
{
    let mut s = String::from_str(name);
    s.append(": [");
    s.append(url);
    s.append("/");
    push_decimal_i64(&mut s, beatmap_set_id as i64);
    s.append(" ");
    s.append(song_name);
    s.append("]");
    s
}

/// Chat links to a beatmap set on each of the three download mirrors.
pub fn generate_mirror_links(beatmap_set_id: i32, song_name: &str) -> (links: Vec<String>)
    ensures
        links@.len() == 3,
        forall|i: int| 0 <= i < 3 ==> #[trigger] links@[i]@ == mirror_link(i, beatmap_set_id, song_name@),
{
    let mut links: Vec<String> = Vec::new();
    links.push(mirror_link_text("osu! (official servers)", "https://osu.ppy.sh/beatmapsets", beatmap_set_id, song_name));
    links.push(mirror_link_text("osu.direct (Chimu)", "https://osu.direct/beatmapsets", beatmap_set_id, song_name));
    links.push(mirror_link_text("Akatsuki (direct download)", "https://beatmaps.akatsuki.gg/api/d", beatmap_set_id, song_name));
    links
}

/// The message published on `cache:map_update` when a map's status changes:
/// `"{md5},{status}"`.
pub fn map_update_message(map_md5: &str, new_status: i8) -> (msg: String)
    ensures
        msg@ == map_md5@ + ","@ + decimal_int(new_status as int),
{
    let mut msg = String::from_str(map_md5);
    msg.append(",");
    push_decimal_i64(&mut msg, new_status as i64);
    msg
}

/// Whether changing one map's status writes anything: only when the status
/// differs from the current one.
pub fn map_status_changes(current: i8, new_status: i8) -> (b: bool)
    ensures
        b == (current != new_status),
{
    current != new_status
}

/// The positions of the maps of a set whose status differs from the new one:
/// those get a map update published.
pub fn maps_to_publish(current: &Vec<i8>, new_status: i8) -> (idx: Vec<usize>)
    ensures
        forall|k: int| 0 <= k < idx@.len() ==> idx@[k] < current@.len() && current@[idx@[k] as int] != new_status,
        forall|k: int, l: int| 0 <= k < l < idx@.len() ==> idx@[k] < idx@[l],
        forall|j: int| 0 <= j < current@.len() && current@[j] != new_status ==> idx@.contains(j as usize),
{
    let mut idx: Vec<usize> = Vec::new();
    let mut i: usize = 0;
    while i < current.len()
        invariant
            i <= current@.len(),
            forall|k: int| 0 <= k < idx@.len() ==> idx@[k] < i && current@[idx@[k] as int] != new_status,
            forall|k: int, l: int| 0 <= k < l < idx@.len() ==> idx@[k] < idx@[l],
            forall|j: int| 0 <= j < i && current@[j] != new_status ==> idx@.contains(j as usize),
        decreases current@.len() - i,
    {
        let ghost before = idx@;
        if current[i] != new_status {
            idx.push(i);
            assert(idx@[idx@.len() - 1] == i);
        }
        assert forall|j: int| 0 <= j < i + 1 && current@[j] != new_status implies idx@.contains(j as usize) by {
            if j < i {
                let k = choose|k: int| 0 <= k < before.len() && before[k] == j as usize;
                assert(idx@[k] == j as usize);
            } else {
                assert(idx@[idx@.len() - 1] == j as usize);
            }
        }
        i = i + 1;
    }
    idx
}

} // verus!
