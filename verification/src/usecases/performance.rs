//! The performance requests behind a default pp message.
use vstd::prelude::*;

verus! {

/// The accuracies, in percent, of the default pp table.
pub const DEFAULT_ACCURACY_VALUES: [u32; 4] = [100, 99, 98, 95];

/// What a pp message is about.
#[derive(Debug, Clone)]
pub struct PerformanceRequestArgs {
    pub beatmap_id: i32,
    pub beatmap_md5: String,
    pub mode: u8,
    pub mods: u32,
    pub beatmap_max_combo: i32,
}

/// One performance calculation to request. The accuracy is a whole number of
/// percent.
#[derive(Debug, Clone)]
pub struct PerformanceRequest {
    pub beatmap_id: i32,
    pub beatmap_md5: String,
    pub mode: u8,
    pub mods: u32,
    pub max_combo: i32,
    pub accuracy_percent: u32,
    pub miss_count: i32,
}

/// The requests of the default pp table: full combo, no miss, at 100%, 99%,
/// 98% and 95% accuracy.
pub fn default_pp_requests(args: &PerformanceRequestArgs) -> (reqs: Vec<PerformanceRequest>)
    ensures
        reqs@.len() == 4,
        forall|i: int| 0 <= i < 4 ==> {
            let r = #[trigger] reqs@[i];
            &&& r.beatmap_id == args.beatmap_id
            &&& r.beatmap_md5@ == args.beatmap_md5@
            &&& r.mode == args.mode
            &&& r.mods == args.mods
            &&& r.max_combo == args.beatmap_max_combo
            &&& r.accuracy_percent == DEFAULT_ACCURACY_VALUES@[i]
            &&& r.miss_count == 0
        },
{
    let mut reqs: Vec<PerformanceRequest> = Vec::new();
    let mut i: usize = 0;
    while i < 4
        invariant
            i <= 4,
            reqs@.len() == i,
            forall|j: int| 0 <= j < i ==> {
                let r = #[trigger] reqs@[j];
                &&& r.beatmap_id == args.beatmap_id
                &&& r.beatmap_md5@ == args.beatmap_md5@
                &&& r.mode == args.mode
                &&& r.mods == args.mods
                &&& r.max_combo == args.beatmap_max_combo
                &&& r.accuracy_percent == DEFAULT_ACCURACY_VALUES@[j]
                &&& r.miss_count == 0
            },
        decreases 4 - i,
    {
        reqs.push(PerformanceRequest {
            beatmap_id: args.beatmap_id,
            beatmap_md5: args.beatmap_md5.clone(),
            mode: args.mode,
            mods: args.mods,
            max_combo: args.beatmap_max_combo,
            accuracy_percent: DEFAULT_ACCURACY_VALUES[i],
            miss_count: 0,
        });
        i = i + 1;
    }
    reqs
}

} // verus!
