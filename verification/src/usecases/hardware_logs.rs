//! Multi-account detection: aggregating hardware matches per user and
//! deciding, for each other user sharing the hardware, what is reported and
//! whether the login is refused.
use crate::common::error::AppError;
use crate::models::privileges::{PUBLICLY_VISIBLE, is_publicly_visible};
use vstd::prelude::*;

verus! {

/// One aggregated hardware log row of another user sharing the hardware.
#[derive(Debug, Clone)]
pub struct MatchingHardwareLog {
    pub user_id: i64,
    pub username: String,
    pub user_privileges: i32,
    pub occurrences: u64,
    pub activated: bool,
}

/// All of one other user's use of the hardware.
#[derive(Debug, Clone)]
pub struct AggregateHardwareMatch {
    pub user_id: i64,
    pub username: String,
    pub user_privileges: i32,
    pub total_occurrences: u64,
    pub has_activated_hardware: bool,
}

/// Every other user's use of the hardware, and the sum of their uses.
#[derive(Debug, Clone)]
pub struct AggregateMatchingHardwareResult {
    pub total_hardware_matches: u64,
    pub user_matches: Vec<AggregateHardwareMatch>,
}

/// Sum of the occurrences of the rows.
pub open spec fn occurrence_sum(rows: Seq<MatchingHardwareLog>) -> nat
    decreases rows.len(),
{
    if rows.len() == 0 {
        0
    } else {
        occurrence_sum(rows.drop_last()) + rows.last().occurrences as nat
    }
}

/// The aggregate that a single row starts.
pub open spec fn row_aggregate(r: MatchingHardwareLog) -> AggregateHardwareMatch {
    AggregateHardwareMatch {
        user_id: r.user_id,
        username: r.username,
        user_privileges: r.user_privileges,
        total_occurrences: r.occurrences,
        has_activated_hardware: r.activated,
    }
}

/// Aggregation of rows ordered by user: consecutive rows of one user add up
/// their occurrences and activation; the name and privileges come from the
/// user's first row.
pub open spec fn aggregate_rows(rows: Seq<MatchingHardwareLog>) -> Seq<AggregateHardwareMatch>
    decreases rows.len(),
{
    if rows.len() == 0 {
        Seq::empty()
    } else {
        let prev = aggregate_rows(rows.drop_last());
        let r = rows.last();
        if prev.len() > 0 && prev.last().user_id == r.user_id {
            prev.update(prev.len() - 1, AggregateHardwareMatch {
                total_occurrences: (prev.last().total_occurrences + r.occurrences) as u64,
                has_activated_hardware: prev.last().has_activated_hardware || r.activated,
                ..prev.last()
            })
        } else {
            prev.push(row_aggregate(r))
        }
    }
}

/// Each aggregate's occurrences are at most the sum of all rows.
pub proof fn lemma_aggregate_bounded(rows: Seq<MatchingHardwareLog>)
    ensures
        forall|k: int| 0 <= k < aggregate_rows(rows).len()
            ==> #[trigger] aggregate_rows(rows)[k].total_occurrences <= occurrence_sum(rows),
        aggregate_rows(rows).len() <= rows.len(),
        rows.len() > 0 ==> aggregate_rows(rows).len() > 0,
    decreases rows.len(),
{
    if rows.len() > 0 {
        lemma_aggregate_bounded(rows.drop_last());
        let prev = aggregate_rows(rows.drop_last());
        assert forall|k: int| 0 <= k < aggregate_rows(rows).len()
            implies #[trigger] aggregate_rows(rows)[k].total_occurrences <= occurrence_sum(rows) by {
            if k < prev.len() {
                assert(prev[k].total_occurrences <= occurrence_sum(rows.drop_last()));
            }
        }
    }
}

/// Sum of the per-user totals of aggregates.
pub open spec fn aggregate_total(aggs: Seq<AggregateHardwareMatch>) -> nat
    decreases aggs.len(),
{
    if aggs.len() == 0 {
        0
    } else {
        aggregate_total(aggs.drop_last()) + aggs.last().total_occurrences as nat
    }
}

/// Every use of the hardware is counted for exactly one user: the per-user
/// totals add up to the sum over all rows.
pub proof fn lemma_aggregate_totals_add_up(rows: Seq<MatchingHardwareLog>)
    requires
        occurrence_sum(rows) <= u64::MAX,
    ensures
        aggregate_total(aggregate_rows(rows)) == occurrence_sum(rows),
    decreases rows.len(),
{
    if rows.len() > 0 {
        let rest = rows.drop_last();
        assert(occurrence_sum(rest) <= occurrence_sum(rows));
        lemma_aggregate_totals_add_up(rest);
        lemma_aggregate_bounded(rest);
        let prev = aggregate_rows(rest);
        let r = rows.last();
        if prev.len() > 0 && prev.last().user_id == r.user_id {
            let x = AggregateHardwareMatch {
                total_occurrences: (prev.last().total_occurrences + r.occurrences) as u64,
                has_activated_hardware: prev.last().has_activated_hardware || r.activated,
                ..prev.last()
            };
            let next = prev.update(prev.len() - 1, x);
            assert(prev.last().total_occurrences <= occurrence_sum(rest));
            assert(x.total_occurrences == prev.last().total_occurrences + r.occurrences);
            assert(next.drop_last() == prev.drop_last());
            assert(aggregate_total(prev) == aggregate_total(prev.drop_last()) + prev.last().total_occurrences);
        } else {
            assert(prev.push(row_aggregate(r)).drop_last() == prev);
        }
    }
}

/// When the rows come ordered by user, as the query orders them, each user
/// has exactly one aggregate, and the aggregates are ordered by user.
pub proof fn lemma_aggregate_one_per_user(rows: Seq<MatchingHardwareLog>)
    requires
        forall|i: int, j: int| 0 <= i < j < rows.len() ==> rows[i].user_id <= rows[j].user_id,
    ensures
        forall|k: int, l: int| 0 <= k < l < aggregate_rows(rows).len()
            ==> aggregate_rows(rows)[k].user_id < aggregate_rows(rows)[l].user_id,
        rows.len() > 0 ==> aggregate_rows(rows).len() > 0
            && aggregate_rows(rows).last().user_id == rows.last().user_id,
    decreases rows.len(),
{
    if rows.len() > 0 {
        let rest = rows.drop_last();
        lemma_aggregate_one_per_user(rest);
        let prev = aggregate_rows(rest);
        let r = rows.last();
        if rest.len() > 0 {
            assert(rest.last() == rows[rows.len() - 2]);
            assert(rest.last().user_id <= r.user_id);
        }
    }
}

/// Aggregates the rows (ordered by user ID) per user.
pub fn aggregate_by_user(rows: &Vec<MatchingHardwareLog>) -> (res: AggregateMatchingHardwareResult)
    requires
        occurrence_sum(rows@) <= u64::MAX,
    ensures
        res.total_hardware_matches == occurrence_sum(rows@),
        res.user_matches@ == aggregate_rows(rows@),
{
    let mut total: u64 = 0;
    let mut matches: Vec<AggregateHardwareMatch> = Vec::new();
    let mut i: usize = 0;
    while i < rows.len()
        invariant
            i <= rows@.len(),
            occurrence_sum(rows@) <= u64::MAX,
            total == occurrence_sum(rows@.take(i as int)),
            matches@ == aggregate_rows(rows@.take(i as int)),
        decreases rows@.len() - i,
    {
        assert(rows@.take(i + 1).drop_last() == rows@.take(i as int));
        proof {
            lemma_occurrence_sum_prefix(rows@, i as int + 1);
            lemma_aggregate_bounded(rows@.take(i as int));
        }
        let r = &rows[i];
        total = total + r.occurrences;
        let n = matches.len();
        if n > 0 && matches[n - 1].user_id == r.user_id {
            let last = &matches[n - 1];
            let merged = AggregateHardwareMatch {
                user_id: last.user_id,
                username: last.username.clone(),
                user_privileges: last.user_privileges,
                total_occurrences: last.total_occurrences + r.occurrences,
                has_activated_hardware: last.has_activated_hardware || r.activated,
            };
            matches.set(n - 1, merged);
        } else {
            matches.push(AggregateHardwareMatch {
                user_id: r.user_id,
                username: r.username.clone(),
                user_privileges: r.user_privileges,
                total_occurrences: r.occurrences,
                has_activated_hardware: r.activated,
            });
        }
        i = i + 1;
    }
    assert(rows@.take(rows@.len() as int) == rows@);
    AggregateMatchingHardwareResult { total_hardware_matches: total, user_matches: matches }
}

/// The sum over a prefix never exceeds the sum over the whole.
pub proof fn lemma_occurrence_sum_prefix(rows: Seq<MatchingHardwareLog>, n: int)
    requires
        0 <= n <= rows.len(),
    ensures
        occurrence_sum(rows.take(n)) <= occurrence_sum(rows),
    decreases rows.len(),
{
    if n < rows.len() {
        assert(rows.drop_last().take(n) == rows.take(n));
        lemma_occurrence_sum_prefix(rows.drop_last(), n);
    } else {
        assert(rows.take(n) == rows);
    }
}


/// What is reported about one other user of the hardware; `match_index` is
/// the position of that user in `user_matches`.
#[derive(Debug, Clone, Copy, PartialEq, Eq, Structural)]
pub enum HardwareNotice {
    /// A user pending verification was banned for creating a multi-account.
    BannedForMultiaccount,
    /// The visible owner of activated hardware is restricted for it.
    OwnerRestricted { match_index: usize },
    /// The restricted owner of activated hardware created the multi-account.
    OwnerCreatedMultiaccount { match_index: usize },
    /// A possible multi-account association (hardware never activated).
    PossibleAssociation { match_index: usize },
    /// The user logged in with a visible user's activated hardware more than
    /// a tenth of its uses.
    UsedOthersHardwareTooOften { match_index: usize },
    /// The user logged in with a visible user's activated hardware.
    UsedOthersHardware { match_index: usize },
    /// The user logged in with a restricted user's activated hardware: banned.
    BannedForRestrictedOwner { match_index: usize },
    /// The user logged in with hardware that a restricted user used for more
    /// than a fifth of its uses: banned.
    BannedForRestrictedHeavyUser { match_index: usize },
    /// The hardware is shared with a restricted user.
    SharedWithRestricted { match_index: usize },
    /// A visible user used the hardware more than this user did.
    HardwareUsedMoreByOther { match_index: usize },
}

/// Whether a user is publicly visible.
pub open spec fn visible(m: AggregateHardwareMatch) -> bool {
    m.user_privileges & PUBLICLY_VISIBLE != 0
}

/// The report about one other user when a user pending verification logs in.
pub open spec fn verification_notice(m: AggregateHardwareMatch, k: int) -> HardwareNotice {
    if m.has_activated_hardware {
        if visible(m) {
            HardwareNotice::OwnerRestricted { match_index: k as usize }
        } else {
            HardwareNotice::OwnerCreatedMultiaccount { match_index: k as usize }
        }
    } else {
        HardwareNotice::PossibleAssociation { match_index: k as usize }
    }
}

/// Decides the reports for a login of a user pending verification whose
/// hardware other users have used: the user is banned, and each other user is
/// reported. The login is always refused.
pub fn verification_check_notices(hw_matches: &AggregateMatchingHardwareResult) -> (res: (Vec<HardwareNotice>, Result<(), AppError>))
    ensures
        res.0@.len() == hw_matches.user_matches@.len() + 1,
        res.0@[0] == HardwareNotice::BannedForMultiaccount,
        forall|k: int| 0 <= k < hw_matches.user_matches@.len()
            ==> res.0@[k + 1] == verification_notice(hw_matches.user_matches@[k], k),
        res.1 == Err::<(), AppError>(AppError::SessionsLoginForbidden),
{
    let mut notices: Vec<HardwareNotice> = Vec::new();
    notices.push(HardwareNotice::BannedForMultiaccount);
    let mut k: usize = 0;
    while k < hw_matches.user_matches.len()
        invariant
            k <= hw_matches.user_matches@.len(),
            notices@.len() == k + 1,
            notices@[0] == HardwareNotice::BannedForMultiaccount,
            forall|j: int| 0 <= j < k ==> notices@[j + 1] == verification_notice(hw_matches.user_matches@[j], j),
        decreases hw_matches.user_matches@.len() - k,
    {
        let m = &hw_matches.user_matches[k];
        let notice = if m.has_activated_hardware {
            if is_publicly_visible(m.user_privileges) {
                HardwareNotice::OwnerRestricted { match_index: k }
            } else {
                HardwareNotice::OwnerCreatedMultiaccount { match_index: k }
            }
        } else {
            HardwareNotice::PossibleAssociation { match_index: k }
        };
        notices.push(notice);
        k = k + 1;
    }
    (notices, Err(AppError::SessionsLoginForbidden))
}

/// Whether another user's use of the hardware gets a regular login refused:
/// that user is restricted and either activated the hardware or used it for
/// more than a fifth of all its uses (`total`).
pub open spec fn forbids_login(m: AggregateHardwareMatch, total: nat) -> bool {
    !visible(m) && (m.has_activated_hardware || 5 * m.total_occurrences > total)
}

/// The report about one other user at a regular login; `own` is how often the
/// user used the hardware and `total` how often anyone did.
pub open spec fn regular_notice(m: AggregateHardwareMatch, own: nat, total: nat, k: int) -> Option<HardwareNotice> {
    if m.has_activated_hardware {
        if visible(m) {
            if 10 * own > total {
                Some(HardwareNotice::UsedOthersHardwareTooOften { match_index: k as usize })
            } else {
                Some(HardwareNotice::UsedOthersHardware { match_index: k as usize })
            }
        } else {
            Some(HardwareNotice::BannedForRestrictedOwner { match_index: k as usize })
        }
    } else if !visible(m) {
        if 5 * m.total_occurrences > total {
            Some(HardwareNotice::BannedForRestrictedHeavyUser { match_index: k as usize })
        } else {
            Some(HardwareNotice::SharedWithRestricted { match_index: k as usize })
        }
    } else if m.total_occurrences > own {
        Some(HardwareNotice::HardwareUsedMoreByOther { match_index: k as usize })
    } else {
        None
    }
}

/// The reports about the first `n` other users, in order.
pub open spec fn regular_notices(matches: Seq<AggregateHardwareMatch>, own: nat, total: nat, n: int) -> Seq<HardwareNotice>
    decreases n,
{
    if n <= 0 {
        Seq::empty()
    } else {
        let prev = regular_notices(matches, own, total, n - 1);
        match regular_notice(matches[n - 1], own, total, n - 1) {
            Some(notice) => prev.push(notice),
            None => prev,
        }
    }
}

/// Index of the first other user whose use refuses the login.
pub open spec fn is_first_forbidding(matches: Seq<AggregateHardwareMatch>, total: nat, f: int) -> bool {
    &&& 0 <= f < matches.len()
    &&& forbids_login(matches[f], total)
    &&& forall|j: int| 0 <= j < f ==> !forbids_login(matches[j], total)
}

/// Decides the reports for a regular login of a user who used the hardware
/// `own_occurrences` times while other users did too. The other users are
/// examined in order; the first one whose use refuses the login ends the
/// examination. Shares are compared exactly, as fractions of all uses.
pub fn regular_check_notices(own_occurrences: u64, hw_matches: &AggregateMatchingHardwareResult) -> (res: (Vec<HardwareNotice>, Result<(), AppError>))
    ensures
        ({
            let total = (hw_matches.total_hardware_matches + own_occurrences) as nat;
            let matches = hw_matches.user_matches@;
            if exists|f: int| is_first_forbidding(matches, total, f) {
                exists|f: int| is_first_forbidding(matches, total, f)
                    && res.0@ == regular_notices(matches, own_occurrences as nat, total, f + 1)
                    && res.1 == Err::<(), AppError>(AppError::SessionsLoginForbidden)
            } else {
                res.0@ == regular_notices(matches, own_occurrences as nat, total, matches.len() as int)
                    && res.1 == Ok::<(), AppError>(())
            }
        }),
{
    let ghost total_spec: nat = (hw_matches.total_hardware_matches + own_occurrences) as nat;
    let total: u128 = hw_matches.total_hardware_matches as u128 + own_occurrences as u128;
    let own: u128 = own_occurrences as u128;
    let mut notices: Vec<HardwareNotice> = Vec::new();
    let mut k: usize = 0;
    while k < hw_matches.user_matches.len()
        invariant
            k <= hw_matches.user_matches@.len(),
            total == total_spec,
            own == own_occurrences,
            total_spec == hw_matches.total_hardware_matches + own_occurrences,
            notices@ == regular_notices(hw_matches.user_matches@, own_occurrences as nat, total_spec, k as int),
            forall|j: int| 0 <= j < k ==> !forbids_login(hw_matches.user_matches@[j], total_spec),
        decreases hw_matches.user_matches@.len() - k,
    {
        let m = &hw_matches.user_matches[k];
        let occ: u128 = m.total_occurrences as u128;
        let is_visible = is_publicly_visible(m.user_privileges);
        if m.has_activated_hardware {
            if is_visible {
                if 10 * own > total {
                    notices.push(HardwareNotice::UsedOthersHardwareTooOften { match_index: k });
                } else {
                    notices.push(HardwareNotice::UsedOthersHardware { match_index: k });
                }
            } else {
                notices.push(HardwareNotice::BannedForRestrictedOwner { match_index: k });
                assert(is_first_forbidding(hw_matches.user_matches@, total_spec, k as int));
                return (notices, Err(AppError::SessionsLoginForbidden));
            }
        } else if !is_visible {
            if 5 * occ > total {
                notices.push(HardwareNotice::BannedForRestrictedHeavyUser { match_index: k });
                assert(is_first_forbidding(hw_matches.user_matches@, total_spec, k as int));
                return (notices, Err(AppError::SessionsLoginForbidden));
            } else {
                notices.push(HardwareNotice::SharedWithRestricted { match_index: k });
            }
        } else if occ > own {
            notices.push(HardwareNotice::HardwareUsedMoreByOther { match_index: k });
        }
        k = k + 1;
    }
    (notices, Ok(()))
}

/// What a login's hardware check does next.
#[derive(Debug, Clone, Copy, PartialEq, Eq, Structural)]
pub enum MultiaccountCheck {
    /// Nothing to check: the hardware is an approved shared device, or
    /// nobody else used it.
    Skip,
    /// The user is pending verification: the strict checks apply.
    Verification,
    /// The regular checks apply.
    Regular,
}

/// Chooses the hardware checks of a login.
pub fn multiaccount_check_kind(is_shared_device: bool, total_hardware_matches: u64, verification_pending: bool) -> (res: MultiaccountCheck)
    ensures
        res == if is_shared_device || total_hardware_matches == 0 {
            MultiaccountCheck::Skip
        } else if verification_pending {
            MultiaccountCheck::Verification
        } else {
            MultiaccountCheck::Regular
        },
{
    if is_shared_device {
        MultiaccountCheck::Skip
    } else if total_hardware_matches == 0 {
        MultiaccountCheck::Skip
    } else if verification_pending {
        MultiaccountCheck::Verification
    } else {
        MultiaccountCheck::Regular
    }
}

/// One aggregated hardware log row of the user's own.
#[derive(Debug, Clone, Copy, PartialEq, Eq, Structural)]
pub struct OwnHardwareLog {
    pub occurrences: u64,
    pub activated: bool,
}

/// Sum of the occurrences of the user's own rows.
pub open spec fn own_occurrence_sum(rows: Seq<OwnHardwareLog>) -> nat
    decreases rows.len(),
{
    if rows.len() == 0 {
        0
    } else {
        own_occurrence_sum(rows.drop_last()) + rows.last().occurrences as nat
    }
}

/// The user's own use of the hardware: `(total occurrences, activated)`.
/// With no rows yet, this login counts once, activated when the user is
/// pending verification.
pub fn self_aggregate_hardware(rows: &Vec<OwnHardwareLog>, verification_pending: bool) -> (res: (u64, bool))
    requires
        own_occurrence_sum(rows@) <= u64::MAX,
    ensures
        rows@.len() == 0 ==> res == (1u64, verification_pending),
        rows@.len() > 0 ==> res.0 == own_occurrence_sum(rows@)
            && res.1 == exists|j: int| 0 <= j < rows@.len() && rows@[j].activated,
{
    if rows.len() == 0 {
        return (1, verification_pending);
    }
    let mut total: u64 = 0;
    let mut activated = false;
    let mut i: usize = 0;
    while i < rows.len()
        invariant
            i <= rows@.len(),
            own_occurrence_sum(rows@) <= u64::MAX,
            total == own_occurrence_sum(rows@.take(i as int)),
            activated == exists|j: int| 0 <= j < i && rows@[j].activated,
        decreases rows@.len() - i,
    {
        assert(rows@.take(i + 1).drop_last() == rows@.take(i as int));
        proof {
            lemma_own_occurrence_sum_prefix(rows@, i as int + 1);
        }
        total = total + rows[i].occurrences;
        activated = activated || rows[i].activated;
        i = i + 1;
    }
    assert(rows@.take(rows@.len() as int) == rows@);
    (total, activated)
}

/// The sum over a prefix never exceeds the sum over the whole.
pub proof fn lemma_own_occurrence_sum_prefix(rows: Seq<OwnHardwareLog>, n: int)
    requires
        0 <= n <= rows.len(),
    ensures
        own_occurrence_sum(rows.take(n)) <= own_occurrence_sum(rows),
    decreases rows.len(),
{
    if n < rows.len() {
        assert(rows.drop_last().take(n) == rows.take(n));
        lemma_own_occurrence_sum_prefix(rows.drop_last(), n);
    } else {
        assert(rows.take(n) == rows);
    }
}

} // verus!
