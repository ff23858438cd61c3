//! The older multi-account check run at login: bans, restrictions and the
//! staff warnings that go with them.
use crate::common::error::AppError;
use crate::models::privileges::{PUBLICLY_VISIBLE, is_publicly_visible};
use crate::text::{decimal_int, push_decimal_i64};
use vstd::prelude::*;

verus! {

/// Another user's use of the same hardware.
#[derive(Debug, Clone, Copy, PartialEq, Eq, Structural)]
pub struct PotentialMultiaccount {
    pub user_id: i64,
    pub user_privileges: i32,
    pub occurrences: i64,
    pub activated: bool,
}

/// An effect of the multi-account check.
#[derive(Debug, Clone)]
pub enum MultiaccountAction {
    /// Ban the user who logs in.
    BanUser,
    /// Restrict the user who logs in.
    RestrictUser,
    /// Send a warning to the staff log.
    Warn { title: String, message: String },
}

/// The content of an action.
pub ghost enum MultiaccountActionView {
    BanUser,
    RestrictUser,
    Warn { title: Seq<char>, message: Seq<char> },
}

impl View for MultiaccountAction {
    type V = MultiaccountActionView;

    open spec fn view(&self) -> MultiaccountActionView {
        match self {
            MultiaccountAction::BanUser => MultiaccountActionView::BanUser,
            MultiaccountAction::RestrictUser => MultiaccountActionView::RestrictUser,
            MultiaccountAction::Warn { title, message } => MultiaccountActionView::Warn { title: title@, message: message@ },
        }
    }
}

/// The title of the hardware match warnings.
pub open spec fn match_warning_title() -> Seq<char> {
    "User login hardware match"@
}

/// The actions for one other user at a regular login.
pub open spec fn regular_match_actions(user_id: i64, own_count: i64, m: PotentialMultiaccount) -> Seq<MultiaccountActionView> {
    if m.activated {
        if m.user_privileges & PUBLICLY_VISIBLE != 0 {
            seq![MultiaccountActionView::Warn {
                title: match_warning_title(),
                message: decimal_int(user_id as int) + " logged in from "@ + decimal_int(m.user_id as int) + "'s hardware"@,
            }]
        } else {
            seq![
                MultiaccountActionView::Warn {
                    title: match_warning_title(),
                    message: decimal_int(user_id as int) + " logged in with "@ + decimal_int(m.user_id as int)
                        + "'s hardware, who is restricted"@,
                },
                MultiaccountActionView::RestrictUser,
            ]
        }
    } else {
        seq![MultiaccountActionView::Warn {
            title: match_warning_title(),
            message: "Possible multiaccount: "@ + decimal_int(user_id as int) + " logged in with "@
                + decimal_int(m.user_id as int) + "'s hardware "@ + decimal_int(own_count as int) + " times.\n"@
                + decimal_int(m.user_id as int) + " has logged in "@ + decimal_int(m.occurrences as int) + " times."@,
        }]
    }
}

/// The actions for the first `n` other users at a regular login, in order.
pub open spec fn regular_actions(user_id: i64, own_count: i64, matches: Seq<PotentialMultiaccount>, n: int) -> Seq<MultiaccountActionView>
    decreases n,
{
    if n <= 0 {
        Seq::empty()
    } else {
        regular_actions(user_id, own_count, matches, n - 1) + regular_match_actions(user_id, own_count, matches[n - 1])
    }
}

/// The restrictions for the first `n` other users when a user pending
/// verification logs in: one for each visible owner of activated hardware.
pub open spec fn verification_restrictions(matches: Seq<PotentialMultiaccount>, n: int) -> Seq<MultiaccountActionView>
    decreases n,
{
    if n <= 0 {
        Seq::empty()
    } else {
        let prev = verification_restrictions(matches, n - 1);
        let m = matches[n - 1];
        if m.activated && m.user_privileges & PUBLICLY_VISIBLE != 0 {
            prev.push(MultiaccountActionView::RestrictUser)
        } else {
            prev
        }
    }
}

/// The views of a list of actions.
pub open spec fn action_views(actions: Seq<MultiaccountAction>) -> Seq<MultiaccountActionView> {
    actions.map_values(|a: MultiaccountAction| a@)
}

/// Builds a warning text from the parts.
fn warning_text(first: i64, middle: &str, second: i64, after: &str) -> (s: String)
    ensures
        s@ == decimal_int(first as int) + middle@ + decimal_int(second as int) + after@,
{
    let mut s = String::new();
    push_decimal_i64(&mut s, first);
    s.append(middle);
    push_decimal_i64(&mut s, second);
    s.append(after);
    s
}

/// Decides the multi-account check of a login by `user_id`, who used the
/// hardware `own_count` times. A user pending verification who shares
/// hardware with anyone is banned (with an empty warning) and restricted once
/// per visible owner of activated hardware, and refused; otherwise each other
/// user is reported, and a restricted owner of activated hardware gets the
/// user restricted.
pub fn perform_checks_plan(
    user_id: i64,
    own_count: i64,
    verification_pending: bool,
    matches: &Vec<PotentialMultiaccount>,
) -> (res: (Vec<MultiaccountAction>, Result<(), AppError>))
    ensures
        verification_pending && matches@.len() > 0 ==> {
            &&& action_views(res.0@) == seq![
                MultiaccountActionView::BanUser,
                MultiaccountActionView::Warn { title: Seq::empty(), message: Seq::empty() },
            ] + verification_restrictions(matches@, matches@.len() as int)
            &&& res.1 == Err::<(), AppError>(AppError::SessionsLoginForbidden)
        },
        !(verification_pending && matches@.len() > 0) ==> {
            &&& action_views(res.0@) == regular_actions(user_id, own_count, matches@, matches@.len() as int)
            &&& res.1 == Ok::<(), AppError>(())
        },
{
    let mut actions: Vec<MultiaccountAction> = Vec::new();
    if verification_pending && matches.len() > 0 {
        actions.push(MultiaccountAction::BanUser);
        actions.push(MultiaccountAction::Warn { title: String::new(), message: String::new() });
        let ghost head = seq![
            MultiaccountActionView::BanUser,
            MultiaccountActionView::Warn { title: Seq::empty(), message: Seq::empty() },
        ];
        assert(action_views(actions@) =~= head + verification_restrictions(matches@, 0));
        let mut k: usize = 0;
        while k < matches.len()
            invariant
                k <= matches@.len(),
                action_views(actions@) == head + verification_restrictions(matches@, k as int),
            decreases matches@.len() - k,
        {
            let m = matches[k];
            let ghost before = actions@;
            if m.activated && is_publicly_visible(m.user_privileges) {
                actions.push(MultiaccountAction::RestrictUser);
                assert(action_views(actions@) =~= action_views(before).push(MultiaccountActionView::RestrictUser));
            }
            assert(action_views(actions@) =~= head + verification_restrictions(matches@, k + 1));
            k = k + 1;
        }
        (actions, Err(AppError::SessionsLoginForbidden))
    } else {
        let mut k: usize = 0;
        assert(action_views(actions@) =~= regular_actions(user_id, own_count, matches@, 0));
        while k < matches.len()
            invariant
                k <= matches@.len(),
                action_views(actions@) == regular_actions(user_id, own_count, matches@, k as int),
            decreases matches@.len() - k,
        {
            let m = matches[k];
            let ghost before = actions@;
            if m.activated {
                if is_publicly_visible(m.user_privileges) {
                    let message = warning_text(user_id, " logged in from ", m.user_id, "'s hardware");
                    actions.push(MultiaccountAction::Warn { title: String::from_str("User login hardware match"), message });
                } else {
                    let message = warning_text(user_id, " logged in with ", m.user_id, "'s hardware, who is restricted");
                    actions.push(MultiaccountAction::Warn { title: String::from_str("User login hardware match"), message });
                    actions.push(MultiaccountAction::RestrictUser);
                }
            } else {
                let ids = warning_text(user_id, " logged in with ", m.user_id, "'s hardware ");
                let mut message = String::from_str("Possible multiaccount: ");
                message.append(ids.as_str());
                push_decimal_i64(&mut message, own_count);
                message.append(" times.\n");
                push_decimal_i64(&mut message, m.user_id);
                message.append(" has logged in ");
                push_decimal_i64(&mut message, m.occurrences);
                message.append(" times.");
                assert(message@ =~= "Possible multiaccount: "@ + decimal_int(user_id as int) + " logged in with "@
                    + decimal_int(m.user_id as int) + "'s hardware "@ + decimal_int(own_count as int) + " times.\n"@
                    + decimal_int(m.user_id as int) + " has logged in "@ + decimal_int(m.occurrences as int) + " times."@);
                actions.push(MultiaccountAction::Warn { title: String::from_str("User login hardware match"), message });
            }
            assert(action_views(actions@) =~= action_views(before) + regular_match_actions(user_id, own_count, m)) by {
                assert(actions@.len() == before.len() + regular_match_actions(user_id, own_count, m).len());
                assert forall|j: int| 0 <= j < actions@.len() implies #[trigger] action_views(actions@)[j]
                    == (action_views(before) + regular_match_actions(user_id, own_count, m))[j] by {
                    if j >= before.len() {
                        assert(actions@[j]@ == regular_match_actions(user_id, own_count, m)[j - before.len()]);
                    } else {
                        assert(actions@[j] == before[j]);
                    }
                }
            }
            assert(action_views(actions@) =~= regular_actions(user_id, own_count, matches@, k + 1));
            k = k + 1;
        }
        (actions, Ok(()))
    }
}

} // verus!
