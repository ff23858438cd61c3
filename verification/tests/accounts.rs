use bancho_service::common::error::AppError;
use bancho_service::repositories::hardware_logs::{foreign_hardware_match_rule, HardwareMatchRule};
use bancho_service::usecases::hardware_logs::{
    aggregate_by_user, multiaccount_check_kind, regular_check_notices, self_aggregate_hardware,
    verification_check_notices, AggregateHardwareMatch, AggregateMatchingHardwareResult,
    HardwareNotice, MatchingHardwareLog, MultiaccountCheck, OwnHardwareLog,
};
use bancho_service::usecases::multiaccounts::{perform_checks_plan, MultiaccountAction, PotentialMultiaccount};
use bancho_service::usecases::sessions::{
    is_silenced, login_checks, login_decision, primary_session_index, privileges_after_login, silence_end,
};
use bancho_service::usecases::users::{verified_status, VerifiedStatus};

fn row(user_id: i64, occ: u64, activated: bool, privileges: i32) -> MatchingHardwareLog {
    MatchingHardwareLog { user_id, username: format!("u{user_id}"), user_privileges: privileges, occurrences: occ, activated }
}

fn agg(user_id: i64, occ: u64, activated: bool, privileges: i32) -> AggregateHardwareMatch {
    AggregateHardwareMatch {
        user_id,
        username: format!("u{user_id}"),
        user_privileges: privileges,
        total_occurrences: occ,
        has_activated_hardware: activated,
    }
}

#[test]
fn match_rule_by_placeholder_hashes() {
    assert_eq!(foreign_hardware_match_rule("m", "06a9e146cb8cc0853ded03bb15f2260e", "d"), HardwareMatchRule::AllHashes);
    assert_eq!(foreign_hardware_match_rule("m", "u", "dcfcd07e645d245babe887e5e2daa016"), HardwareMatchRule::AllHashes);
    assert_eq!(foreign_hardware_match_rule("b4ec3c4334a0249dae95c284ec5983df", "u", "d"), HardwareMatchRule::UniqueIdOnly);
    assert_eq!(foreign_hardware_match_rule("m", "u", "d"), HardwareMatchRule::AnyHash);
}

#[test]
fn aggregation_merges_consecutive_rows_of_a_user() {
    let res = aggregate_by_user(&vec![row(2, 3, false, 3), row(2, 4, true, 3), row(5, 1, false, 0)]);
    assert_eq!(res.total_hardware_matches, 8);
    assert_eq!(res.user_matches.len(), 2);
    assert_eq!(res.user_matches[0].total_occurrences, 7);
    assert!(res.user_matches[0].has_activated_hardware);
    assert_eq!(res.user_matches[1].user_id, 5);
    assert_eq!(aggregate_by_user(&vec![]).total_hardware_matches, 0);
}

#[test]
fn verification_checks_always_refuse() {
    let hw = AggregateMatchingHardwareResult {
        total_hardware_matches: 5,
        user_matches: vec![agg(2, 3, true, 3), agg(3, 1, true, 2), agg(4, 1, false, 3)],
    };
    let (notices, res) = verification_check_notices(&hw);
    assert_eq!(res, Err(AppError::SessionsLoginForbidden));
    assert_eq!(
        notices,
        vec![
            HardwareNotice::BannedForMultiaccount,
            HardwareNotice::OwnerRestricted { match_index: 0 },
            HardwareNotice::OwnerCreatedMultiaccount { match_index: 1 },
            HardwareNotice::PossibleAssociation { match_index: 2 },
        ]
    );
}

#[test]
fn regular_checks_compare_shares() {
    // own 2 of 12 uses (> 10%) on a visible user's activated hardware
    let hw = AggregateMatchingHardwareResult { total_hardware_matches: 10, user_matches: vec![agg(2, 10, true, 3)] };
    let (n, r) = regular_check_notices(2, &hw);
    assert_eq!(r, Ok(()));
    assert_eq!(n, vec![HardwareNotice::UsedOthersHardwareTooOften { match_index: 0 }]);
    // own 1 of 11 uses (<= 10%)
    let (n2, _) = regular_check_notices(1, &hw);
    assert_eq!(n2, vec![HardwareNotice::UsedOthersHardware { match_index: 0 }]);
    // restricted heavy user (3 of 5 uses > 20%) stops the examination
    let hw2 = AggregateMatchingHardwareResult {
        total_hardware_matches: 3,
        user_matches: vec![agg(2, 3, false, 2), agg(3, 0, true, 2)],
    };
    let (n3, r3) = regular_check_notices(2, &hw2);
    assert_eq!(r3, Err(AppError::SessionsLoginForbidden));
    assert_eq!(n3, vec![HardwareNotice::BannedForRestrictedHeavyUser { match_index: 0 }]);
    // a restricted user with 1 of 10 uses, then a visible user who used it more
    let hw3 = AggregateMatchingHardwareResult {
        total_hardware_matches: 6,
        user_matches: vec![agg(2, 1, false, 2), agg(3, 5, false, 1)],
    };
    let (n4, r4) = regular_check_notices(4, &hw3);
    assert_eq!(r4, Ok(()));
    assert_eq!(
        n4,
        vec![
            HardwareNotice::SharedWithRestricted { match_index: 0 },
            HardwareNotice::HardwareUsedMoreByOther { match_index: 1 },
        ]
    );
    let hw4 = AggregateMatchingHardwareResult { total_hardware_matches: 1, user_matches: vec![agg(2, 1, true, 0)] };
    assert_eq!(
        regular_check_notices(1, &hw4),
        (vec![HardwareNotice::BannedForRestrictedOwner { match_index: 0 }], Err(AppError::SessionsLoginForbidden))
    );
}

#[test]
fn check_kind_and_self_aggregate() {
    assert_eq!(multiaccount_check_kind(true, 5, true), MultiaccountCheck::Skip);
    assert_eq!(multiaccount_check_kind(false, 0, true), MultiaccountCheck::Skip);
    assert_eq!(multiaccount_check_kind(false, 5, true), MultiaccountCheck::Verification);
    assert_eq!(multiaccount_check_kind(false, 5, false), MultiaccountCheck::Regular);
    assert_eq!(self_aggregate_hardware(&vec![], true), (1, true));
    let rows = vec![OwnHardwareLog { occurrences: 2, activated: false }, OwnHardwareLog { occurrences: 3, activated: true }];
    assert_eq!(self_aggregate_hardware(&rows, false), (5, true));
}

#[test]
fn perform_checks_plans() {
    let m1 = PotentialMultiaccount { user_id: 20, user_privileges: 3, occurrences: 7, activated: true };
    let m2 = PotentialMultiaccount { user_id: 21, user_privileges: 2, occurrences: 1, activated: true };
    let m3 = PotentialMultiaccount { user_id: 22, user_privileges: 3, occurrences: 9, activated: false };
    let (actions, res) = perform_checks_plan(10, 4, false, &vec![m1, m2, m3]);
    assert_eq!(res, Ok(()));
    let texts: Vec<String> = actions
        .iter()
        .map(|a| match a {
            MultiaccountAction::Warn { message, .. } => message.clone(),
            MultiaccountAction::RestrictUser => "restrict".to_string(),
            MultiaccountAction::BanUser => "ban".to_string(),
        })
        .collect();
    assert_eq!(
        texts,
        vec![
            "10 logged in from 20's hardware".to_string(),
            "10 logged in with 21's hardware, who is restricted".to_string(),
            "restrict".to_string(),
            "Possible multiaccount: 10 logged in with 22's hardware 4 times.\n22 has logged in 9 times.".to_string(),
        ]
    );
    let (pending, res2) = perform_checks_plan(10, 4, true, &vec![m1, m2, m3]);
    assert_eq!(res2, Err(AppError::SessionsLoginForbidden));
    assert_eq!(pending.len(), 3);
    assert!(matches!(pending[0], MultiaccountAction::BanUser));
    assert!(matches!(pending[2], MultiaccountAction::RestrictUser));
    let (none, res3) = perform_checks_plan(10, 4, true, &vec![]);
    assert_eq!(res3, Ok(()));
    assert!(none.is_empty());
}

#[test]
fn login_rules() {
    assert_eq!(login_decision(Some(true), 3), Ok(false));
    assert_eq!(login_decision(Some(true), 3 | 1048576), Ok(true));
    assert_eq!(login_decision(Some(true), 1), Err(AppError::SessionsLoginForbidden));
    assert_eq!(login_decision(Some(false), 3), Err(AppError::SessionsInvalidCredentials));
    assert_eq!(login_decision(None, 3), Err(AppError::SessionsInvalidCredentials));
    assert_eq!(login_checks(true, None, "x"), Err(AppError::ClientTooOld));
    assert_eq!(login_checks(false, None, "x"), Err(AppError::SessionsInvalidCredentials));
    assert_eq!(privileges_after_login(3 | 1048576, true), 3);
    assert_eq!(privileges_after_login(3 | 1048576, false), 3 | 1048576);
    assert_eq!(silence_end(100, 300), 400);
    assert!(is_silenced(Some(101), 100));
    assert!(!is_silenced(Some(100), 100));
    assert!(!is_silenced(None, 100));
    assert_eq!(primary_session_index(&vec![false, true, true]), Some(1));
    assert_eq!(primary_session_index(&vec![false]), None);
}

#[test]
fn login_checks_password_with_bcrypt() {
    let hash = bcrypt::hash("hunter2", 4).unwrap();
    assert_eq!(login_checks(false, Some((hash.as_str(), 3)), "hunter2"), Ok(false));
    assert_eq!(login_checks(false, Some((hash.as_str(), 3)), "hunter3"), Err(AppError::SessionsInvalidCredentials));
    assert_eq!(login_checks(false, Some((hash.as_str(), 1)), "hunter2"), Err(AppError::SessionsLoginForbidden));
    assert_eq!(login_checks(false, Some(("not a hash", 3)), "hunter2"), Err(AppError::SessionsInvalidCredentials));
}

#[test]
fn verified_status_rules() {
    assert_eq!(verified_status(1048576 | 3), VerifiedStatus::PendingVerification);
    assert_eq!(verified_status(2), VerifiedStatus::Multiaccount);
    assert_eq!(verified_status(3), VerifiedStatus::Verified);
}
