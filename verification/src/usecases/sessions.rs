//! Login rules: the client version, the password check (bcrypt), the login
//! privilege and the verification of new accounts.
use crate::common::error::AppError;
use crate::models::privileges::{CAN_LOGIN, PENDING_VERIFICATION, can_login, is_pending_verification};
use vstd::prelude::*;

verus! {

#[verifier::external_type_specification]
#[verifier::external_body]
pub struct ExBcryptError(bcrypt::BcryptError);

/// What `bcrypt::verify` answers for a password and a stored hash: whether
/// the password matches, or `None` when the hash cannot be read.
pub uninterp spec fn bcrypt_verdict(password: Seq<char>, hash: Seq<char>) -> Option<bool>;

/// Checks a password against a bcrypt hash (`bcrypt::verify`). The answer
/// depends on the password and the hash alone.
#[verifier::external_body]
fn bcrypt_verify(password: &str, hash: &str) -> (res: Result<bool, bcrypt::BcryptError>)
    ensures
        match res {
            Ok(b) => bcrypt_verdict(password@, hash@) == Some(b),
            Err(_) => bcrypt_verdict(password@, hash@) is None,
        },
{
    bcrypt::verify(password, hash)
}

/// The login decision once the password was checked.
pub open spec fn login_decision_spec(password_verdict: Option<bool>, privileges: i32) -> Result<bool, AppError> {
    if password_verdict != Some(true) {
        Err(AppError::SessionsInvalidCredentials)
    } else if privileges & CAN_LOGIN == 0 {
        Err(AppError::SessionsLoginForbidden)
    } else {
        Ok(privileges & PENDING_VERIFICATION != 0)
    }
}

/// The login decision once the password was checked: a password that does
/// not match (or a hash that cannot be read) is refused as invalid
/// credentials, a user without the login privilege is refused; otherwise
/// the login goes on, and the answer says whether the account still awaits
/// verification.
pub fn login_decision(password_verdict: Option<bool>, privileges: i32) -> (res: Result<bool, AppError>)
    ensures
        res == login_decision_spec(password_verdict, privileges),
        password_verdict == Some(true) ==> (res == Err::<bool, AppError>(AppError::SessionsLoginForbidden)
            <==> privileges & CAN_LOGIN == 0),
        password_verdict == Some(true) && privileges & CAN_LOGIN != 0
            ==> res == Ok::<bool, AppError>(privileges & PENDING_VERIFICATION != 0),
        password_verdict != Some(true) ==> res == Err::<bool, AppError>(AppError::SessionsInvalidCredentials),
{
    match password_verdict {
        Some(true) => {},
        _ => return Err(AppError::SessionsInvalidCredentials),
    }
    if !can_login(privileges) {
        return Err(AppError::SessionsLoginForbidden);
    }
    Ok(is_pending_verification(privileges))
}

/// With a matching password only the login privilege decides: a user lacking
/// it is refused as forbidden, any other user (restricted or not) logs in,
/// and the answer is whether the account awaits verification. A wrong
/// password is refused as invalid credentials whatever the privileges.
pub proof fn lemma_login_needs_only_can_login(privileges: i32, verdict: Option<bool>)
    ensures
        login_decision_spec(Some(true), privileges) == if privileges & CAN_LOGIN == 0 {
            Err::<bool, AppError>(AppError::SessionsLoginForbidden)
        } else {
            Ok::<bool, AppError>(privileges & PENDING_VERIFICATION != 0)
        },
        verdict != Some(true) ==> login_decision_spec(verdict, privileges)
            == Err::<bool, AppError>(AppError::SessionsInvalidCredentials),
{
}

/// The checks of a login attempt with password `secret`, in order: an
/// outdated client, an unknown user (`user` is the stored bcrypt hash and the
/// privileges), a wrong password, a user who may not log in. The answer says
/// whether the account still awaits verification.
pub fn login_checks(client_outdated: bool, user: Option<(&str, i32)>, secret: &str) -> (res: Result<bool, AppError>)
    ensures
        client_outdated ==> res == Err::<bool, AppError>(AppError::ClientTooOld),
        !client_outdated ==> res == match user {
            None => Err(AppError::SessionsInvalidCredentials),
            Some((hash, privileges)) => login_decision_spec(bcrypt_verdict(secret@, hash@), privileges),
        },
{
    if client_outdated {
        return Err(AppError::ClientTooOld);
    }
    let (hash, privileges) = match user {
        Some(u) => u,
        None => return Err(AppError::SessionsInvalidCredentials),
    };
    let verdict = match bcrypt_verify(secret, hash) {
        Ok(b) => Some(b),
        Err(_) => None,
    };
    login_decision(verdict, privileges)
}

/// The privileges of the session after a login: a verified account no longer
/// awaits verification.
pub fn privileges_after_login(privileges: i32, verification_pending: bool) -> (p: i32)
    ensures
        p == if verification_pending { privileges & !PENDING_VERIFICATION } else { privileges },
{
    if verification_pending {
        privileges & !PENDING_VERIFICATION
    } else {
        privileges
    }
}

/// The end of a silence of `silence_seconds` starting at `now` (seconds
/// since the epoch).
pub fn silence_end(now: i64, silence_seconds: i64) -> (end: i64)
    requires
        i64::MIN <= now + silence_seconds <= i64::MAX,
    ensures
        end == now + silence_seconds,
{
    now + silence_seconds
}

/// Whether a session with this silence end is silenced at `now`.
pub fn is_silenced(silence_end: Option<i64>, now: i64) -> (b: bool)
    ensures
        b == (silence_end matches Some(e) && e > now),
{
    match silence_end {
        Some(e) => e > now,
        None => false,
    }
}

/// The position of the first primary session among a user's sessions
/// (given by their `primary` flags), if any.
pub fn primary_session_index(primary_flags: &Vec<bool>) -> (res: Option<usize>)
    ensures
        match res {
            Some(i) => i < primary_flags@.len() && primary_flags@[i as int]
                && forall|j: int| 0 <= j < i ==> !primary_flags@[j],
            None => forall|j: int| 0 <= j < primary_flags@.len() ==> !primary_flags@[j],
        },
{
    let mut i: usize = 0;
    while i < primary_flags.len()
        invariant
            i <= primary_flags@.len(),
            forall|j: int| 0 <= j < i ==> !primary_flags@[j],
        decreases primary_flags@.len() - i,
    {
        if primary_flags[i] {
            return Some(i);
        }
        i = i + 1;
    }
    None
}

} // verus!
