//! The login form and the limit on failed attempts.

use vstd::prelude::*;
use vstd::string::StringExecFns;

verus! {

/// Failed attempts after which an address is locked out.
pub const MAX_LOGIN_ATTEMPTS: i32 = 5;

/// Seconds after which the count of failed attempts runs out.
pub const ATTEMPT_WINDOW_SECONDS: i64 = 60;

/// What a user submits to log in.
pub struct LoginForm {
    pub email: String,
    pub password: String,
}

/// How a login attempt ends.
#[derive(Clone, Copy, Debug, PartialEq, Eq, Structural)]
pub enum LoginOutcome {
    /// Too many failed attempts: refused before the password is looked at.
    RateLimited,
    /// The user exists and the password is right: a token is issued and the
    /// count of failed attempts is cleared.
    Granted,
    /// Anything else: the attempt is counted as failed.
    Denied,
}

/// The outcome of an attempt, given the failed attempts counted so far,
/// whether the address belongs to a user and whether the password verified.
pub open spec fn outcome_of(attempts: i32, user_exists: bool, password_valid: bool)
    -> LoginOutcome {
    if attempts >= MAX_LOGIN_ATTEMPTS {
        LoginOutcome::RateLimited
    } else if user_exists && password_valid {
        LoginOutcome::Granted
    } else {
        LoginOutcome::Denied
    }
}

/// Whether an address with this many failed attempts is locked out.
pub fn is_rate_limited(attempts: i32) -> (limited: bool)
    ensures
        limited == (attempts >= MAX_LOGIN_ATTEMPTS),
{
    attempts >= MAX_LOGIN_ATTEMPTS
}

/// Decides a login attempt.
pub fn login_outcome(attempts: i32, user_exists: bool, password_valid: bool) -> (outcome:
    LoginOutcome)
    ensures
        outcome == outcome_of(attempts, user_exists, password_valid),
{
    if is_rate_limited(attempts) {
        LoginOutcome::RateLimited
    } else if user_exists && password_valid {
        LoginOutcome::Granted
    } else {
        LoginOutcome::Denied
    }
}

impl LoginForm {
    /// The key under which the failed attempts of this form's address are
    /// counted.
    pub fn rate_limit_key(&self) -> (key: String)
        ensures
            key@ == "login_attempts:"@ + self.email@,
    {
        let mut key = "login_attempts:".to_owned();
        key.append(self.email.as_str());
        key
    }
}

} // verus!
