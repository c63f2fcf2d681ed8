//! The timing equalizer of failed logins.

use vstd::prelude::*;

verus! {

/// The average successful login time, in milliseconds, before any was
/// measured.
pub const DEFAULT_LOGIN_TIME_MS: u64 = 2000;

/// What the equalizer decides for one finished login.
#[derive(Debug, Clone, Copy, PartialEq, Eq, Structural)]
pub struct LoginDelay {
    /// The new average successful login time to store, if it changes.
    pub new_average_ms: Option<u64>,
    /// How long to wait before answering.
    pub sleep_ms: u64,
}

/// The average successful login time: the stored one, or the default.
pub open spec fn current_average(stored: Option<u64>) -> int {
    match stored {
        Some(a) => a as int,
        None => DEFAULT_LOGIN_TIME_MS as int,
    }
}

/// The equalizer's decision. A success that hashed a password moves the
/// average halfway to the time it took and waits for nothing; a success
/// without hashing changes nothing; a failure waits until the average
/// successful login time has passed.
pub open spec fn login_delay_spec(
    stored: Option<u64>,
    elapsed_ms: u64,
    succeeded: bool,
    password_was_hashed: bool,
) -> LoginDelay {
    let avg = current_average(stored);
    if succeeded {
        if password_was_hashed {
            LoginDelay { new_average_ms: Some(((avg + elapsed_ms) / 2) as u64), sleep_ms: 0 }
        } else {
            LoginDelay { new_average_ms: None, sleep_ms: 0 }
        }
    } else {
        LoginDelay {
            new_average_ms: None,
            sleep_ms: if (elapsed_ms as int) < avg {
                (avg - elapsed_ms) as u64
            } else {
                0
            },
        }
    }
}

/// Decides the delay of a login that took `elapsed_ms`, given the stored
/// average successful login time.
pub fn handle_login_delay(
    stored_average_ms: Option<u64>,
    elapsed_ms: u64,
    succeeded: bool,
    password_was_hashed: bool,
) -> (r: LoginDelay)
    ensures
        r == login_delay_spec(stored_average_ms, elapsed_ms, succeeded, password_was_hashed),
{
    let avg = match stored_average_ms {
        Some(a) => a,
        None => DEFAULT_LOGIN_TIME_MS,
    };
    if succeeded {
        if password_was_hashed {
            let sum = avg as u128 + elapsed_ms as u128;
            LoginDelay { new_average_ms: Some((sum / 2) as u64), sleep_ms: 0 }
        } else {
            LoginDelay { new_average_ms: None, sleep_ms: 0 }
        }
    } else {
        LoginDelay {
            new_average_ms: None,
            sleep_ms: if elapsed_ms < avg {
                avg - elapsed_ms
            } else {
                0
            },
        }
    }
}

/// A failed login is answered no sooner than the average successful login
/// time: its time with the delay is the larger of the two, so a failure
/// that ends early, as for an unknown user, looks like a success.
pub proof fn lemma_failure_time_equalized(stored: Option<u64>, elapsed_ms: u64)
    ensures
        ({
            let d = login_delay_spec(stored, elapsed_ms, false, false);
            &&& elapsed_ms + d.sleep_ms >= current_average(stored)
            &&& elapsed_ms + d.sleep_ms == if (elapsed_ms as int) < current_average(stored) {
                current_average(stored)
            } else {
                elapsed_ms as int
            }
            &&& d.new_average_ms is None
        }),
{
}

} // verus!
