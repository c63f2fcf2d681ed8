//! User accounts and the checks that precede a login.

use vstd::prelude::*;
use crate::error::{ErrorResponse, ErrorResponseType};

verus! {

/// How a user may log in.
#[derive(Debug, Clone, Copy, PartialEq, Eq, Structural)]
pub enum AccountType {
    /// Neither a password nor a passkey yet: cannot authenticate.
    New,
    Password,
    /// Passkey only: no password hash is stored.
    Passkey,
    PasswordPasskey,
}

/// A custom user attribute: its name and its value as JSON text.
#[derive(Debug, Clone)]
pub struct UserAttr {
    pub name: String,
    pub value: Vec<u8>,
}

/// A user account.
#[derive(Debug, Clone)]
pub struct User {
    pub id: String,
    /// The login identifier, and `sub` of access tokens.
    pub email: String,
    pub email_verified: bool,
    pub given_name: String,
    pub family_name: String,
    /// The password hash; absent for a passkey-only account.
    pub password: Option<String>,
    pub webauthn_enabled: bool,
    pub enabled: bool,
    pub user_expires: Option<i64>,
    pub last_login: Option<i64>,
    pub last_failed_login: Option<i64>,
    pub failed_login_attempts: Option<i64>,
    pub roles: Vec<String>,
    pub groups: Vec<String>,
    pub attributes: Vec<UserAttr>,
}

/// The one message of every failed credential check.
pub open spec fn invalid_credentials_msg() -> Seq<char> {
    "Invalid user credentials"@
}

/// The error of every failed credential check, whatever its cause.
pub fn invalid_credentials() -> (r: ErrorResponse)
    ensures
        r.error == ErrorResponseType::Unauthorized,
        r.message@ == invalid_credentials_msg(),
{
    ErrorResponse::with(ErrorResponseType::Unauthorized, "Invalid user credentials")
}

/// The account type follows from a stored password hash and passkeys.
pub open spec fn account_type_of(has_password: bool, has_webauthn: bool) -> AccountType {
    if has_password && has_webauthn {
        AccountType::PasswordPasskey
    } else if has_password {
        AccountType::Password
    } else if has_webauthn {
        AccountType::Passkey
    } else {
        AccountType::New
    }
}

impl User {
    pub open spec fn spec_account_type(&self) -> AccountType {
        account_type_of(self.password is Some, self.webauthn_enabled)
    }

    /// The account has expired at `now`.
    pub open spec fn is_expired(&self, now: i64) -> bool {
        self.user_expires matches Some(e) && e < now
    }

    pub fn account_type(&self) -> (r: AccountType)
        ensures
            r == self.spec_account_type(),
    {
        if self.password.is_some() && self.webauthn_enabled {
            AccountType::PasswordPasskey
        } else if self.password.is_some() {
            AccountType::Password
        } else if self.webauthn_enabled {
            AccountType::Passkey
        } else {
            AccountType::New
        }
    }

    pub fn has_webauthn_enabled(&self) -> (r: bool)
        ensures
            r == self.webauthn_enabled,
    {
        self.webauthn_enabled
    }

    /// Fails, with the credentials message, for a disabled user.
    pub fn check_enabled(&self) -> (r: Result<(), ErrorResponse>)
        ensures
            r is Ok <==> self.enabled,
            r matches Err(e) ==> e.error == ErrorResponseType::Unauthorized && e.message@
                == invalid_credentials_msg(),
    {
        if self.enabled {
            Ok(())
        } else {
            Err(invalid_credentials())
        }
    }

    /// Fails, with the credentials message, for a user expired at `now`.
    pub fn check_expired(&self, now: i64) -> (r: Result<(), ErrorResponse>)
        ensures
            r is Ok <==> !self.is_expired(now),
            r matches Err(e) ==> e.error == ErrorResponseType::Unauthorized && e.message@
                == invalid_credentials_msg(),
    {
        match self.user_expires {
            Some(e) if e < now => Err(invalid_credentials()),
            _ => Ok(()),
        }
    }

    /// Records a successful login at `now`: clears the failure counters.
    pub fn record_login_success(&mut self, now: i64)
        ensures
            *final(self) == (User {
                last_login: Some(now),
                last_failed_login: None,
                failed_login_attempts: None,
                ..*old(self)
            }),
    {
        self.last_login = Some(now);
        self.last_failed_login = None;
        self.failed_login_attempts = None;
    }

    /// Records a failed login at `now`: one more failed attempt.
    pub fn record_login_failure(&mut self, now: i64)
        ensures
            *final(self) == (User {
                last_failed_login: Some(now),
                failed_login_attempts: Some(
                    match old(self).failed_login_attempts {
                        Some(n) => if n < i64::MAX { (n + 1) as i64 } else { n },
                        None => 1,
                    },
                ),
                ..*old(self)
            }),
    {
        let attempts = match self.failed_login_attempts {
            Some(n) => if n < i64::MAX { n + 1 } else { n },
            None => 1,
        };
        self.last_failed_login = Some(now);
        self.failed_login_attempts = Some(attempts);
    }
}

} // verus!
