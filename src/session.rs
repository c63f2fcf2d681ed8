//! Browser sessions and their move to `Auth`.

use vstd::prelude::*;
use crate::error::{ErrorResponse, ErrorResponseType};
use crate::text::copy_strings;
use crate::user::User;

verus! {

/// Where a session stands. A session only moves forward: `Init` to `Auth`.
#[derive(Debug, Clone, Copy, PartialEq, Eq, Structural)]
pub enum SessionState {
    Init,
    Auth,
    LoggedOut,
    Unknown,
}

/// A browser session.
#[derive(Debug, Clone)]
pub struct Session {
    pub id: String,
    pub csrf_token: String,
    pub state: SessionState,
    /// Set when a second-factor ceremony begins for this session.
    pub is_mfa: bool,
    pub user_id: Option<String>,
    pub roles: Option<Vec<String>>,
    pub groups: Option<Vec<String>>,
    pub last_seen: i64,
    pub exp: i64,
}

/// `new` is `old` moved to `Auth` for `user` at `now`: bound to the user,
/// with the user's roles and groups, seen at `now`, the rest kept.
pub open spec fn authenticated_from(new: Session, old: Session, user: User, now: i64) -> bool {
    &&& new.state == SessionState::Auth
    &&& new.user_id matches Some(u) && u@ == user.id@
    &&& new.roles matches Some(v) && v@ == user.roles@
    &&& new.groups matches Some(v) && v@ == user.groups@
    &&& new.last_seen == now
    &&& new.id == old.id
    &&& new.csrf_token == old.csrf_token
    &&& new.is_mfa == old.is_mfa
    &&& new.exp == old.exp
}

impl Session {
    /// Marks the session as one with a second factor.
    pub fn set_mfa(&mut self, mfa: bool)
        ensures
            *final(self) == (Session { is_mfa: mfa, ..*old(self) }),
    {
        self.is_mfa = mfa;
    }

    /// Fails with `Unauthorized` where the user has expired at `now`.
    pub fn validate_user_expiry(&self, user: &User, now: i64) -> (r: Result<(), ErrorResponse>)
        ensures
            r is Ok <==> !user.is_expired(now),
            r matches Err(e) ==> e.error == ErrorResponseType::Unauthorized,
    {
        match user.user_expires {
            Some(e) if e < now => Err(
                ErrorResponse::with(ErrorResponseType::Unauthorized, "User has expired"),
            ),
            _ => Ok(()),
        }
    }

    /// Binds the session to `user` and moves it to `Auth`; where the user
    /// has expired, fails and leaves the session as it was.
    pub fn authenticate(&mut self, user: &User, now: i64) -> (r: Result<(), ErrorResponse>)
        ensures
            r is Ok <==> !user.is_expired(now),
            r is Err ==> *final(self) == *old(self),
            r matches Err(e) ==> e.error == ErrorResponseType::Unauthorized,
            r is Ok ==> authenticated_from(*final(self), *old(self), *user, now),
    {
        self.validate_user_expiry(user, now)?;
        self.last_seen = now;
        self.state = SessionState::Auth;
        self.user_id = Some(user.id.clone());
        self.roles = Some(copy_strings(&user.roles));
        self.groups = Some(copy_strings(&user.groups));
        Ok(())
    }
}

} // verus!
