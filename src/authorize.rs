//! The login state machine.

use vstd::prelude::*;
use crate::auth_code::{has_code, AuthCode, AuthCodeStore};
use crate::client::{valid_time, Client, MAX_LIFETIME};
use crate::error::{ErrorResponse, ErrorResponseType};
use crate::pkce::{challenge_method_named, ChallengeMethod};
use crate::session::Session;
use crate::text::{str_eq, views};
use crate::user::{invalid_credentials, invalid_credentials_msg, AccountType, User};

verus! {

/// The form of a login.
#[derive(Debug, Clone)]
pub struct LoginRequest {
    pub email: String,
    pub password: Option<String>,
    pub client_id: String,
    pub redirect_uri: String,
    pub scopes: Vec<String>,
    pub nonce: Option<String>,
    pub state: Option<String>,
    pub code_challenge: Option<String>,
    pub code_challenge_method: Option<String>,
}

/// A login waiting for its second factor, found again by `code`.
#[derive(Debug, Clone)]
pub struct WebauthnLoginReq {
    pub code: String,
    pub user_id: String,
    /// Where the login redirects once the second factor is verified.
    pub header_loc: String,
    pub header_origin: Option<String>,
}

/// A finished login: redirect to `header_loc`.
#[derive(Debug, Clone)]
pub struct AuthStepLoggedIn {
    pub has_password_been_hashed: bool,
    pub header_loc: String,
    pub header_csrf: String,
    pub header_origin: Option<String>,
}

/// A login that waits for the second factor.
#[derive(Debug, Clone)]
pub struct AuthStepAwaitWebauthn {
    pub has_password_been_hashed: bool,
    pub code: String,
    pub header_csrf: String,
    pub header_origin: Option<String>,
    pub user_id: String,
    pub email: String,
    /// Seconds the ceremony may take.
    pub exp: i64,
    /// To be stored under `code`.
    pub login_req: WebauthnLoginReq,
}

/// Where a login ends.
#[derive(Debug, Clone)]
pub enum AuthStep {
    LoggedIn(AuthStepLoggedIn),
    AwaitWebauthn(AuthStepAwaitWebauthn),
}

/// The redirect location `redirect_uri?code=<code>[&state=<state>]`.
pub open spec fn location(redirect: Seq<char>, code: Seq<char>, state: Option<String>) -> Seq<char> {
    redirect + "?code="@ + code + match state {
        Some(s) => "&state="@ + s@,
        None => Seq::empty(),
    }
}

/// A second-factor cookie counts where it is bound to the user's email and
/// the user has passkeys.
pub open spec fn mfa_cookie_valid(u: User, cookie_email: Option<&str>) -> bool {
    cookie_email matches Some(c) && c@ == u.email@ && u.webauthn_enabled
}

/// The user and the credentials do not allow a login. Every such case
/// fails with the same error.
pub open spec fn login_refused(
    user: Option<User>,
    password: Option<String>,
    password_valid: bool,
    cookie_email: Option<&str>,
    now: i64,
) -> bool {
    match user {
        None => true,
        Some(u) => {
            ||| !u.enabled
            ||| u.is_expired(now)
            ||| u.spec_account_type() == AccountType::New
            ||| (password is None && u.spec_account_type() != AccountType::Passkey
                && !mfa_cookie_valid(u, cookie_email))
            ||| (password is Some && !password_valid)
        },
    }
}

/// The challenge method a request asks for: `plain` where it names none.
pub open spec fn requested_method(m: Option<String>) -> Option<ChallengeMethod> {
    match m {
        None => Some(ChallengeMethod::Plain),
        Some(s) => challenge_method_named(s@),
    }
}

/// The request's challenge does not fit the client.
pub open spec fn challenge_refused(client: Client, req: LoginRequest) -> bool {
    req.code_challenge is Some && (client.challenge@.len() == 0 || match requested_method(
        req.code_challenge_method,
    ) {
        None => true,
        Some(m) => !client.challenge@.contains(m),
    })
}

/// The origin does not fit the client.
pub open spec fn origin_refused(client: Client, origin: Option<&str>) -> bool {
    origin matches Some(o) && !(exists|i: int|
        0 <= i < client.allowed_origins@.len() && (#[trigger] client.allowed_origins@[i])@ == o@)
}

/// Lifetime of the code: the client's, plus the time of the second-factor
/// ceremony where there is one.
pub open spec fn code_lifetime(client: Client, u: User, webauthn_req_exp: i64) -> int {
    client.auth_code_lifetime + if u.webauthn_enabled {
        webauthn_req_exp as int
    } else {
        0
    }
}

/// Runs a login to its end or to the second factor.
///
/// `user` is the account found by the request's email; `password_valid` the
/// verdict of the password hash check where a password was sent;
/// `cookie_email` the email a valid second-factor cookie is bound to;
/// `client` the client found by the request's client id (another client is
/// refused as not found). `code_id` and
/// `webauthn_code` are fresh random strings. The first result is the user as
/// it is to be stored: a password login records its time.
pub fn authorize(
    user: Option<User>,
    password_valid: bool,
    cookie_email: Option<&str>,
    client: Option<&Client>,
    origin: Option<&str>,
    session: &mut Session,
    req: &LoginRequest,
    codes: &mut AuthCodeStore,
    code_id: String,
    webauthn_code: String,
    now: i64,
    webauthn_req_exp: i64,
) -> (r: (Option<User>, Result<AuthStep, ErrorResponse>))
    requires
        old(codes).wf(),
        valid_time(now),
        0 <= webauthn_req_exp <= MAX_LIFETIME,
        client matches Some(c) ==> c.wf(),
    ensures
        final(codes).wf(),
        r.1 is Err ==> final(codes)@ == old(codes)@ && *final(session) == *old(session),
        login_refused(user, req.password, password_valid, cookie_email, now) ==> {
            &&& r.1 matches Err(e) && e.error == ErrorResponseType::Unauthorized && e.message@
                == invalid_credentials_msg()
            &&& r.0 == user
        },
        !login_refused(user, req.password, password_valid, cookie_email, now) ==> {
            let u = user->Some_0;
            &&& req.password is Some ==> r.0 == Some(
                User { last_login: Some(now), last_failed_login: None, failed_login_attempts: None, ..u },
            )
            &&& req.password is None ==> r.0 == user
            &&& client is None ==> (r.1 matches Err(e) && e.error == ErrorResponseType::NotFound)
            &&& client matches Some(c) ==> (c.id@ != req.client_id@ ==> (r.1 matches Err(e) && e.error
                == ErrorResponseType::NotFound))
            &&& client matches Some(c) ==> c.id@ == req.client_id@ ==> {
                &&& origin_refused(*c, origin) ==> (r.1 matches Err(e) && e.error
                    == ErrorResponseType::BadRequest)
                &&& !origin_refused(*c, origin) && challenge_refused(*c, *req) ==> (r.1 matches Err(e)
                    && e.error == ErrorResponseType::BadRequest)
                &&& !origin_refused(*c, origin) && !challenge_refused(*c, *req) && has_code(
                    old(codes)@,
                    code_id@,
                ) ==> (r.1 matches Err(e) && e.error == ErrorResponseType::Internal)
                &&& !origin_refused(*c, origin) && !challenge_refused(*c, *req) && !has_code(
                    old(codes)@,
                    code_id@,
                ) ==> r.1 is Ok
                &&& r.1 is Ok ==> {
                    let code = final(codes)@.last();
                    let loc = location(req.redirect_uri@, code_id@, req.state);
                    &&& final(codes)@ == old(codes)@.push(code)
                    &&& code.id == code_id
                    &&& code.user_id@ == u.id@
                    &&& code.client_id@ == c.id@
                    &&& code.session_id matches Some(sid) && sid@ == old(session).id@
                    &&& code.challenge == req.code_challenge
                    &&& code.challenge_method == if req.code_challenge is Some {
                        requested_method(req.code_challenge_method)
                    } else {
                        None
                    }
                    &&& code.nonce == req.nonce
                    &&& views(code.scopes@) == c.spec_login_scopes(views(req.scopes@))
                    &&& code.exp == now + code_lifetime(*c, u, webauthn_req_exp)
                    &&& if u.webauthn_enabled {
                        &&& *final(session) == (Session { is_mfa: true, ..*old(session) })
                        &&& r.1 matches Ok(AuthStep::AwaitWebauthn(w)) && {
                            &&& w.code == webauthn_code
                            &&& w.has_password_been_hashed == req.password is Some
                            &&& w.user_id@ == u.id@
                            &&& w.email@ == u.email@
                            &&& w.exp == webauthn_req_exp
                            &&& w.header_csrf@ == old(session).csrf_token@
                            &&& w.login_req.code == webauthn_code
                            &&& w.login_req.user_id@ == u.id@
                            &&& w.login_req.header_loc@ == loc
                            &&& w.header_origin == w.login_req.header_origin
                            &&& origin matches Some(o) ==> (w.header_origin matches Some(h)
                                && h@ == o@)
                            &&& origin is None ==> w.header_origin is None
                        }
                    } else {
                        &&& *final(session) == *old(session)
                        &&& r.1 matches Ok(AuthStep::LoggedIn(l)) && {
                            &&& l.has_password_been_hashed == req.password is Some
                            &&& l.header_loc@ == loc
                            &&& l.header_csrf@ == old(session).csrf_token@
                            &&& origin matches Some(o) ==> (l.header_origin matches Some(h)
                                && h@ == o@)
                            &&& origin is None ==> l.header_origin is None
                        }
                    }
                }
            }
        },
{
    let mut u = match user {
        None => {
            return (None, Err(invalid_credentials()));
        },
        Some(u) => u,
    };
    let ghost u0 = u;
    if u.check_enabled().is_err() || u.check_expired(now).is_err() || u.account_type()
        == AccountType::New {
        return (Some(u), Err(invalid_credentials()));
    }
    let cookie_valid = match cookie_email {
        Some(c) => str_eq(c, u.email.as_str()) && u.webauthn_enabled,
        None => false,
    };
    if req.password.is_none() && u.account_type() != AccountType::Passkey && !cookie_valid {
        return (Some(u), Err(invalid_credentials()));
    }
    let hashed = req.password.is_some();
    if hashed {
        if !password_valid {
            return (Some(u), Err(invalid_credentials()));
        }
        u.record_login_success(now);
    }
    let c = match client {
        None => {
            return (
                Some(u),
                Err(ErrorResponse::with(ErrorResponseType::NotFound, "Client not found")),
            );
        },
        Some(c) => c,
    };
    if !str_eq(c.id.as_str(), req.client_id.as_str()) {
        return (
            Some(u),
            Err(ErrorResponse::with(ErrorResponseType::NotFound, "Client not found")),
        );
    }
    let header_origin = match c.validate_origin(origin) {
        Ok(h) => h,
        Err(e) => {
            return (Some(u), Err(e));
        },
    };
    let method = match &req.code_challenge {
        None => None,
        Some(_) => {
            if c.challenge.len() == 0 {
                return (
                    Some(u),
                    Err(
                        ErrorResponse::with(
                            ErrorResponseType::BadRequest,
                            "no 'code_challenge_method' allowed for this client",
                        ),
                    ),
                );
            }
            let m = match &req.code_challenge_method {
                None => ChallengeMethod::Plain,
                Some(name) => match ChallengeMethod::parse(name.as_str()) {
                    Some(m) => m,
                    None => {
                        return (
                            Some(u),
                            Err(
                                ErrorResponse::with(
                                    ErrorResponseType::BadRequest,
                                    "invalid 'code_challenge_method'",
                                ),
                            ),
                        );
                    },
                },
            };
            if let Err(e) = c.validate_challenge_method(m) {
                return (Some(u), Err(e));
            }
            Some(m)
        },
    };
    let lifetime = if u.webauthn_enabled {
        c.auth_code_lifetime + webauthn_req_exp
    } else {
        c.auth_code_lifetime
    };
    let scopes = c.sanitize_login_scopes(&req.scopes);
    let mut loc = req.redirect_uri.clone();
    loc.append("?code=");
    loc.append(code_id.as_str());
    match &req.state {
        Some(st) => {
            loc.append("&state=");
            loc.append(st.as_str());
        },
        None => {},
    }
    let code = AuthCode {
        id: code_id,
        user_id: u.id.clone(),
        client_id: c.id.clone(),
        session_id: Some(session.id.clone()),
        challenge: req.code_challenge.clone(),
        challenge_method: method,
        nonce: req.nonce.clone(),
        scopes,
        exp: now + lifetime,
    };
    if let Err(e) = codes.insert(code) {
        return (Some(u), Err(e));
    }
    if u.webauthn_enabled {
        session.set_mfa(true);
        let login_req = WebauthnLoginReq {
            code: webauthn_code.clone(),
            user_id: u.id.clone(),
            header_loc: loc,
            header_origin: header_origin.clone(),
        };
        let step = AuthStepAwaitWebauthn {
            has_password_been_hashed: hashed,
            code: webauthn_code,
            header_csrf: session.csrf_token.clone(),
            header_origin,
            user_id: u.id.clone(),
            email: u.email.clone(),
            exp: webauthn_req_exp,
            login_req,
        };
        (Some(u), Ok(AuthStep::AwaitWebauthn(step)))
    } else {
        let step = AuthStepLoggedIn {
            has_password_been_hashed: hashed,
            header_loc: loc,
            header_csrf: session.csrf_token.clone(),
            header_origin,
        };
        (Some(u), Ok(AuthStep::LoggedIn(step)))
    }
}

} // verus!
