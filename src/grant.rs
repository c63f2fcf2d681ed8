//! The token endpoint: its four grants.

use vstd::prelude::*;
use crate::auth_code::{redeem_auth_code, redeem_error_message, redeem_outcome, AuthCode, AuthCodeStore};
use crate::claims::{
    claims_valid_at, token_set_for_client, token_set_for_user, user_token_set_for, access_claims_for,
    opt_scopes, validate_claims, JwtType, RefreshClaims, Scope, TokenSetClaims,
};
use crate::client::{grant_type_named, secret_matches, valid_time, Client, GrantType, MAX_LIFETIME};
use crate::error::{ErrorResponse, ErrorResponseType};
use crate::authorize::origin_refused;
use crate::refresh::{
    check_outcome, grace_outcome, handle_of, refresh_handle, RefreshTokenStore,
    REFRESH_HANDLE_LEN,
};
use crate::session::{authenticated_from, Session};
use crate::text::{str_eq, views};
use crate::user::{invalid_credentials, invalid_credentials_msg, User};

verus! {

/// The form of a token request. The client id and secret are those of the
/// form or of the `Authorization` header.
#[derive(Debug, Clone)]
pub struct TokenRequest {
    pub grant_type: String,
    pub code: Option<String>,
    pub redirect_uri: Option<String>,
    pub client_id: String,
    pub client_secret: Option<String>,
    pub code_verifier: Option<String>,
    pub username: Option<String>,
    pub password: Option<String>,
    pub refresh_token: Option<String>,
}

/// Picks the grant a token request asks for; an unknown one is a bad
/// request.
pub fn get_token_set(req: &TokenRequest) -> (r: Result<GrantType, ErrorResponse>)
    ensures
        grant_type_named(req.grant_type@) matches Some(g) ==> r == Ok::<GrantType, ErrorResponse>(g),
        grant_type_named(req.grant_type@) is None ==> (r matches Err(e) && e.error
            == ErrorResponseType::BadRequest && e.message@ == "Invalid 'grant_type'"@),
{
    match GrantType::parse(req.grant_type.as_str()) {
        Some(g) => Ok(g),
        None => Err(ErrorResponse::with(ErrorResponseType::BadRequest, "Invalid 'grant_type'")),
    }
}

/// Why a client may not use the grant `flow`, if it may not: it is unknown
/// (`client` is not the client named `client_id`),
/// the origin is not allowed, a confidential client's secret is missing or
/// wrong, or the flow is not enabled.
pub open spec fn client_refusal(
    client: Option<&Client>,
    client_id: Seq<char>,
    origin: Option<&str>,
    secret: Option<String>,
    flow: GrantType,
) -> Option<ErrorResponseType> {
    match client {
        None => Some(ErrorResponseType::NotFound),
        Some(c) => if c.id@ != client_id {
            Some(ErrorResponseType::NotFound)
        } else if origin_refused(*c, origin) {
            Some(ErrorResponseType::BadRequest)
        } else if c.confidential && secret is None {
            Some(ErrorResponseType::BadRequest)
        } else if c.confidential && !secret_matches(c.secret_hash, secret->Some_0@) {
            Some(ErrorResponseType::Unauthorized)
        } else if !c.flows_enabled@.contains(flow) {
            Some(ErrorResponseType::BadRequest)
        } else {
            None
        },
    }
}

/// The CORS header value for an allowed origin.
pub open spec fn origin_header(h: Option<String>, origin: Option<&str>) -> bool {
    match origin {
        Some(o) => h matches Some(v) && v@ == o@,
        None => h is None,
    }
}

/// Checks the client of a token request for the grant `flow`; returns the
/// CORS header value.
pub fn check_client(
    client: Option<&Client>,
    client_id: &str,
    origin: Option<&str>,
    secret: &Option<String>,
    flow: GrantType,
) -> (r: Result<Option<String>, ErrorResponse>)
    ensures
        r is Ok <==> client_refusal(client, client_id@, origin, *secret, flow) is None,
        r matches Err(e) ==> client_refusal(client, client_id@, origin, *secret, flow) == Some(e.error),
        r matches Ok(h) ==> origin_header(h, origin),
{
    let c = match client {
        None => {
            return Err(ErrorResponse::with(ErrorResponseType::NotFound, "Client not found"));
        },
        Some(c) => c,
    };
    if !str_eq(c.id.as_str(), client_id) {
        return Err(ErrorResponse::with(ErrorResponseType::NotFound, "Client not found"));
    }
    let header = c.validate_origin(origin)?;
    if c.confidential {
        match secret {
            None => {
                return Err(
                    ErrorResponse::with(ErrorResponseType::BadRequest, "'client_secret' is missing"),
                );
            },
            Some(s) => {
                c.validate_secret(s.as_str())?;
            },
        }
    }
    c.validate_flow(flow)?;
    Ok(header)
}

/// The first step of the `authorization_code` grant: checks the request and
/// the client, then redeems the code, which leaves the store at once (see
/// `redeem_outcome`). Returns the code and the CORS header value.
pub fn grant_type_code(
    client: Option<&Client>,
    origin: Option<&str>,
    req: &TokenRequest,
    codes: &mut AuthCodeStore,
    now: i64,
) -> (r: Result<(AuthCode, Option<String>), ErrorResponse>)
    requires
        old(codes).wf(),
    ensures
        final(codes).wf(),
        req.code is None ==> (r matches Err(e) && e.error == ErrorResponseType::BadRequest
            && final(codes)@ == old(codes)@),
        req.code is Some ==> (client_refusal(client, req.client_id@, origin, req.client_secret, GrantType::AuthorizationCode) matches Some(k)
            ==> (r matches Err(e) && e.error == k && final(codes)@ == old(codes)@)),
        client_refusal(client, req.client_id@, origin, req.client_secret, GrantType::AuthorizationCode) is None ==> (req.code matches Some(id)
            ==> {
            let outcome = redeem_outcome(
                old(codes)@,
                id@,
                client->Some_0.id@,
                match req.code_verifier {
                    Some(v) => Some(v@),
                    None => None,
                },
                now as int,
            );
            &&& final(codes)@ == outcome.0
            &&& match r {
                Ok((code, h)) => outcome.1 == Ok::<AuthCode, ErrorResponseType>(code) && origin_header(h, origin),
                Err(e) => outcome.1 == Err::<AuthCode, ErrorResponseType>(e.error) && e.message@
                    == redeem_error_message(
                    old(codes)@,
                    id@,
                    client->Some_0.id@,
                    match req.code_verifier {
                        Some(v) => Some(v@),
                        None => None,
                    },
                    now as int,
                ),
            }
        }),
{
    let id = match &req.code {
        None => {
            return Err(ErrorResponse::with(ErrorResponseType::BadRequest, "'code' is missing"));
        },
        Some(id) => id,
    };
    let header = check_client(client, req.client_id.as_str(), origin, &req.client_secret, GrantType::AuthorizationCode)?;
    let c = match client {
        Some(c) => c,
        None => {
            return Err(ErrorResponse::with(ErrorResponseType::NotFound, "Client not found"));
        },
    };
    let verifier = match &req.code_verifier {
        Some(v) => Some(v.as_str()),
        None => None,
    };
    let code = redeem_auth_code(codes, id.as_str(), c.id.as_str(), verifier, now)?;
    Ok((code, header))
}

/// The second step of the `authorization_code` grant, for the redeemed
/// `code`, its `user` and the session it is bound to, if any: moves that
/// session to `Auth` and mints the token set with the code's scopes and
/// nonce. Where the user has expired the session stays as it was and the
/// error is `Unauthorized`; the code is gone either way.
pub fn finish_code_grant(
    code: &AuthCode,
    user: &User,
    client: &Client,
    session: Option<Session>,
    issuer: &str,
    now: i64,
    scope_customs: Option<&Vec<Scope>>,
) -> (r: (Option<Session>, Result<TokenSetClaims, ErrorResponse>))
    requires
        client.wf(),
        valid_time(now),
    ensures
        session is None ==> r.0 is None,
        session is Some && user.is_expired(now) ==> r.0 == session && (r.1 matches Err(e) && e.error
            == ErrorResponseType::Unauthorized),
        !(session is Some && user.is_expired(now)) ==> (r.1 matches Ok(ts) && user_token_set_for(
            ts,
            *user,
            *client,
            issuer@,
            now as int,
            code.nonce,
            Some(views(code.scopes@)),
            opt_scopes(scope_customs),
            true,
        )),
        !user.is_expired(now) ==> (session matches Some(s) ==> (r.0 matches Some(s2)
            && authenticated_from(s2, s, *user, now))),
{
    let mut out_session = session;
    match out_session {
        Some(mut s) => {
            match s.authenticate(user, now) {
                Ok(()) => {
                    out_session = Some(s);
                },
                Err(e) => {
                    return (Some(s), Err(e));
                },
            }
        },
        None => {},
    }
    let ts = token_set_for_user(
        user,
        client,
        issuer,
        now,
        code.nonce.clone(),
        Some(&code.scopes),
        scope_customs,
        true,
    );
    (out_session, Ok(ts))
}

/// The `client_credentials` grant: only a confidential, enabled client with
/// its secret gets an access token for itself, and nothing else.
pub fn grant_type_credentials(
    client: Option<&Client>,
    req: &TokenRequest,
    issuer: &str,
    now: i64,
) -> (r: Result<TokenSetClaims, ErrorResponse>)
    requires
        client matches Some(c) ==> c.wf(),
        valid_time(now),
    ensures
        req.client_secret is None ==> (r matches Err(e) && e.error == ErrorResponseType::BadRequest),
        req.client_secret matches Some(secret) ==> match client {
            None => r matches Err(e) && e.error == ErrorResponseType::NotFound,
            Some(c) => if c.id@ != req.client_id@ {
                r matches Err(e) && e.error == ErrorResponseType::NotFound
            } else if !c.confidential || !c.enabled {
                r matches Err(e) && e.error == ErrorResponseType::BadRequest
            } else if !secret_matches(c.secret_hash, secret@) {
                r matches Err(e) && e.error == ErrorResponseType::Unauthorized
            } else if !c.flows_enabled@.contains(GrantType::ClientCredentials) {
                r matches Err(e) && e.error == ErrorResponseType::BadRequest
            } else {
                r matches Ok(ts) && access_claims_for(ts.access, None, *c, issuer@, now as int, None, None)
                    && ts.id is None && ts.refresh is None && views(ts.scopes@) == views(c.default_scopes@)
            },
        },
{
    let secret = match &req.client_secret {
        None => {
            return Err(ErrorResponse::with(ErrorResponseType::BadRequest, "'client_secret' is missing"));
        },
        Some(s) => s,
    };
    let c = match client {
        None => {
            return Err(ErrorResponse::with(ErrorResponseType::NotFound, "Client not found"));
        },
        Some(c) => c,
    };
    if !str_eq(c.id.as_str(), req.client_id.as_str()) {
        return Err(ErrorResponse::with(ErrorResponseType::NotFound, "Client not found"));
    }
    if !c.confidential {
        return Err(
            ErrorResponse::with(
                ErrorResponseType::BadRequest,
                "'client_credentials' flow is allowed for confidential clients only",
            ),
        );
    }
    if !c.enabled {
        return Err(ErrorResponse::with(ErrorResponseType::BadRequest, "client is disabled"));
    }
    c.validate_secret(secret.as_str())?;
    c.validate_flow(GrantType::ClientCredentials)?;
    Ok(token_set_for_client(c, issuer, now))
}

/// The result of a password grant that succeeded.
#[derive(Debug, Clone)]
pub struct PasswordGrant {
    pub token_set: TokenSetClaims,
    pub header_origin: Option<String>,
    /// The stored hash uses weaker parameters than configured: hash the
    /// password anew and store it.
    pub rehash_password: bool,
}

/// The `password` grant. `user` is the account found by the username,
/// `password_valid` the verdict of the hash check, `hash_uptodate` whether
/// the stored hash uses the configured parameters. An unknown user, a
/// disabled or expired one and a wrong password all fail with the same
/// error. The first result is the user as it is to be stored: a login
/// records its time, a wrong password one more failed attempt.
pub fn grant_type_password(
    client: Option<&Client>,
    origin: Option<&str>,
    req: &TokenRequest,
    user: Option<User>,
    password_valid: bool,
    hash_uptodate: bool,
    issuer: &str,
    now: i64,
    scope_customs: Option<&Vec<Scope>>,
) -> (r: (Option<User>, Result<PasswordGrant, ErrorResponse>))
    requires
        client matches Some(c) ==> c.wf(),
        valid_time(now),
    ensures
        (req.username is None || req.password is None) ==> (r.1 matches Err(e) && e.error
            == ErrorResponseType::BadRequest && r.0 == user),
        req.username is Some && req.password is Some ==> (client_refusal(client, req.client_id@, origin, req.client_secret, GrantType::Password) matches Some(k)
            ==> (r.1 matches Err(e) && e.error == k && r.0 == user)),
        req.username is Some && req.password is Some && client_refusal(client, req.client_id@, origin, req.client_secret, GrantType::Password) is None
            ==> match user {
            None => r.0 is None && (r.1 matches Err(e) && e.error == ErrorResponseType::Unauthorized
                && e.message@ == invalid_credentials_msg()),
            Some(u) => if !u.enabled || u.is_expired(now) {
                r.0 == user && (r.1 matches Err(e) && e.error == ErrorResponseType::Unauthorized
                    && e.message@ == invalid_credentials_msg())
            } else if !password_valid {
                &&& r.1 matches Err(e) && e.error == ErrorResponseType::Unauthorized
                    && e.message@ == invalid_credentials_msg()
                &&& r.0 == Some(
                    User {
                        last_failed_login: Some(now),
                        failed_login_attempts: Some(
                            match u.failed_login_attempts {
                                Some(n) => if n < i64::MAX { (n + 1) as i64 } else { n },
                                None => 1i64,
                            },
                        ),
                        ..u
                    },
                )
            } else {
                let v = User { last_login: Some(now), last_failed_login: None, failed_login_attempts: None, ..u };
                &&& r.0 == Some(v)
                &&& r.1 matches Ok(g) && user_token_set_for(
                    g.token_set,
                    v,
                    *client->Some_0,
                    issuer@,
                    now as int,
                    None,
                    None,
                    opt_scopes(scope_customs),
                    false,
                ) && origin_header(g.header_origin, origin) && g.rehash_password == !hash_uptodate
            },
        },
{
    if req.username.is_none() {
        return (user, Err(ErrorResponse::with(ErrorResponseType::BadRequest, "Missing 'username'")));
    }
    if req.password.is_none() {
        return (user, Err(ErrorResponse::with(ErrorResponseType::BadRequest, "Missing 'password'")));
    }
    let header = match check_client(client, req.client_id.as_str(), origin, &req.client_secret, GrantType::Password) {
        Ok(h) => h,
        Err(e) => {
            return (user, Err(e));
        },
    };
    let c = match client {
        Some(c) => c,
        None => {
            return (user, Err(ErrorResponse::with(ErrorResponseType::NotFound, "Client not found")));
        },
    };
    let mut u = match user {
        None => {
            return (None, Err(invalid_credentials()));
        },
        Some(u) => u,
    };
    if u.check_enabled().is_err() || u.check_expired(now).is_err() {
        return (Some(u), Err(invalid_credentials()));
    }
    if !password_valid {
        u.record_login_failure(now);
        return (Some(u), Err(invalid_credentials()));
    }
    u.record_login_success(now);
    let ts = token_set_for_user(&u, c, issuer, now, None, None, scope_customs, false);
    (Some(u), Ok(PasswordGrant { token_set: ts, header_origin: header, rehash_password: !hash_uptodate }))
}

/// The first step of the `refresh_token` grant: checks the request and the
/// client; returns the presented token and the CORS header value.
pub fn grant_type_refresh(
    client: Option<&Client>,
    origin: Option<&str>,
    req: &TokenRequest,
) -> (r: Result<(String, Option<String>), ErrorResponse>)
    ensures
        req.refresh_token is None ==> (r matches Err(e) && e.error == ErrorResponseType::BadRequest),
        req.refresh_token matches Some(t) ==> match client_refusal(client, req.client_id@, origin, req.client_secret, GrantType::RefreshToken) {
            Some(k) => r matches Err(e) && e.error == k,
            None => r matches Ok((tok, h)) && tok@ == t@ && origin_header(h, origin),
        },
{
    let token = match &req.refresh_token {
        None => {
            return Err(ErrorResponse::with(ErrorResponseType::BadRequest, "'refresh_token' is missing"));
        },
        Some(t) => t,
    };
    let header = check_client(client, req.client_id.as_str(), origin, &req.client_secret, GrantType::RefreshToken)?;
    Ok((token.clone(), header))
}

/// Why a refresh token is refused before its record is looked at, if it is:
/// its claims are not valid at `now` or not from `issuer`, it is not a
/// refresh token, it is for another client, or it is too short to have a
/// handle.
pub open spec fn refresh_claims_refusal(
    claims: RefreshClaims,
    client: Client,
    token: Seq<char>,
    issuer: Seq<char>,
    now: int,
) -> Option<ErrorResponseType> {
    if !claims_valid_at(claims.common, issuer, now) {
        Some(ErrorResponseType::Unauthorized)
    } else if claims.typ != JwtType::Refresh {
        Some(ErrorResponseType::BadRequest)
    } else if claims.azp@ != client.id@ {
        Some(ErrorResponseType::BadRequest)
    } else if token.len() < REFRESH_HANDLE_LEN {
        Some(ErrorResponseType::BadRequest)
    } else {
        None
    }
}

/// Redeems a refresh token whose signature was verified and whose claims
/// are `claims`, for `client`; `user` is the account of the claims' `uid`.
///
/// Its record must exist and be unexpired; an expired record is misuse, and
/// drops every record of its user (see `check_outcome`). The user must be
/// enabled and unexpired. Then the user's login time is recorded, the grace
/// rule shortens the record's life (see `grace_outcome`), and a new token
/// set is minted with the record's scopes and second-factor flag.
pub fn validate_refresh_token(
    store: &mut RefreshTokenStore,
    client: &Client,
    claims: &RefreshClaims,
    token: &str,
    user: Option<User>,
    issuer: &str,
    now: i64,
    grace: i64,
    scope_customs: Option<&Vec<Scope>>,
) -> (r: (Option<User>, Result<TokenSetClaims, ErrorResponse>))
    requires
        old(store).wf(),
        client.wf(),
        valid_time(now),
        0 <= grace <= MAX_LIFETIME,
    ensures
        final(store).wf(),
        refresh_claims_refusal(*claims, *client, token@, issuer@, now as int) matches Some(k) ==> (
        r.1 matches Err(e) && e.error == k && final(store)@ == old(store)@ && r.0 == user),
        refresh_claims_refusal(*claims, *client, token@, issuer@, now as int) is None ==> {
            let h = refresh_handle(token@);
            let checked = check_outcome(old(store)@, h, now as int);
            match checked.1 {
                Err(k) => r.1 matches Err(e) && e.error == k && final(store)@ == checked.0 && r.0 == user,
                Ok(rt) => match user {
                    None => r.1 matches Err(e) && e.error == ErrorResponseType::NotFound && final(store)@ == old(store)@
                        && r.0 is None,
                    Some(u) => if !u.enabled || u.is_expired(now) {
                        r.1 matches Err(e) && e.error == ErrorResponseType::Unauthorized
                            && final(store)@ == old(store)@ && r.0 == user
                    } else {
                        let v = User { last_login: Some(now), ..u };
                        &&& r.0 == Some(v)
                        &&& final(store)@ == grace_outcome(old(store)@, h, now as int, grace as int)
                        &&& r.1 matches Ok(ts) && user_token_set_for(
                            ts,
                            v,
                            *client,
                            issuer@,
                            now as int,
                            None,
                            match rt.scopes {
                                Some(s) => Some(views(s@)),
                                None => None,
                            },
                            opt_scopes(scope_customs),
                            rt.is_mfa,
                        )
                    }
                },
            }
        },
{
    if let Err(e) = validate_claims(&claims.common, issuer, now) {
        return (user, Err(e));
    }
    if claims.typ != JwtType::Refresh {
        return (
            user,
            Err(
                ErrorResponse::with(
                    ErrorResponseType::BadRequest,
                    "Provided Token is not a valid refresh token",
                ),
            ),
        );
    }
    if !str_eq(client.id.as_str(), claims.azp.as_str()) {
        return (user, Err(ErrorResponse::with(ErrorResponseType::BadRequest, "'client_id' does not match")));
    }
    let handle = match handle_of(token) {
        Ok(h) => h,
        Err(e) => {
            return (user, Err(e));
        },
    };
    let rt = match store.check_handle(handle.as_str(), now) {
        Ok(rt) => rt,
        Err(e) => {
            return (user, Err(e));
        },
    };
    let mut u = match user {
        None => {
            return (None, Err(ErrorResponse::with(ErrorResponseType::NotFound, "User not found")));
        },
        Some(u) => u,
    };
    if u.check_enabled().is_err() || u.check_expired(now).is_err() {
        return (Some(u), Err(invalid_credentials()));
    }
    u.last_login = Some(now);
    store.apply_grace(handle.as_str(), now, grace);
    let ts = match &rt.scopes {
        Some(s) => token_set_for_user(&u, client, issuer, now, None, Some(s), scope_customs, rt.is_mfa),
        None => token_set_for_user(&u, client, issuer, now, None, None, scope_customs, rt.is_mfa),
    };
    (Some(u), Ok(ts))
}

/// A refresh token redeems once. Where `validate_refresh_token` succeeded
/// with `token` at `t1` (its record passed `check_outcome` and the store
/// became `grace_outcome`), presenting the same token again after the grace
/// time, with claims still valid, fails with `BadRequest`: the record has
/// expired, and every record of its user is dropped.
pub proof fn lemma_refresh_redeemed_once(
    tokens: Seq<crate::refresh::RefreshToken>,
    claims: RefreshClaims,
    client: Client,
    token: Seq<char>,
    issuer: Seq<char>,
    t1: int,
    grace: int,
    t2: int,
)
    requires
        crate::refresh::handles_unique(tokens),
        refresh_claims_refusal(claims, client, token, issuer, t2) is None,
        check_outcome(tokens, refresh_handle(token), t1).1 is Ok,
        0 <= t1,
        0 <= grace,
        t1 + grace <= i64::MAX,
        t2 > t1 + grace + 1,
    ensures
        check_outcome(grace_outcome(tokens, refresh_handle(token), t1, grace), refresh_handle(token), t2).1
            == Err::<crate::refresh::RefreshToken, ErrorResponseType>(ErrorResponseType::BadRequest),
{
    crate::refresh::lemma_refresh_single_use(tokens, refresh_handle(token), t1, grace, t2);
}

} // verus!
