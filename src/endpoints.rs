//! Authorization request checks, token key selection, logout, user info
//! and token introspection.

use vstd::prelude::*;
use crate::authorize::origin_refused;
use crate::claims::{claims_valid_at, validate_claims, AccessClaims, CommonClaims, IdClaims, JwtType};
use crate::client::Client;
use crate::crypto::{jws_key_id, kid_from_token};
use crate::error::{ErrorResponse, ErrorResponseType};
use crate::grant::origin_header;
use crate::keys::{has_kid, Jwk, JwkStore};
use crate::pkce::ChallengeMethod;
use crate::text::{copy_strings, str_eq};
use crate::uri::uri_allowed;
use crate::user::User;

verus! {

/// Checks the parameters of an authorization request: the client named
/// `client_id` exists, the origin and the redirect URI are allowed, and a
/// client with PKCE gets a challenge whose method (`plain` where none is
/// named) it allows. `client` is the client found by `client_id`. Returns
/// the CORS header value.
pub fn validate_auth_req_param(
    client: Option<&Client>,
    client_id: &str,
    origin: Option<&str>,
    redirect_uri: &str,
    code_challenge: Option<&str>,
    code_challenge_method: Option<&str>,
) -> (r: Result<Option<String>, ErrorResponse>)
    ensures
        match client {
            None => r matches Err(e) && e.error == ErrorResponseType::NotFound,
            Some(c) => if c.id@ != client_id@ {
                r matches Err(e) && e.error == ErrorResponseType::NotFound
            } else if origin_refused(*c, origin) {
                r matches Err(e) && e.error == ErrorResponseType::BadRequest
            } else if !uri_allowed(c.redirect_uris@, redirect_uri@) {
                r matches Err(e) && e.error == ErrorResponseType::BadRequest && e.message@
                    == "Invalid redirect uri"@
            } else if c.challenge@.len() > 0 && code_challenge is None {
                r matches Err(e) && e.error == ErrorResponseType::BadRequest && e.message@
                    == "'code_challenge' is missing"@
            } else if c.challenge@.len() > 0 && (code_challenge_method matches Some(m)
                && crate::pkce::challenge_method_named(m@) is None) {
                r matches Err(e) && e.error == ErrorResponseType::BadRequest && e.message@
                    == "invalid 'code_challenge_method'"@
            } else if c.challenge@.len() > 0 && !c.challenge@.contains(
                match code_challenge_method {
                    None => ChallengeMethod::Plain,
                    Some(m) => crate::pkce::challenge_method_named(m@)->Some_0,
                },
            ) {
                r matches Err(e) && e.error == ErrorResponseType::BadRequest && e.message@
                    == "'code_challenge_method' is not allowed for this client"@
            } else {
                r matches Ok(h) && origin_header(h, origin)
            },
        },
{
    let c = match client {
        None => {
            return Err(ErrorResponse::with(ErrorResponseType::NotFound, "Client not found"));
        },
        Some(c) => c,
    };
    if !str_eq(c.id.as_str(), client_id) {
        return Err(ErrorResponse::with(ErrorResponseType::NotFound, "Client not found"));
    }
    let header = c.validate_origin(origin)?;
    c.validate_redirect_uri(redirect_uri)?;
    if c.challenge.len() > 0 {
        if code_challenge.is_none() {
            return Err(ErrorResponse::with(ErrorResponseType::BadRequest, "'code_challenge' is missing"));
        }
        let method = match code_challenge_method {
            None => ChallengeMethod::Plain,
            Some(m) => match ChallengeMethod::parse(m) {
                Some(cm) => cm,
                None => {
                    return Err(
                        ErrorResponse::with(
                            ErrorResponseType::BadRequest,
                            "invalid 'code_challenge_method'",
                        ),
                    );
                },
            },
        };
        c.validate_challenge_method(method)?;
    }
    Ok(header)
}

/// Picks the key that verifies a token: the one named by the `kid` of its
/// header. A header without a readable `kid` is `BadRequest`; an unknown
/// `kid` is `NotFound`. The signature itself is checked with that key
/// afterwards, and the claims with `validate_claims`.
pub fn validate_token<'a>(keys: &'a JwkStore, token: &str) -> (r: Result<&'a Jwk, ErrorResponse>)
    ensures
        jws_key_id(token@) is None ==> (r matches Err(e) && e.error == ErrorResponseType::BadRequest),
        jws_key_id(token@) matches Some(kid) ==> {
            &&& r is Ok <==> has_kid(keys@, kid)
            &&& r matches Ok(k) ==> exists|i: int| 0 <= i < keys@.len() && keys@[i] == *k && k.kid@ == kid
            &&& r matches Err(e) ==> e.error == ErrorResponseType::NotFound
        },
{
    let kid = match kid_from_token(token) {
        None => {
            return Err(
                ErrorResponse::with(ErrorResponseType::BadRequest, "No 'kid' in the token header"),
            );
        },
        Some(k) => k,
    };
    keys.find(kid.as_str())
}

/// What logging out does with a valid ID token as hint: skip the
/// confirmation (`true`), or show it (`false`) where there is no hint.
///
/// A hint must be an ID token valid at `now` from `issuer`; with a
/// `post_logout_redirect_uri` its client must exist and allow that URI.
/// `client` is the client found by the hint's `azp`; another client is
/// refused as not found.
pub fn logout(
    id_token_hint: Option<&IdClaims>,
    post_logout_redirect_uri: Option<&str>,
    client: Option<&Client>,
    issuer: &str,
    now: i64,
) -> (r: Result<bool, ErrorResponse>)
    ensures
        id_token_hint is None ==> r == Ok::<bool, ErrorResponse>(false),
        id_token_hint matches Some(c) ==> if !claims_valid_at(c.common, issuer@, now as int) {
            r matches Err(e) && e.error == ErrorResponseType::Unauthorized
        } else if c.typ != JwtType::Id {
            r matches Err(e) && e.error == ErrorResponseType::BadRequest
        } else {
            match post_logout_redirect_uri {
                None => r == Ok::<bool, ErrorResponse>(true),
                Some(u) => match client {
                    None => r matches Err(e) && e.error == ErrorResponseType::NotFound,
                    Some(cl) => if cl.id@ != c.azp@ {
                        r matches Err(e) && e.error == ErrorResponseType::NotFound
                    } else if uri_allowed(cl.post_logout_redirect_uris@, u@) {
                        r == Ok::<bool, ErrorResponse>(true)
                    } else {
                        r matches Err(e) && e.error == ErrorResponseType::BadRequest
                    },
                },
            }
        },
{
    let c = match id_token_hint {
        None => {
            return Ok(false);
        },
        Some(c) => c,
    };
    validate_claims(&c.common, issuer, now)?;
    if c.typ != JwtType::Id {
        return Err(
            ErrorResponse::with(ErrorResponseType::BadRequest, "The provided token is not an ID token"),
        );
    }
    match post_logout_redirect_uri {
        None => Ok(true),
        Some(u) => {
            let cl = match client {
                None => {
                    return Err(ErrorResponse::with(ErrorResponseType::NotFound, "Client not found"));
                },
                Some(cl) => cl,
            };
            if !str_eq(cl.id.as_str(), c.azp.as_str()) {
                return Err(ErrorResponse::with(ErrorResponseType::NotFound, "Client not found"));
            }
            cl.validate_post_logout_uri(u)?;
            Ok(true)
        },
    }
}

/// The profile a user-info request returns.
#[derive(Debug, Clone)]
pub struct Userinfo {
    pub id: String,
    pub sub: String,
    pub email: String,
    pub email_verified: bool,
    /// Given name and family name, separated by a space.
    pub name: String,
    pub roles: Vec<String>,
    pub groups: Vec<String>,
    pub preferred_username: String,
    pub given_name: String,
    pub family_name: String,
}

/// The subject of a validated access token; a token without one is an
/// internal error.
pub fn token_subject(claims: &CommonClaims) -> (r: Result<String, ErrorResponse>)
    ensures
        claims.sub matches Some(s) ==> (r matches Ok(v) && v@ == s@),
        claims.sub is None ==> (r matches Err(e) && e.error == ErrorResponseType::Internal),
{
    match &claims.sub {
        Some(s) => Ok(s.clone()),
        None => Err(
            ErrorResponse::with(
                ErrorResponseType::Internal,
                "Token without 'sub' - could not extract the Principal",
            ),
        ),
    }
}

/// The user-info profile of `user`, the account of the token's subject.
pub fn get_userinfo(user: &User) -> (r: Userinfo)
    ensures
        r.id@ == user.id@,
        r.sub@ == user.email@,
        r.email@ == user.email@,
        r.email_verified == user.email_verified,
        r.name@ == user.given_name@ + " "@ + user.family_name@,
        r.roles@ == user.roles@,
        r.groups@ == user.groups@,
        r.preferred_username@ == user.email@,
        r.given_name@ == user.given_name@,
        r.family_name@ == user.family_name@,
{
    let mut name = user.given_name.clone();
    name.append(" ");
    name.append(user.family_name.as_str());
    Userinfo {
        id: user.id.clone(),
        sub: user.email.clone(),
        email: user.email.clone(),
        email_verified: user.email_verified,
        name,
        roles: copy_strings(&user.roles),
        groups: copy_strings(&user.groups),
        preferred_username: user.email.clone(),
        given_name: user.given_name.clone(),
        family_name: user.family_name.clone(),
    }
}

/// The answer of token introspection.
#[derive(Debug, Clone)]
pub struct TokenInfo {
    pub active: bool,
    pub scope: Option<String>,
    pub client_id: Option<String>,
    pub username: Option<String>,
    pub exp: Option<i64>,
}

/// Introspection of a token: inactive where it did not validate, else its
/// scope, client, subject and expiry.
pub fn get_token_info(claims: Option<&AccessClaims>) -> (r: TokenInfo)
    ensures
        claims is None ==> !r.active && r.scope is None && r.client_id is None && r.username is None
            && r.exp is None,
        claims matches Some(c) ==> {
            &&& r.active
            &&& r.scope matches Some(s) && s@ == c.scope@
            &&& r.client_id matches Some(a) && a@ == c.azp@
            &&& r.username == c.common.sub
            &&& r.exp == Some(c.common.exp)
        },
{
    match claims {
        None => TokenInfo { active: false, scope: None, client_id: None, username: None, exp: None },
        Some(c) => TokenInfo {
            active: true,
            scope: Some(c.scope.clone()),
            client_id: Some(c.azp.clone()),
            username: c.common.sub.clone(),
            exp: Some(c.common.exp),
        },
    }
}

} // verus!
