//! Reading the `Authorization` header.

use vstd::prelude::*;
use crate::error::{ErrorResponse, ErrorResponseType};
use crate::text::{first_of, split_once, str_eq};

verus! {

/// The scheme word of a bearer token.
pub open spec fn bearer_scheme() -> Seq<char> {
    "Bearer"@
}

/// The scheme word of an API key.
pub open spec fn api_key_scheme() -> Seq<char> {
    "API-Key"@
}

/// The scheme and the credential of an `Authorization` value, split at its
/// first space.
pub open spec fn scheme_and_credential(h: Seq<char>) -> Option<(Seq<char>, Seq<char>)> {
    match first_of(h, ' ') {
        Some(i) => Some((h.subrange(0, i), h.subrange(i + 1, h.len() as int))),
        None => None,
    }
}

/// Reads the bearer token of an `Authorization` header: a missing header is
/// `BadRequest`; a value without a space, another scheme or an empty token
/// is `Unauthorized`.
pub fn get_bearer_token_from_header(header: Option<&str>) -> (r: Result<String, ErrorResponse>)
    ensures
        header is None ==> (r matches Err(e) && e.error == ErrorResponseType::BadRequest
            && e.message@ == "Authorization header missing"@),
        header matches Some(h) ==> match scheme_and_credential(h@) {
            Some((s, t)) => if s == bearer_scheme() && t.len() > 0 {
                r matches Ok(b) && b@ == t
            } else {
                r matches Err(e) && e.error == ErrorResponseType::Unauthorized && e.message@
                    == "No bearer token given"@
            },
            None => r matches Err(e) && e.error == ErrorResponseType::Unauthorized && e.message@
                == "Malformed Authorization Header. Could not extract token."@,
        },
{
    let h = match header {
        None => {
            return Err(
                ErrorResponse::with(ErrorResponseType::BadRequest, "Authorization header missing"),
            );
        },
        Some(h) => h,
    };
    match split_once(h, ' ') {
        None => Err(
            ErrorResponse::with(
                ErrorResponseType::Unauthorized,
                "Malformed Authorization Header. Could not extract token.",
            ),
        ),
        Some((scheme, token)) => {
            if !str_eq(scheme.as_str(), "Bearer") || token.as_str().unicode_len() == 0 {
                Err(ErrorResponse::with(ErrorResponseType::Unauthorized, "No bearer token given"))
            } else {
                Ok(token)
            }
        },
    }
}

/// Reads the API key of an `Authorization` header, if it holds one.
pub fn get_api_key_token_from_header(header: Option<&str>) -> (r: Option<String>)
    ensures
        header is None ==> r is None,
        header matches Some(h) ==> match scheme_and_credential(h@) {
            Some((s, t)) => if s == api_key_scheme() {
                r matches Some(k) && k@ == t
            } else {
                r is None
            },
            None => r is None,
        },
{
    let h = match header {
        None => {
            return None;
        },
        Some(h) => h,
    };
    match split_once(h, ' ') {
        None => None,
        Some((scheme, key)) => {
            if str_eq(scheme.as_str(), "API-Key") {
                Some(key)
            } else {
                None
            }
        },
    }
}

/// An `Authorization` value holds a bearer token or an API key, never both.
pub proof fn lemma_one_credential(h: Seq<char>)
    ensures
        !(scheme_and_credential(h) matches Some((s, _)) && s == bearer_scheme() && s
            == api_key_scheme()),
{
    reveal_strlit("Bearer");
    reveal_strlit("API-Key");
    assert(bearer_scheme().len() != api_key_scheme().len());
}

} // verus!
