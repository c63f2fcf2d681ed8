//! Relying clients and the checks made on their requests.

use vstd::prelude::*;
use vstd::utf8::encode_utf8;
use crate::crypto::{constant_time_eq, sha256, sha256_of, MAX_DIGEST_INPUT};
use crate::error::{ErrorResponse, ErrorResponseType};
use crate::keys::JwkKeyPairType;
use crate::pkce::ChallengeMethod;
use crate::text::{contains_str, join_space, join_with_space, str_eq, views};
use crate::uri::{is_uri_allowed, uri_allowed};

verus! {

/// The longest lifetime, in seconds, of a token or a code: ten years.
pub const MAX_LIFETIME: i64 = 315_360_000;

/// The latest timestamp, in seconds since the epoch, that the service handles.
pub const MAX_TIMESTAMP: i64 = 253_402_300_799;

/// A timestamp the service can handle without overflow.
pub open spec fn valid_time(t: i64) -> bool {
    0 <= t <= MAX_TIMESTAMP
}

/// An OAuth grant type.
#[derive(Debug, Clone, Copy, PartialEq, Eq, Structural)]
pub enum GrantType {
    AuthorizationCode,
    ClientCredentials,
    Password,
    RefreshToken,
}

/// The grant type a request names.
pub open spec fn grant_type_named(s: Seq<char>) -> Option<GrantType> {
    if s == "authorization_code"@ {
        Some(GrantType::AuthorizationCode)
    } else if s == "client_credentials"@ {
        Some(GrantType::ClientCredentials)
    } else if s == "password"@ {
        Some(GrantType::Password)
    } else if s == "refresh_token"@ {
        Some(GrantType::RefreshToken)
    } else {
        None
    }
}

impl GrantType {
    /// Reads a grant type name.
    pub fn parse(s: &str) -> (r: Option<GrantType>)
        ensures
            r == grant_type_named(s@),
    {
        if str_eq(s, "authorization_code") {
            Some(GrantType::AuthorizationCode)
        } else if str_eq(s, "client_credentials") {
            Some(GrantType::ClientCredentials)
        } else if str_eq(s, "password") {
            Some(GrantType::Password)
        } else if str_eq(s, "refresh_token") {
            Some(GrantType::RefreshToken)
        } else {
            None
        }
    }
}

/// A relying party.
#[derive(Debug, Clone)]
pub struct Client {
    pub id: String,
    pub enabled: bool,
    pub confidential: bool,
    /// The SHA-256 digest of the client secret; set for a confidential client.
    pub secret_hash: Option<Vec<u8>>,
    pub flows_enabled: Vec<GrantType>,
    /// Exact URIs, or prefixes ending in `*`.
    pub redirect_uris: Vec<String>,
    pub post_logout_redirect_uris: Vec<String>,
    pub allowed_origins: Vec<String>,
    /// The PKCE methods allowed; empty where the client uses no PKCE.
    pub challenge: Vec<ChallengeMethod>,
    pub access_token_alg: JwkKeyPairType,
    pub id_token_alg: JwkKeyPairType,
    /// The scopes the client may request.
    pub scopes: Vec<String>,
    pub default_scopes: Vec<String>,
    /// Seconds.
    pub access_token_lifetime: i64,
    /// Seconds.
    pub auth_code_lifetime: i64,
}

/// A secret hashes to the stored digest.
pub open spec fn secret_matches(secret_hash: Option<Vec<u8>>, secret: Seq<char>) -> bool {
    secret_hash matches Some(h) && encode_utf8(secret).len() <= MAX_DIGEST_INPUT as nat && h@
        == sha256_of(encode_utf8(secret))
}

/// The requested scopes that the client allows, in request order.
pub open spec fn allowed_scopes(requested: Seq<Seq<char>>, allowed: Seq<Seq<char>>) -> Seq<
    Seq<char>,
> {
    requested.filter(|s: Seq<char>| allowed.contains(s))
}

impl Client {
    /// A confidential client has a secret; lifetimes are within bounds.
    pub open spec fn wf(&self) -> bool {
        &&& self.confidential ==> self.secret_hash is Some
        &&& 0 <= self.access_token_lifetime <= MAX_LIFETIME
        &&& 0 <= self.auth_code_lifetime <= MAX_LIFETIME
    }

    /// The scopes a login ends with: the requested ones the client allows,
    /// or its default scopes where none is left.
    pub open spec fn spec_login_scopes(&self, requested: Seq<Seq<char>>) -> Seq<Seq<char>> {
        let kept = allowed_scopes(requested, views(self.scopes@));
        if kept.len() > 0 {
            kept
        } else {
            views(self.default_scopes@)
        }
    }

    /// Fails with `BadRequest` where the grant type is not enabled.
    pub fn validate_flow(&self, flow: GrantType) -> (r: Result<(), ErrorResponse>)
        ensures
            r is Ok <==> self.flows_enabled@.contains(flow),
            r matches Err(e) ==> e.error == ErrorResponseType::BadRequest,
    {
        let mut i: usize = 0;
        while i < self.flows_enabled.len()
            invariant
                i <= self.flows_enabled@.len(),
                forall|j: int| 0 <= j < i ==> self.flows_enabled@[j] != flow,
            decreases self.flows_enabled@.len() - i,
        {
            if self.flows_enabled[i] == flow {
                return Ok(());
            }
            i = i + 1;
        }
        Err(ErrorResponse::with(ErrorResponseType::BadRequest, "Invalid flow for this client"))
    }

    /// Compares the hash of `secret` with the stored digest in constant
    /// time; fails with `Unauthorized` on a mismatch.
    pub fn validate_secret(&self, secret: &str) -> (r: Result<(), ErrorResponse>)
        ensures
            r is Ok <==> secret_matches(self.secret_hash, secret@),
            r matches Err(e) ==> e.error == ErrorResponseType::Unauthorized,
    {
        let fail = ErrorResponse::with(ErrorResponseType::Unauthorized, "Invalid 'client_secret'");
        match &self.secret_hash {
            None => Err(fail),
            Some(h) => {
                let bytes = secret.as_bytes();
                if bytes.len() as u64 > MAX_DIGEST_INPUT {
                    return Err(fail);
                }
                let given = sha256(bytes);
                if constant_time_eq(given.as_slice(), h.as_slice()) {
                    Ok(())
                } else {
                    Err(fail)
                }
            },
        }
    }

    /// Checks the request's `Origin`: none is fine; one in the allow-list
    /// comes back as the value of the CORS header; any other is refused.
    pub fn validate_origin(&self, origin: Option<&str>) -> (r: Result<Option<String>, ErrorResponse>)
        ensures
            origin is None ==> r matches Ok(None),
            origin matches Some(o) ==> (r is Ok <==> exists|i: int|
                0 <= i < self.allowed_origins@.len() && (#[trigger] self.allowed_origins@[i])@ == o@),
            origin matches Some(o) ==> (r matches Ok(h) ==> h matches Some(v) && v@ == o@),
            r matches Err(e) ==> e.error == ErrorResponseType::BadRequest,
    {
        match origin {
            None => Ok(None),
            Some(o) => {
                if contains_str(&self.allowed_origins, o) {
                    Ok(Some(o.to_owned()))
                } else {
                    Err(ErrorResponse::with(ErrorResponseType::BadRequest, "Origin is not allowed"))
                }
            },
        }
    }

    /// Fails with `BadRequest` where no allowed redirect URI admits `uri`.
    pub fn validate_redirect_uri(&self, uri: &str) -> (r: Result<(), ErrorResponse>)
        ensures
            r is Ok <==> uri_allowed(self.redirect_uris@, uri@),
            r matches Err(e) ==> e.error == ErrorResponseType::BadRequest && e.message@
                == "Invalid redirect uri"@,
    {
        if is_uri_allowed(&self.redirect_uris, uri) {
            Ok(())
        } else {
            Err(ErrorResponse::with(ErrorResponseType::BadRequest, "Invalid redirect uri"))
        }
    }

    /// Fails with `BadRequest` where no allowed post-logout URI admits `uri`.
    pub fn validate_post_logout_uri(&self, uri: &str) -> (r: Result<(), ErrorResponse>)
        ensures
            r is Ok <==> uri_allowed(self.post_logout_redirect_uris@, uri@),
            r matches Err(e) ==> e.error == ErrorResponseType::BadRequest,
    {
        if is_uri_allowed(&self.post_logout_redirect_uris, uri) {
            Ok(())
        } else {
            Err(
                ErrorResponse::with(
                    ErrorResponseType::BadRequest,
                    "Given 'post_logout_redirect_uri' is not allowed",
                ),
            )
        }
    }

    /// Fails with `BadRequest` where the client does not allow the method.
    pub fn validate_challenge_method(&self, method: ChallengeMethod) -> (r: Result<(), ErrorResponse>)
        ensures
            r is Ok <==> self.challenge@.contains(method),
            r matches Err(e) ==> e.error == ErrorResponseType::BadRequest && e.message@
                == "'code_challenge_method' is not allowed for this client"@,
    {
        let mut i: usize = 0;
        while i < self.challenge.len()
            invariant
                i <= self.challenge@.len(),
                forall|j: int| 0 <= j < i ==> self.challenge@[j] != method,
            decreases self.challenge@.len() - i,
        {
            if self.challenge[i] == method {
                return Ok(());
            }
            i = i + 1;
        }
        Err(
            ErrorResponse::with(
                ErrorResponseType::BadRequest,
                "'code_challenge_method' is not allowed for this client",
            ),
        )
    }

    /// The requested scopes that the client allows, or its default scopes
    /// where none of them is allowed.
    pub fn sanitize_login_scopes(&self, requested: &Vec<String>) -> (r: Vec<String>)
        ensures
            views(r@) == self.spec_login_scopes(views(requested@)),
    {
        let ghost allowed = views(self.scopes@);
        let ghost pred = |s: Seq<char>| allowed.contains(s);
        let mut kept: Vec<String> = Vec::new();
        let mut i: usize = 0;
        while i < requested.len()
            invariant
                i <= requested@.len(),
                allowed == views(self.scopes@),
                pred == (|s: Seq<char>| allowed.contains(s)),
                views(kept@) == views(requested@).subrange(0, i as int).filter(pred),
            decreases requested@.len() - i,
        {
            let ghost pre = views(requested@).subrange(0, i as int);
            let ghost next = views(requested@).subrange(0, i as int + 1);
            assert(next.drop_last() =~= pre);
            proof {
                reveal(Seq::filter);
            }
            if contains_str(&self.scopes, requested[i].as_str()) {
                assert(allowed.contains(requested@[i as int]@)) by {
                    let w = choose|w: int| 0 <= w < self.scopes@.len() && (#[trigger] self.scopes@[w])@ == requested@[i as int]@;
                    assert(allowed[w] == requested@[i as int]@);
                }
                kept.push(requested[i].clone());
                assert(views(kept@) =~= next.filter(pred));
            } else {
                assert(!allowed.contains(requested@[i as int]@)) by {
                    if allowed.contains(requested@[i as int]@) {
                        let w = choose|w: int| 0 <= w < allowed.len() && allowed[w] == requested@[i as int]@;
                        assert(self.scopes@[w]@ == requested@[i as int]@);
                    }
                }
                assert(views(kept@) =~= next.filter(pred));
            }
            i = i + 1;
        }
        assert(views(requested@).subrange(0, requested@.len() as int) =~= views(requested@));
        if kept.len() > 0 {
            kept
        } else {
            let mut d: Vec<String> = Vec::new();
            let mut k: usize = 0;
            while k < self.default_scopes.len()
                invariant
                    k <= self.default_scopes@.len(),
                    views(d@) =~= views(self.default_scopes@).subrange(0, k as int),
                decreases self.default_scopes@.len() - k,
            {
                let ghost prev = d@;
                let s = self.default_scopes[k].clone();
                d.push(s);
                assert(views(d@) =~= views(prev).push(s@));
                assert(views(self.default_scopes@).subrange(0, k as int + 1) =~= views(
                    self.default_scopes@,
                ).subrange(0, k as int).push(s@));
                k = k + 1;
            }
            assert(views(self.default_scopes@).subrange(0, k as int) =~= views(self.default_scopes@));
            d
        }
    }

    /// The default scopes as one space-separated string.
    pub fn default_scope_string(&self) -> (r: String)
        ensures
            r@ == join_space(views(self.default_scopes@)),
    {
        join_with_space(&self.default_scopes)
    }
}

} // verus!
