//! PKCE challenges and their verification.

use vstd::prelude::*;
use vstd::utf8::encode_utf8;
use crate::base64::{base64_url, base64_url_encode};
use crate::crypto::{constant_time_eq, sha256, sha256_of, MAX_DIGEST_INPUT};
use crate::text::str_eq;

verus! {

/// A PKCE code challenge method.
#[derive(Debug, Clone, Copy, PartialEq, Eq, Structural)]
pub enum ChallengeMethod {
    Plain,
    S256,
}

/// The method a request names: `plain` or `S256`.
pub open spec fn challenge_method_named(s: Seq<char>) -> Option<ChallengeMethod> {
    if s == "plain"@ {
        Some(ChallengeMethod::Plain)
    } else if s == "S256"@ {
        Some(ChallengeMethod::S256)
    } else {
        None
    }
}

impl ChallengeMethod {
    /// Reads a method name.
    pub fn parse(s: &str) -> (r: Option<ChallengeMethod>)
        ensures
            r == challenge_method_named(s@),
    {
        if str_eq(s, "plain") {
            Some(ChallengeMethod::Plain)
        } else if str_eq(s, "S256") {
            Some(ChallengeMethod::S256)
        } else {
            None
        }
    }

    /// The method's name, as requests write it.
    pub fn name(&self) -> (r: &'static str)
        ensures
            r@ == match *self {
                ChallengeMethod::Plain => "plain"@,
                ChallengeMethod::S256 => "S256"@,
            },
    {
        match self {
            ChallengeMethod::Plain => "plain",
            ChallengeMethod::S256 => "S256",
        }
    }
}

/// The `S256` challenge of a verifier's bytes: base64url(sha256(verifier)).
pub open spec fn s256_challenge_of(verifier: Seq<u8>) -> Seq<u8> {
    base64_url(sha256_of(verifier))
}

/// A verifier answers a challenge: by equality for `plain`, by its hashed
/// and encoded form for `S256`.
pub open spec fn verifier_matches(
    challenge: Seq<char>,
    method: ChallengeMethod,
    verifier: Seq<char>,
) -> bool {
    match method {
        ChallengeMethod::Plain => challenge == verifier,
        ChallengeMethod::S256 => encode_utf8(verifier).len() <= MAX_DIGEST_INPUT as nat
            && encode_utf8(challenge) == s256_challenge_of(encode_utf8(verifier)),
    }
}

/// The `S256` challenge of a verifier, as ASCII bytes.
pub fn s256_challenge(verifier: &str) -> (r: Vec<u8>)
    requires
        encode_utf8(verifier@).len() <= MAX_DIGEST_INPUT as nat,
    ensures
        r@ == s256_challenge_of(encode_utf8(verifier@)),
{
    let digest = sha256(verifier.as_bytes());
    base64_url_encode(digest.as_slice())
}

/// Whether `verifier` answers `challenge` under `method`.
pub fn verify_code_verifier(challenge: &str, method: ChallengeMethod, verifier: &str) -> (r: bool)
    ensures
        r == verifier_matches(challenge@, method, verifier@),
{
    match method {
        ChallengeMethod::Plain => str_eq(challenge, verifier),
        ChallengeMethod::S256 => {
            let bytes = verifier.as_bytes();
            if bytes.len() as u64 > MAX_DIGEST_INPUT {
                return false;
            }
            let expected = s256_challenge(verifier);
            constant_time_eq(challenge.as_bytes(), expected.as_slice())
        },
    }
}

/// The `S256` challenge computed from a verifier is answered by that
/// verifier, and a verifier answers at most one challenge: two challenges
/// whose bytes differ anywhere are not both answered.
pub proof fn lemma_s256_round_trip(verifier: Seq<char>, challenge: Seq<char>, other: Seq<char>)
    requires
        encode_utf8(verifier).len() <= MAX_DIGEST_INPUT as nat,
    ensures
        encode_utf8(challenge) == s256_challenge_of(encode_utf8(verifier)) ==> verifier_matches(
            challenge,
            ChallengeMethod::S256,
            verifier,
        ),
        encode_utf8(challenge) != encode_utf8(other) ==> !(verifier_matches(
            challenge,
            ChallengeMethod::S256,
            verifier,
        ) && verifier_matches(other, ChallengeMethod::S256, verifier)),
{
}

} // verus!
