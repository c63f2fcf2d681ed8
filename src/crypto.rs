//! The cryptographic primitives the library calls: SHA-256, constant-time
//! comparison, and reading the key id of a JWS header.

use vstd::prelude::*;

verus! {

/// The SHA-256 digest of a byte string.
pub uninterp spec fn sha256_of(data: Seq<u8>) -> Seq<u8>;

/// The `kid` in the JOSE header of a compact JWS, if the header decodes and
/// names one.
pub uninterp spec fn jws_key_id(token: Seq<char>) -> Option<Seq<char>>;

/// The largest input, in bytes, whose length in bits still fits a `u64`.
pub const MAX_DIGEST_INPUT: u64 = 0x1fff_ffff_ffff_ffff;

/// Relies on `ring::digest::digest` with `ring::digest::SHA256`: the 32-byte
/// digest of the input. ring panics when the bit length overflows a `u64`.
#[verifier::external_body]
pub(crate) fn sha256(data: &[u8]) -> (r: Vec<u8>)
    requires
        data@.len() <= MAX_DIGEST_INPUT as nat,
    ensures
        r@ == sha256_of(data@),
        r@.len() == 32,
{
    ring::digest::digest(&ring::digest::SHA256, data).as_ref().to_vec()
}

/// Relies on `ring::constant_time::verify_slices_are_equal`: `Ok` exactly
/// when both slices hold the same bytes, compared without an early exit.
#[verifier::external_body]
#[allow(deprecated)]
pub(crate) fn constant_time_eq(a: &[u8], b: &[u8]) -> (r: bool)
    ensures
        r == (a@ == b@),
{
    ring::constant_time::verify_slices_are_equal(a, b).is_ok()
}

/// Relies on `jwt_simple::token::Token::decode_metadata` and
/// `TokenMetadata::key_id`: the `kid` of the token's header, read before any
/// signature check; `None` where the header does not decode or has no `kid`.
#[verifier::external_body]
pub(crate) fn kid_from_token(token: &str) -> (r: Option<String>)
    ensures
        r is None <==> jws_key_id(token@) is None,
        r matches Some(k) ==> jws_key_id(token@) == Some(k@),
{
    match jwt_simple::token::Token::decode_metadata(token) {
        Ok(meta) => meta.key_id().map(|k| k.to_string()),
        Err(_) => None,
    }
}

} // verus!
