//! The store of signing keys, their rotation, and the choice of a signing key.

use vstd::prelude::*;
use crate::client::Client;
use crate::error::{ErrorResponse, ErrorResponseType};
use crate::text::str_eq;

verus! {

/// A signing algorithm, with the key type it needs.
#[derive(Debug, Clone, Copy, PartialEq, Eq, Structural)]
pub enum JwkKeyPairType {
    RS256,
    RS384,
    RS512,
    EdDSA,
}

/// The algorithm a configuration names.
pub open spec fn key_pair_type_named(s: Seq<char>) -> Option<JwkKeyPairType> {
    if s == "RS256"@ {
        Some(JwkKeyPairType::RS256)
    } else if s == "RS384"@ {
        Some(JwkKeyPairType::RS384)
    } else if s == "RS512"@ {
        Some(JwkKeyPairType::RS512)
    } else if s == "EdDSA"@ {
        Some(JwkKeyPairType::EdDSA)
    } else {
        None
    }
}

impl JwkKeyPairType {
    /// Reads an algorithm name; any other name is a bad request.
    pub fn parse(s: &str) -> (r: Result<JwkKeyPairType, ErrorResponse>)
        ensures
            key_pair_type_named(s@) matches Some(t) ==> r == Ok::<JwkKeyPairType, ErrorResponse>(t),
            key_pair_type_named(s@) is None ==> (r matches Err(e) && e.error
                == ErrorResponseType::BadRequest),
    {
        if str_eq(s, "RS256") {
            Ok(JwkKeyPairType::RS256)
        } else if str_eq(s, "RS384") {
            Ok(JwkKeyPairType::RS384)
        } else if str_eq(s, "RS512") {
            Ok(JwkKeyPairType::RS512)
        } else if str_eq(s, "EdDSA") {
            Ok(JwkKeyPairType::EdDSA)
        } else {
            Err(ErrorResponse::with(ErrorResponseType::BadRequest, "Invalid JWT algorithm"))
        }
    }

    /// The algorithm's name as JOSE headers write it.
    pub fn name(&self) -> (r: &'static str)
        ensures
            r@ == match *self {
                JwkKeyPairType::RS256 => "RS256"@,
                JwkKeyPairType::RS384 => "RS384"@,
                JwkKeyPairType::RS512 => "RS512"@,
                JwkKeyPairType::EdDSA => "EdDSA"@,
            },
    {
        match self {
            JwkKeyPairType::RS256 => "RS256",
            JwkKeyPairType::RS384 => "RS384",
            JwkKeyPairType::RS512 => "RS512",
            JwkKeyPairType::EdDSA => "EdDSA",
        }
    }
}

/// A stored signing key pair.
#[derive(Debug, Clone)]
pub struct Jwk {
    /// The key id, 24 random characters.
    pub kid: String,
    pub created_at: i64,
    pub signature: JwkKeyPairType,
    /// The name of the symmetric key that encrypted `jwk`.
    pub enc_key_id: String,
    /// The DER-encoded key pair, encrypted.
    pub jwk: Vec<u8>,
}

/// An entry of the cache that a key rotation makes stale.
#[derive(Debug, Clone, Copy, PartialEq, Eq, Structural)]
pub enum CacheKey {
    /// The latest key of one algorithm.
    JwkLatest(JwkKeyPairType),
    /// The published key set.
    Jwks,
}

/// No two keys share a key id.
pub open spec fn kids_unique(keys: Seq<Jwk>) -> bool {
    forall|i: int, j: int|
        0 <= i < keys.len() && 0 <= j < keys.len() && (#[trigger] keys[i]).kid@ == (
        #[trigger] keys[j]).kid@ ==> i == j
}

/// Some key has the id `kid`.
pub open spec fn has_kid(keys: Seq<Jwk>, kid: Seq<char>) -> bool {
    exists|i: int| 0 <= i < keys.len() && (#[trigger] keys[i]).kid@ == kid
}

/// The algorithms of one rotation, one fresh key each, in this order.
pub open spec fn rotation_algs() -> Seq<JwkKeyPairType> {
    seq![JwkKeyPairType::RS256, JwkKeyPairType::RS384, JwkKeyPairType::RS512, JwkKeyPairType::EdDSA]
}

/// The cache entries that a rotation makes stale.
pub open spec fn rotation_cache_keys() -> Seq<CacheKey> {
    seq![
        CacheKey::JwkLatest(JwkKeyPairType::RS256),
        CacheKey::JwkLatest(JwkKeyPairType::RS384),
        CacheKey::JwkLatest(JwkKeyPairType::RS512),
        CacheKey::JwkLatest(JwkKeyPairType::EdDSA),
        CacheKey::Jwks,
    ]
}

/// The length of a key id.
pub const KID_LEN: usize = 24;

/// A new key has a 24-character id and is encrypted under the active key.
pub open spec fn well_made_key(k: Jwk, active: Seq<char>) -> bool {
    k.kid@.len() == KID_LEN && k.enc_key_id@ == active
}

/// A set of keys fit to be added by one rotation, under the active
/// encryption key `active`.
pub open spec fn valid_rotation(keys: Seq<Jwk>, added: Seq<Jwk>, active: Seq<char>) -> bool {
    &&& added.len() == 4
    &&& forall|i: int| 0 <= i < 4 ==> (#[trigger] added[i]).signature == rotation_algs()[i]
    &&& forall|i: int| 0 <= i < 4 ==> well_made_key(#[trigger] added[i], active)
    &&& kids_unique(keys + added)
}

/// All signing keys ever made. Keys are never removed, so a token verifies
/// with the key that signed it for as long as its own lifetime lasts.
pub struct JwkStore {
    pub keys: Vec<Jwk>,
}

impl View for JwkStore {
    type V = Seq<Jwk>;

    open spec fn view(&self) -> Seq<Jwk> {
        self.keys@
    }
}

impl JwkStore {
    pub open spec fn wf(&self) -> bool {
        kids_unique(self@)
    }

    pub fn new() -> (r: JwkStore)
        ensures
            r@ == Seq::<Jwk>::empty(),
            r.wf(),
    {
        JwkStore { keys: Vec::new() }
    }

    pub fn keys(&self) -> (r: &Vec<Jwk>)
        ensures
            r@ == self@,
    {
        &self.keys
    }

    /// Whether some key has the id `kid`.
    pub fn contains_kid(&self, kid: &str) -> (r: bool)
        ensures
            r == has_kid(self@, kid@),
    {
        let mut i: usize = 0;
        while i < self.keys.len()
            invariant
                i <= self@.len(),
                forall|j: int| 0 <= j < i ==> (#[trigger] self@[j]).kid@ != kid@,
            decreases self@.len() - i,
        {
            if str_eq(self.keys[i].kid.as_str(), kid) {
                return true;
            }
            i = i + 1;
        }
        false
    }

    /// The key with id `kid`; `NotFound` where there is none.
    pub fn find(&self, kid: &str) -> (r: Result<&Jwk, ErrorResponse>)
        ensures
            r is Ok <==> has_kid(self@, kid@),
            r matches Ok(k) ==> exists|i: int| 0 <= i < self@.len() && self@[i] == *k && k.kid@ == kid@,
            r matches Err(e) ==> e.error == ErrorResponseType::NotFound,
    {
        let mut i: usize = 0;
        while i < self.keys.len()
            invariant
                i <= self@.len(),
                forall|j: int| 0 <= j < i ==> (#[trigger] self@[j]).kid@ != kid@,
            decreases self@.len() - i,
        {
            if str_eq(self.keys[i].kid.as_str(), kid) {
                return Ok(&self.keys[i]);
            }
            i = i + 1;
        }
        Err(ErrorResponse::with(ErrorResponseType::NotFound, "No JWK for this 'kid'"))
    }

    /// The newest key of algorithm `alg`, if there is one.
    pub fn find_latest(&self, alg: JwkKeyPairType) -> (r: Option<&Jwk>)
        ensures
            r is None <==> forall|j: int| 0 <= j < self@.len() ==> (#[trigger] self@[j]).signature != alg,
            r matches Some(k) ==> exists|i: int| 0 <= i < self@.len() && self@[i] == *k,
            r matches Some(k) ==> k.signature == alg && forall|j: int|
                0 <= j < self@.len() && (#[trigger] self@[j]).signature == alg ==> self@[j].created_at
                    <= k.created_at,
    {
        let mut best: Option<usize> = None;
        let mut i: usize = 0;
        while i < self.keys.len()
            invariant
                i <= self@.len(),
                best is None <==> forall|j: int| 0 <= j < i ==> (#[trigger] self@[j]).signature != alg,
                best matches Some(b) ==> b < i && self@[b as int].signature == alg && forall|j: int|
                    0 <= j < i && (#[trigger] self@[j]).signature == alg ==> self@[j].created_at
                        <= self@[b as int].created_at,
            decreases self@.len() - i,
        {
            if self.keys[i].signature == alg {
                match best {
                    Some(b) => {
                        if self.keys[i].created_at >= self.keys[b].created_at {
                            best = Some(i);
                        }
                    },
                    None => {
                        best = Some(i);
                    },
                }
            }
            i = i + 1;
        }
        match best {
            Some(b) => Some(&self.keys[b]),
            None => None,
        }
    }
}

/// The three kinds of token the service signs.
#[derive(Debug, Clone, Copy, PartialEq, Eq, Structural)]
pub enum TokenKind {
    Access,
    Id,
    Refresh,
}

/// The algorithm a token is signed with: the client's choice for access and
/// ID tokens, EdDSA for refresh tokens.
pub open spec fn signing_alg(kind: TokenKind, client: Client) -> JwkKeyPairType {
    match kind {
        TokenKind::Access => client.access_token_alg,
        TokenKind::Id => client.id_token_alg,
        TokenKind::Refresh => JwkKeyPairType::EdDSA,
    }
}

/// The key that signs a token of `kind` for `client`: the newest key of its
/// algorithm; `NotFound` where there is none.
pub fn signing_key<'a>(store: &'a JwkStore, kind: TokenKind, client: &Client) -> (r: Result<&'a Jwk, ErrorResponse>)
    ensures
        r is Err <==> forall|j: int| 0 <= j < store@.len() ==> (#[trigger] store@[j]).signature != signing_alg(kind, *client),
        r matches Ok(k) ==> exists|i: int| 0 <= i < store@.len() && store@[i] == *k,
        r matches Ok(k) ==> k.signature == signing_alg(kind, *client) && forall|j: int|
            0 <= j < store@.len() && (#[trigger] store@[j]).signature == k.signature ==> store@[j].created_at
                <= k.created_at,
        r matches Err(e) ==> e.error == ErrorResponseType::NotFound,
{
    let alg = match kind {
        TokenKind::Access => client.access_token_alg,
        TokenKind::Id => client.id_token_alg,
        TokenKind::Refresh => JwkKeyPairType::EdDSA,
    };
    match store.find_latest(alg) {
        Some(k) => Ok(k),
        None => Err(ErrorResponse::with(ErrorResponseType::NotFound, "No signing key for this algorithm")),
    }
}

/// Adds the keys of one rotation: one fresh key per algorithm, RS256, RS384,
/// RS512 and EdDSA in this order, whose ids have 24 characters and are new
/// and distinct, each encrypted under the active key `enc_key_active`. Keeps
/// every older key and returns the cache entries that have become stale.
/// Refused, with the store unchanged, when the keys do not fit.
pub fn rotate_jwks(store: &mut JwkStore, new_keys: Vec<Jwk>, enc_key_active: &str) -> (r: Result<
    Vec<CacheKey>,
    ErrorResponse,
>)
    requires
        old(store).wf(),
    ensures
        final(store).wf(),
        r is Ok <==> valid_rotation(old(store)@, new_keys@, enc_key_active@),
        r matches Ok(c) ==> final(store)@ == old(store)@ + new_keys@ && c@ == rotation_cache_keys(),
        r matches Err(e) ==> final(store)@ == old(store)@ && e.error == ErrorResponseType::Internal,
{
    let ghost before = store@;
    if new_keys.len() != 4 || new_keys[0].signature != JwkKeyPairType::RS256
        || new_keys[1].signature != JwkKeyPairType::RS384 || new_keys[2].signature
        != JwkKeyPairType::RS512 || new_keys[3].signature != JwkKeyPairType::EdDSA {
        return Err(ErrorResponse::with(ErrorResponseType::Internal, "Invalid key set for rotation"));
    }
    // every new key has a 24-character id and the active encryption key
    let mut m: usize = 0;
    while m < 4
        invariant
            new_keys@.len() == 4,
            m <= 4,
            before == store@,
            kids_unique(before),
            forall|a: int| 0 <= a < m ==> well_made_key(#[trigger] new_keys@[a], enc_key_active@),
        decreases 4 - m,
    {
        if new_keys[m].kid.as_str().unicode_len() != KID_LEN || !str_eq(
            new_keys[m].enc_key_id.as_str(),
            enc_key_active,
        ) {
            return Err(
                ErrorResponse::with(ErrorResponseType::Internal, "Invalid key set for rotation"),
            );
        }
        m = m + 1;
    }
    // every new id is fresh and distinct from the other new ones
    let mut i: usize = 0;
    while i < 4
        invariant
            new_keys@.len() == 4,
            forall|a: int| 0 <= a < 4 ==> well_made_key(#[trigger] new_keys@[a], enc_key_active@),
            i <= 4,
            before == store@,
            kids_unique(before),
            forall|a: int| 0 <= a < i ==> !has_kid(before, (#[trigger] new_keys@[a]).kid@),
            forall|a: int, b: int|
                0 <= a < i && 0 <= b < 4 && a != b ==> (#[trigger] new_keys@[a]).kid@ != (
                #[trigger] new_keys@[b]).kid@,
        decreases 4 - i,
    {
        if store.contains_kid(new_keys[i].kid.as_str()) {
            proof {
                let all = before + new_keys@;
                assert(!kids_unique(all)) by {
                    let w = choose|w: int| 0 <= w < before.len() && before[w].kid@ == new_keys@[i as int].kid@;
                    assert(all[w] == before[w]);
                    assert(all[before.len() + i] == new_keys@[i as int]);
                }
            }
            return Err(ErrorResponse::with(ErrorResponseType::Internal, "Invalid key set for rotation"));
        }
        let mut j: usize = 0;
        while j < 4
            invariant
                new_keys@.len() == 4,
                i < 4,
                j <= 4,
                forall|a: int| 0 <= a < 4 ==> well_made_key(#[trigger] new_keys@[a], enc_key_active@),
                before == store@,
                kids_unique(before),
                forall|b: int| 0 <= b < j && b != i ==> new_keys@[i as int].kid@ != (#[trigger] new_keys@[b]).kid@,
            decreases 4 - j,
        {
            if j != i && str_eq(new_keys[i].kid.as_str(), new_keys[j].kid.as_str()) {
                proof {
                    let all = before + new_keys@;
                    assert(!kids_unique(all)) by {
                        assert(all[before.len() + i] == new_keys@[i as int]);
                        assert(all[before.len() + j] == new_keys@[j as int]);
                    }
                }
                return Err(ErrorResponse::with(ErrorResponseType::Internal, "Invalid key set for rotation"));
            }
            j = j + 1;
        }
        i = i + 1;
    }
    proof {
        let all = before + new_keys@;
        assert forall|a: int, b: int|
            0 <= a < all.len() && 0 <= b < all.len() && (#[trigger] all[a]).kid@ == (#[trigger] all[b]).kid@
            implies a == b by {
            let n = before.len() as int;
            if a < n && b >= n {
                assert(all[a] == before[a]);
                assert(all[b] == new_keys@[b - n]);
            } else if a >= n && b < n {
                assert(all[b] == before[b]);
                assert(all[a] == new_keys@[a - n]);
            } else if a >= n && b >= n {
                assert(all[a] == new_keys@[a - n]);
                assert(all[b] == new_keys@[b - n]);
            } else {
                assert(all[a] == before[a]);
                assert(all[b] == before[b]);
            }
        }
        assert(valid_rotation(before, new_keys@, enc_key_active@)) by {
            assert(forall|i: int| 0 <= i < 4 ==> (#[trigger] new_keys@[i]).signature == rotation_algs()[i]);
        }
    }
    let mut added = new_keys;
    store.keys.append(&mut added);
    let mut stale: Vec<CacheKey> = Vec::new();
    stale.push(CacheKey::JwkLatest(JwkKeyPairType::RS256));
    stale.push(CacheKey::JwkLatest(JwkKeyPairType::RS384));
    stale.push(CacheKey::JwkLatest(JwkKeyPairType::RS512));
    stale.push(CacheKey::JwkLatest(JwkKeyPairType::EdDSA));
    stale.push(CacheKey::Jwks);
    assert(stale@ =~= rotation_cache_keys());
    Ok(stale)
}

/// Rotation keeps every key: a key id that named a key before a rotation
/// names that same key after it, so tokens signed before still verify.
pub proof fn lemma_rotation_retains_keys(before: Seq<Jwk>, added: Seq<Jwk>, active: Seq<char>, i: int)
    requires
        valid_rotation(before, added, active),
        0 <= i < before.len(),
    ensures
        has_kid(before + added, before[i].kid@),
        forall|j: int|
            0 <= j < (before + added).len() && (#[trigger] (before + added)[j]).kid@ == before[i].kid@
                ==> (before + added)[j] == before[i],
{
    let all = before + added;
    assert(all[i] == before[i]);
}

} // verus!
