//! Single-use authorization codes.

use vstd::prelude::*;
use crate::error::{ErrorResponse, ErrorResponseType};
use crate::pkce::{verifier_matches, verify_code_verifier, ChallengeMethod};
use crate::text::str_eq;

verus! {

/// A short-lived, single-use authorization code.
#[derive(Debug, Clone)]
pub struct AuthCode {
    pub id: String,
    pub user_id: String,
    pub client_id: String,
    pub session_id: Option<String>,
    pub challenge: Option<String>,
    /// `None` with a challenge stands for `plain`.
    pub challenge_method: Option<ChallengeMethod>,
    pub nonce: Option<String>,
    pub scopes: Vec<String>,
    /// Seconds since the epoch.
    pub exp: i64,
}

/// No two codes share an id.
pub open spec fn code_ids_unique(codes: Seq<AuthCode>) -> bool {
    forall|i: int, j: int|
        0 <= i < codes.len() && 0 <= j < codes.len() && (#[trigger] codes[i]).id@ == (
        #[trigger] codes[j]).id@ ==> i == j
}

/// Some code has the id `id`.
pub open spec fn has_code(codes: Seq<AuthCode>, id: Seq<char>) -> bool {
    exists|i: int| 0 <= i < codes.len() && (#[trigger] codes[i]).id@ == id
}

/// The position of the code with id `id`.
pub open spec fn code_index(codes: Seq<AuthCode>, id: Seq<char>) -> int
    recommends
        has_code(codes, id),
{
    choose|i: int| 0 <= i < codes.len() && (#[trigger] codes[i]).id@ == id
}

/// The method a code's challenge is checked with.
pub open spec fn effective_method(m: Option<ChallengeMethod>) -> ChallengeMethod {
    match m {
        Some(m) => m,
        None => ChallengeMethod::Plain,
    }
}

/// Why a code that was taken out of the store does not redeem, if it does
/// not: it has expired, or its challenge is not answered.
pub open spec fn consumed_code_error(
    code: AuthCode,
    verifier: Option<Seq<char>>,
    now: int,
) -> Option<ErrorResponseType> {
    if code.exp < now {
        Some(ErrorResponseType::SessionExpired)
    } else {
        match code.challenge {
            None => None,
            Some(c) => match verifier {
                None => Some(ErrorResponseType::BadRequest),
                Some(v) => if verifier_matches(c@, effective_method(code.challenge_method), v) {
                    None
                } else {
                    Some(ErrorResponseType::Unauthorized)
                },
            },
        }
    }
}

/// What redeeming the code `id` for `client_id` does: the codes left, and
/// the code or the kind of error. An unknown code, or one of another
/// client, is `Unauthorized` and stays; any other code is taken out of the
/// store whether or not it then redeems.
pub open spec fn redeem_outcome(
    codes: Seq<AuthCode>,
    id: Seq<char>,
    client_id: Seq<char>,
    verifier: Option<Seq<char>>,
    now: int,
) -> (Seq<AuthCode>, Result<AuthCode, ErrorResponseType>) {
    if !has_code(codes, id) {
        (codes, Err(ErrorResponseType::Unauthorized))
    } else {
        let i = code_index(codes, id);
        let code = codes[i];
        if code.client_id@ != client_id {
            (codes, Err(ErrorResponseType::Unauthorized))
        } else {
            let rest = codes.remove(i);
            match consumed_code_error(code, verifier, now) {
                Some(e) => (rest, Err(e)),
                None => (rest, Ok(code)),
            }
        }
    }
}

/// The message of a failed redemption.
pub open spec fn redeem_error_message(
    codes: Seq<AuthCode>,
    id: Seq<char>,
    client_id: Seq<char>,
    verifier: Option<Seq<char>>,
    now: int,
) -> Seq<char> {
    if !has_code(codes, id) {
        "'auth_code' could not be found inside the cache"@
    } else {
        let code = codes[code_index(codes, id)];
        if code.client_id@ != client_id {
            "Wrong 'code' for this client_id"@
        } else if code.exp < now {
            "The Authorization Code has expired"@
        } else if verifier is None {
            "'code_verifier' is missing"@
        } else {
            "'code_verifier' does not match the challenge"@
        }
    }
}

pub open spec fn error_kind<T>(r: Result<T, ErrorResponse>) -> Result<T, ErrorResponseType> {
    match r {
        Ok(v) => Ok(v),
        Err(e) => Err(e.error),
    }
}

/// The authorization codes that are alive, keyed by their unique ids.
pub struct AuthCodeStore {
    pub codes: Vec<AuthCode>,
}

impl View for AuthCodeStore {
    type V = Seq<AuthCode>;

    open spec fn view(&self) -> Seq<AuthCode> {
        self.codes@
    }
}

impl AuthCodeStore {
    pub open spec fn wf(&self) -> bool {
        code_ids_unique(self@)
    }

    pub fn new() -> (r: AuthCodeStore)
        ensures
            r@ == Seq::<AuthCode>::empty(),
            r.wf(),
    {
        AuthCodeStore { codes: Vec::new() }
    }

    fn position(&self, id: &str) -> (r: Option<usize>)
        requires
            self.wf(),
        ensures
            r is None <==> !has_code(self@, id@),
            r matches Some(i) ==> i < self@.len() && self@[i as int].id@ == id@ && i as int
                == code_index(self@, id@),
    {
        let mut i: usize = 0;
        while i < self.codes.len()
            invariant
                i <= self@.len(),
                self.wf(),
                forall|j: int| 0 <= j < i ==> (#[trigger] self@[j]).id@ != id@,
            decreases self@.len() - i,
        {
            if str_eq(self.codes[i].id.as_str(), id) {
                proof {
                    assert(self@[i as int].id@ == id@);
                    assert(has_code(self@, id@));
                    let c = code_index(self@, id@);
                    assert(0 <= c < self@.len() && self@[c].id@ == id@);
                    assert(self@[c].id@ == self@[i as int].id@);
                }
                return Some(i);
            }
            i = i + 1;
        }
        None
    }

    /// The code with id `id`, if it is alive.
    pub fn find(&self, id: &str) -> (r: Option<&AuthCode>)
        requires
            self.wf(),
        ensures
            r is None <==> !has_code(self@, id@),
            r matches Some(c) ==> *c == self@[code_index(self@, id@)] && c.id@ == id@,
    {
        match self.position(id) {
            Some(i) => Some(&self.codes[i]),
            None => None,
        }
    }

    /// Stores a new code; an id already in use is refused.
    pub fn insert(&mut self, code: AuthCode) -> (r: Result<(), ErrorResponse>)
        requires
            old(self).wf(),
        ensures
            final(self).wf(),
            r is Ok <==> !has_code(old(self)@, code.id@),
            r is Ok ==> final(self)@ == old(self)@.push(code),
            r matches Err(e) ==> final(self)@ == old(self)@ && e.error == ErrorResponseType::Internal,
    {
        if self.position(code.id.as_str()).is_some() {
            return Err(ErrorResponse::with(ErrorResponseType::Internal, "Duplicate authorization code"));
        }
        let ghost before = self@;
        self.codes.push(code);
        assert forall|i: int, j: int|
            0 <= i < self@.len() && 0 <= j < self@.len() && (#[trigger] self@[i]).id@ == (
            #[trigger] self@[j]).id@ implies i == j by {
            if i < before.len() {
                assert(self@[i] == before[i]);
            }
            if j < before.len() {
                assert(self@[j] == before[j]);
            }
        }
        Ok(())
    }

    /// Removes the code with id `id`.
    pub fn delete(&mut self, id: &str) -> (r: Option<AuthCode>)
        requires
            old(self).wf(),
        ensures
            final(self).wf(),
            !has_code(final(self)@, id@),
            r is None <==> !has_code(old(self)@, id@),
            r is None ==> final(self)@ == old(self)@,
            r matches Some(c) ==> c == old(self)@[code_index(old(self)@, id@)] && final(self)@
                == old(self)@.remove(code_index(old(self)@, id@)),
    {
        match self.position(id) {
            None => None,
            Some(i) => {
                let ghost before = self@;
                let c = self.codes.remove(i);
                proof {
                    lemma_remove_keeps_unique(before, i as int);
                }
                Some(c)
            },
        }
    }
}

proof fn lemma_remove_keeps_unique(codes: Seq<AuthCode>, i: int)
    requires
        code_ids_unique(codes),
        0 <= i < codes.len(),
    ensures
        code_ids_unique(codes.remove(i)),
        !has_code(codes.remove(i), codes[i].id@),
{
    let rest = codes.remove(i);
    assert forall|a: int, b: int|
        0 <= a < rest.len() && 0 <= b < rest.len() && (#[trigger] rest[a]).id@ == (
        #[trigger] rest[b]).id@ implies a == b by {
        let a2 = if a < i { a } else { a + 1 };
        let b2 = if b < i { b } else { b + 1 };
        assert(rest[a] == codes[a2]);
        assert(rest[b] == codes[b2]);
    }
    if has_code(rest, codes[i].id@) {
        let w = choose|w: int| 0 <= w < rest.len() && (#[trigger] rest[w]).id@ == codes[i].id@;
        let w2 = if w < i { w } else { w + 1 };
        assert(rest[w] == codes[w2]);
    }
}

/// Redeems the code `id` for `client_id`: an unknown code or one of another
/// client is `Unauthorized`; any other code is deleted at once, then fails
/// as `SessionExpired` past its expiry, `BadRequest` where its challenge
/// gets no verifier, `Unauthorized` where the verifier does not answer it.
pub fn redeem_auth_code(
    store: &mut AuthCodeStore,
    id: &str,
    client_id: &str,
    verifier: Option<&str>,
    now: i64,
) -> (r: Result<AuthCode, ErrorResponse>)
    requires
        old(store).wf(),
    ensures
        final(store).wf(),
        (final(store)@, error_kind(r)) == redeem_outcome(
            old(store)@,
            id@,
            client_id@,
            match verifier {
                Some(v) => Some(v@),
                None => None,
            },
            now as int,
        ),
        r matches Err(e) ==> e.message@ == redeem_error_message(
            old(store)@,
            id@,
            client_id@,
            match verifier {
                Some(v) => Some(v@),
                None => None,
            },
            now as int,
        ),
{
    let pos = store.position(id);
    let i = match pos {
        None => {
            return Err(
                ErrorResponse::with(
                    ErrorResponseType::Unauthorized,
                    "'auth_code' could not be found inside the cache",
                ),
            );
        },
        Some(i) => i,
    };
    if !str_eq(store.codes[i].client_id.as_str(), client_id) {
        return Err(
            ErrorResponse::with(ErrorResponseType::Unauthorized, "Wrong 'code' for this client_id"),
        );
    }
    let ghost before = store@;
    let code = store.codes.remove(i);
    proof {
        lemma_remove_keeps_unique(before, i as int);
    }
    if code.exp < now {
        return Err(
            ErrorResponse::with(
                ErrorResponseType::SessionExpired,
                "The Authorization Code has expired",
            ),
        );
    }
    match &code.challenge {
        None => {},
        Some(challenge) => {
            let v = match verifier {
                None => {
                    return Err(
                        ErrorResponse::with(ErrorResponseType::BadRequest, "'code_verifier' is missing"),
                    );
                },
                Some(v) => v,
            };
            let method = match code.challenge_method {
                Some(m) => m,
                None => ChallengeMethod::Plain,
            };
            if !verify_code_verifier(challenge.as_str(), method, v) {
                return Err(
                    ErrorResponse::with(
                        ErrorResponseType::Unauthorized,
                        "'code_verifier' does not match the challenge",
                    ),
                );
            }
        },
    }
    Ok(code)
}

/// A code redeems at most once. Once a code of `client_id` has been
/// presented by that client, whether it redeemed or failed on its expiry or
/// verifier, it is gone: a later lookup finds nothing, and presenting it
/// again, by any client and with any verifier, is `Unauthorized`.
pub proof fn lemma_auth_code_single_use(
    codes: Seq<AuthCode>,
    id: Seq<char>,
    client_id: Seq<char>,
    verifier: Option<Seq<char>>,
    now: int,
    client2: Seq<char>,
    verifier2: Option<Seq<char>>,
    now2: int,
)
    requires
        code_ids_unique(codes),
        has_code(codes, id),
        codes[code_index(codes, id)].client_id@ == client_id,
    ensures
        !has_code(redeem_outcome(codes, id, client_id, verifier, now).0, id),
        redeem_outcome(redeem_outcome(codes, id, client_id, verifier, now).0, id, client2, verifier2, now2).1
            == Err::<AuthCode, ErrorResponseType>(ErrorResponseType::Unauthorized),
{
    let i = code_index(codes, id);
    lemma_remove_keeps_unique(codes, i);
}

/// A code issued with the `S256` challenge of a verifier redeems, for its
/// client and before its expiry, with that verifier.
pub proof fn lemma_s256_code_redeems(
    codes: Seq<AuthCode>,
    id: Seq<char>,
    verifier: Seq<char>,
    now: int,
)
    requires
        code_ids_unique(codes),
        has_code(codes, id),
        codes[code_index(codes, id)].challenge matches Some(ch) && vstd::utf8::encode_utf8(ch@)
            == crate::pkce::s256_challenge_of(vstd::utf8::encode_utf8(verifier)),
        codes[code_index(codes, id)].challenge_method == Some(ChallengeMethod::S256),
        vstd::utf8::encode_utf8(verifier).len() <= crate::crypto::MAX_DIGEST_INPUT as nat,
        now <= codes[code_index(codes, id)].exp,
    ensures
        redeem_outcome(codes, id, codes[code_index(codes, id)].client_id@, Some(verifier), now).1
            == Ok::<AuthCode, ErrorResponseType>(codes[code_index(codes, id)]),
{
}

} // verus!
