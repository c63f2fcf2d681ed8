//! Records of issued refresh tokens, misuse detection and the grace rule.

use vstd::prelude::*;
use crate::claims::REFRESH_TOKEN_LIFETIME;
use crate::client::{valid_time, MAX_LIFETIME};
use crate::error::{ErrorResponse, ErrorResponseType};
use crate::text::{copy_strings, str_eq};

verus! {

/// How many trailing characters of a refresh token are stored as its
/// handle.
pub const REFRESH_HANDLE_LEN: usize = 49;

/// The stored handle of a refresh token: its last 49 characters.
pub open spec fn refresh_handle(token: Seq<char>) -> Seq<char> {
    token.subrange(token.len() - REFRESH_HANDLE_LEN as int, token.len() as int)
}

/// The record of an issued refresh token.
#[derive(Debug, Clone)]
pub struct RefreshToken {
    /// The handle: the token's last 49 characters.
    pub id: String,
    pub user_id: String,
    pub nbf: i64,
    pub exp: i64,
    pub scopes: Option<Vec<String>>,
    pub is_mfa: bool,
}

/// Two records hold the same values.
pub open spec fn same_token(a: RefreshToken, b: RefreshToken) -> bool {
    &&& a.id@ == b.id@
    &&& a.user_id@ == b.user_id@
    &&& a.nbf == b.nbf
    &&& a.exp == b.exp
    &&& a.is_mfa == b.is_mfa
    &&& match (a.scopes, b.scopes) {
        (Some(x), Some(y)) => x@ == y@,
        (None, None) => true,
        _ => false,
    }
}

/// The handle of a presented token; a token too short to have one is a bad
/// request.
pub fn handle_of(token: &str) -> (r: Result<String, ErrorResponse>)
    ensures
        r is Ok <==> token@.len() >= REFRESH_HANDLE_LEN,
        r matches Ok(h) ==> h@ == refresh_handle(token@),
        r matches Err(e) ==> e.error == ErrorResponseType::BadRequest,
{
    let n = token.unicode_len();
    if n < REFRESH_HANDLE_LEN {
        return Err(ErrorResponse::with(ErrorResponseType::BadRequest, "Invalid refresh token"));
    }
    Ok(token.substring_char(n - REFRESH_HANDLE_LEN, n).to_owned())
}

impl RefreshToken {
    /// The record of a freshly signed refresh token: usable once the access
    /// token issued with it is about to expire (its lifetime less 60
    /// seconds from `now`), and for 48 hours from then.
    pub fn from_issued(
        token: &str,
        user_id: &String,
        now: i64,
        access_token_lifetime: i64,
        scopes: Option<Vec<String>>,
        is_mfa: bool,
    ) -> (r: Result<RefreshToken, ErrorResponse>)
        requires
            valid_time(now),
            0 <= access_token_lifetime <= MAX_LIFETIME,
        ensures
            r is Ok <==> token@.len() >= REFRESH_HANDLE_LEN,
            r matches Ok(t) ==> {
                &&& t.id@ == refresh_handle(token@)
                &&& t.user_id@ == user_id@
                &&& t.nbf == now + access_token_lifetime - 60
                &&& t.exp == t.nbf + REFRESH_TOKEN_LIFETIME
                &&& t.scopes == scopes
                &&& t.is_mfa == is_mfa
            },
            r matches Err(e) ==> e.error == ErrorResponseType::BadRequest,
    {
        let id = handle_of(token)?;
        let nbf = now + access_token_lifetime - 60;
        Ok(RefreshToken {
            id,
            user_id: user_id.clone(),
            nbf,
            exp: nbf + REFRESH_TOKEN_LIFETIME,
            scopes,
            is_mfa,
        })
    }

    /// A copy of the record.
    pub fn copy(&self) -> (r: RefreshToken)
        ensures
            same_token(r, *self),
    {
        RefreshToken {
            id: self.id.clone(),
            user_id: self.user_id.clone(),
            nbf: self.nbf,
            exp: self.exp,
            scopes: match &self.scopes {
                Some(s) => Some(copy_strings(s)),
                None => None,
            },
            is_mfa: self.is_mfa,
        }
    }
}

/// No two records share a handle.
pub open spec fn handles_unique(tokens: Seq<RefreshToken>) -> bool {
    forall|i: int, j: int|
        0 <= i < tokens.len() && 0 <= j < tokens.len() && (#[trigger] tokens[i]).id@ == (
        #[trigger] tokens[j]).id@ ==> i == j
}

/// Some record has the handle `h`.
pub open spec fn has_handle(tokens: Seq<RefreshToken>, h: Seq<char>) -> bool {
    exists|i: int| 0 <= i < tokens.len() && (#[trigger] tokens[i]).id@ == h
}

/// The position of the record with handle `h`.
pub open spec fn handle_index(tokens: Seq<RefreshToken>, h: Seq<char>) -> int
    recommends
        has_handle(tokens, h),
{
    choose|i: int| 0 <= i < tokens.len() && (#[trigger] tokens[i]).id@ == h
}

/// The records that do not belong to `user_id`.
pub open spec fn without_user(tokens: Seq<RefreshToken>, user_id: Seq<char>) -> Seq<RefreshToken> {
    tokens.filter(|t: RefreshToken| t.user_id@ != user_id)
}

/// What presenting the handle `h` at `now` does: an unknown handle is
/// `NotFound`; an expired one is misuse, which drops every record of its
/// user and is `BadRequest`; one not yet valid (`now < nbf`, while the
/// access token issued with it is still expected to live) is `BadRequest`
/// with the store unchanged; any other is accepted, the store unchanged.
pub open spec fn check_outcome(tokens: Seq<RefreshToken>, h: Seq<char>, now: int) -> (
    Seq<RefreshToken>,
    Result<RefreshToken, ErrorResponseType>,
) {
    if !has_handle(tokens, h) {
        (tokens, Err(ErrorResponseType::NotFound))
    } else {
        let t = tokens[handle_index(tokens, h)];
        if t.exp < now {
            (without_user(tokens, t.user_id@), Err(ErrorResponseType::BadRequest))
        } else if now < t.nbf {
            (tokens, Err(ErrorResponseType::BadRequest))
        } else {
            (tokens, Ok(t))
        }
    }
}

/// The grace rule, applied once a token has been redeemed at `now`: its
/// record expires `grace` seconds later, unless it expires sooner anyway.
pub open spec fn grace_outcome(tokens: Seq<RefreshToken>, h: Seq<char>, now: int, grace: int) -> Seq<
    RefreshToken,
> {
    if !has_handle(tokens, h) {
        tokens
    } else {
        let i = handle_index(tokens, h);
        let t = tokens[i];
        if t.exp > now + grace + 1 {
            tokens.update(i, RefreshToken { exp: (now + grace) as i64, ..t })
        } else {
            tokens
        }
    }
}

/// The records of issued refresh tokens.
pub struct RefreshTokenStore {
    pub tokens: Vec<RefreshToken>,
}

impl View for RefreshTokenStore {
    type V = Seq<RefreshToken>;

    open spec fn view(&self) -> Seq<RefreshToken> {
        self.tokens@
    }
}

impl RefreshTokenStore {
    pub open spec fn wf(&self) -> bool {
        handles_unique(self@)
    }

    pub fn new() -> (r: RefreshTokenStore)
        ensures
            r@ == Seq::<RefreshToken>::empty(),
            r.wf(),
    {
        RefreshTokenStore { tokens: Vec::new() }
    }

    fn position(&self, h: &str) -> (r: Option<usize>)
        requires
            self.wf(),
        ensures
            r is None <==> !has_handle(self@, h@),
            r matches Some(i) ==> i < self@.len() && self@[i as int].id@ == h@ && i as int
                == handle_index(self@, h@),
    {
        let mut i: usize = 0;
        while i < self.tokens.len()
            invariant
                i <= self@.len(),
                self.wf(),
                forall|j: int| 0 <= j < i ==> (#[trigger] self@[j]).id@ != h@,
            decreases self@.len() - i,
        {
            if str_eq(self.tokens[i].id.as_str(), h) {
                proof {
                    assert(self@[i as int].id@ == h@);
                    let c = handle_index(self@, h@);
                    assert(self@[c].id@ == self@[i as int].id@);
                }
                return Some(i);
            }
            i = i + 1;
        }
        None
    }

    /// The record with handle `h`; `NotFound` where there is none.
    pub fn find(&self, h: &str) -> (r: Result<&RefreshToken, ErrorResponse>)
        requires
            self.wf(),
        ensures
            r is Ok <==> has_handle(self@, h@),
            r matches Ok(t) ==> *t == self@[handle_index(self@, h@)],
            r matches Err(e) ==> e.error == ErrorResponseType::NotFound,
    {
        match self.position(h) {
            Some(i) => Ok(&self.tokens[i]),
            None => Err(ErrorResponse::with(ErrorResponseType::NotFound, "Refresh Token not found")),
        }
    }

    /// Stores the record of a new token; a handle in use is refused.
    pub fn insert(&mut self, token: RefreshToken) -> (r: Result<(), ErrorResponse>)
        requires
            old(self).wf(),
        ensures
            final(self).wf(),
            r is Ok <==> !has_handle(old(self)@, token.id@),
            r is Ok ==> final(self)@ == old(self)@.push(token),
            r matches Err(e) ==> final(self)@ == old(self)@ && e.error == ErrorResponseType::Internal,
    {
        if self.position(token.id.as_str()).is_some() {
            return Err(ErrorResponse::with(ErrorResponseType::Internal, "Duplicate refresh token"));
        }
        let ghost before = self@;
        self.tokens.push(token);
        assert forall|i: int, j: int|
            0 <= i < self@.len() && 0 <= j < self@.len() && (#[trigger] self@[i]).id@ == (
            #[trigger] self@[j]).id@ implies i == j by {
            if i < before.len() {
                assert(self@[i] == before[i]);
            }
            if j < before.len() {
                assert(self@[j] == before[j]);
            }
        }
        Ok(())
    }

    /// Drops every record of `user_id`.
    pub fn invalidate_all_for_user(&mut self, user_id: &str)
        requires
            old(self).wf(),
        ensures
            final(self).wf(),
            final(self)@ == without_user(old(self)@, user_id@),
    {
        let ghost orig = self@;
        let ghost pred = |t: RefreshToken| t.user_id@ != user_id@;
        let mut i: usize = 0;
        let ghost mut j: int = 0;
        while i < self.tokens.len()
            invariant
                pred == (|t: RefreshToken| t.user_id@ != user_id@),
                0 <= j <= orig.len(),
                i <= self@.len(),
                self@.subrange(0, i as int) == orig.subrange(0, j).filter(pred),
                self@.subrange(i as int, self@.len() as int) == orig.subrange(j, orig.len() as int),
            decreases self@.len() - i,
        {
            let ghost cur = self@;
            proof {
                reveal(Seq::filter);
                assert(cur.subrange(i as int, cur.len() as int).len() == orig.subrange(
                    j,
                    orig.len() as int,
                ).len());
                assert(j < orig.len());
                assert(orig.subrange(0, j + 1).drop_last() =~= orig.subrange(0, j));
                assert(cur[i as int] == cur.subrange(i as int, cur.len() as int)[0]);
                assert(orig[j] == orig.subrange(j, orig.len() as int)[0]);
                assert(orig.subrange(0, j + 1).last() == orig[j]);
            }
            if str_eq(self.tokens[i].user_id.as_str(), user_id) {
                self.tokens.remove(i);
                proof {
                    assert(self@.subrange(0, i as int) =~= cur.subrange(0, i as int));
                    assert(self@.subrange(i as int, self@.len() as int) =~= cur.subrange(
                        i as int + 1,
                        cur.len() as int,
                    ));
                    assert(orig.subrange(j + 1, orig.len() as int) =~= orig.subrange(
                        j,
                        orig.len() as int,
                    ).subrange(1, orig.len() - j));
                    assert(cur.subrange(i as int + 1, cur.len() as int) =~= cur.subrange(
                        i as int,
                        cur.len() as int,
                    ).subrange(1, cur.len() - i));
                    j = j + 1;
                }
            } else {
                proof {
                    assert(self@.subrange(0, i as int + 1) =~= cur.subrange(0, i as int).push(
                        cur[i as int],
                    ));
                    assert(orig.subrange(j + 1, orig.len() as int) =~= orig.subrange(
                        j,
                        orig.len() as int,
                    ).subrange(1, orig.len() - j));
                    assert(cur.subrange(i as int + 1, cur.len() as int) =~= cur.subrange(
                        i as int,
                        cur.len() as int,
                    ).subrange(1, cur.len() - i));
                    j = j + 1;
                }
                i = i + 1;
            }
        }
        proof {
            assert(orig.subrange(j, orig.len() as int).len() == 0);
            assert(j == orig.len());
            assert(orig.subrange(0, j) =~= orig);
            assert(self@.subrange(0, i as int) =~= self@);
            lemma_filter_keeps_unique(orig, pred);
        }
    }

    /// Presents the handle `h` at `now`: see `check_outcome`.
    pub fn check_handle(&mut self, h: &str, now: i64) -> (r: Result<RefreshToken, ErrorResponse>)
        requires
            old(self).wf(),
        ensures
            final(self).wf(),
            final(self)@ == check_outcome(old(self)@, h@, now as int).0,
            r is Ok <==> check_outcome(old(self)@, h@, now as int).1 is Ok,
            r matches Ok(t) ==> same_token(t, old(self)@[handle_index(old(self)@, h@)]),
            r matches Err(e) ==> check_outcome(old(self)@, h@, now as int).1
                == Err::<RefreshToken, ErrorResponseType>(e.error),
    {
        let i = match self.position(h) {
            None => {
                return Err(
                    ErrorResponse::with(ErrorResponseType::NotFound, "Refresh Token not found"),
                );
            },
            Some(i) => i,
        };
        if self.tokens[i].exp < now {
            let uid = self.tokens[i].user_id.clone();
            self.invalidate_all_for_user(uid.as_str());
            return Err(
                ErrorResponse::with(
                    ErrorResponseType::BadRequest,
                    "Refresh Token has expired already. All other refresh tokens for this user have been invalidated now because of misuse.",
                ),
            );
        }
        if now < self.tokens[i].nbf {
            return Err(
                ErrorResponse::with(ErrorResponseType::BadRequest, "Refresh Token is not valid yet"),
            );
        }
        Ok(self.tokens[i].copy())
    }

    /// Applies the grace rule to the handle `h` redeemed at `now`: see
    /// `grace_outcome`.
    pub fn apply_grace(&mut self, h: &str, now: i64, grace: i64)
        requires
            old(self).wf(),
            valid_time(now),
            0 <= grace <= MAX_LIFETIME,
        ensures
            final(self).wf(),
            final(self)@ == grace_outcome(old(self)@, h@, now as int, grace as int),
    {
        let i = match self.position(h) {
            None => {
                return ;
            },
            Some(i) => i,
        };
        let limit = now + grace;
        if self.tokens[i].exp > limit + 1 {
            let ghost before = self@;
            let mut t = self.tokens.remove(i);
            t.exp = limit;
            self.tokens.insert(i, t);
            proof {
                assert(self@ =~= before.update(i as int, RefreshToken { exp: limit, ..before[i as int] }));
                assert forall|a: int, b: int|
                    0 <= a < self@.len() && 0 <= b < self@.len() && (#[trigger] self@[a]).id@ == (
                    #[trigger] self@[b]).id@ implies a == b by {
                    assert(self@[a].id@ == before[a].id@);
                    assert(self@[b].id@ == before[b].id@);
                }
            }
        }
    }
}

proof fn lemma_filter_keeps_unique(tokens: Seq<RefreshToken>, pred: spec_fn(RefreshToken) -> bool)
    requires
        handles_unique(tokens),
    ensures
        handles_unique(tokens.filter(pred)),
    decreases tokens.len(),
{
    reveal(Seq::filter);
    if tokens.len() > 0 {
        let init = tokens.drop_last();
        assert(handles_unique(init)) by {
            assert forall|i: int, j: int|
                0 <= i < init.len() && 0 <= j < init.len() && (#[trigger] init[i]).id@ == (
                #[trigger] init[j]).id@ implies i == j by {
                assert(init[i] == tokens[i]);
                assert(init[j] == tokens[j]);
            }
        }
        lemma_filter_keeps_unique(init, pred);
        let f = init.filter(pred);
        if pred(tokens.last()) {
            let g = f.push(tokens.last());
            assert forall|i: int, j: int|
                0 <= i < g.len() && 0 <= j < g.len() && (#[trigger] g[i]).id@ == (
                #[trigger] g[j]).id@ implies i == j by {
                if i < f.len() && j == f.len() {
                    assert(init.filter(pred).contains(g[i]));
                    lemma_filter_subset(init, pred, i);
                } else if j < f.len() && i == f.len() {
                    lemma_filter_subset(init, pred, j);
                }
            }
        }
    }
}

proof fn lemma_filter_subset(s: Seq<RefreshToken>, pred: spec_fn(RefreshToken) -> bool, i: int)
    requires
        0 <= i < s.filter(pred).len(),
    ensures
        exists|k: int| 0 <= k < s.len() && s[k] == s.filter(pred)[i],
    decreases s.len(),
{
    reveal(Seq::filter);
    let init = s.drop_last();
    if pred(s.last()) && i == init.filter(pred).len() {
        assert(s[s.len() - 1] == s.filter(pred)[i]);
    } else {
        lemma_filter_subset(init, pred, i);
        let k = choose|k: int| 0 <= k < init.len() && init[k] == init.filter(pred)[i];
        assert(s[k] == init[k]);
    }
}

/// A refresh token is redeemed once. After a redemption at `t1`, which
/// leaves its record expiring within the grace time, presenting it again
/// after that grace time is `BadRequest`, and leaves no record of its user.
pub proof fn lemma_refresh_single_use(
    tokens: Seq<RefreshToken>,
    h: Seq<char>,
    t1: int,
    grace: int,
    t2: int,
)
    requires
        handles_unique(tokens),
        check_outcome(tokens, h, t1).1 is Ok,
        0 <= t1,
        0 <= grace,
        t1 + grace <= i64::MAX,
        t2 > t1 + grace + 1,
    ensures
        check_outcome(grace_outcome(tokens, h, t1, grace), h, t2).1
            == Err::<RefreshToken, ErrorResponseType>(ErrorResponseType::BadRequest),
        forall|k: int|
            0 <= k < check_outcome(grace_outcome(tokens, h, t1, grace), h, t2).0.len()
                ==> (#[trigger] check_outcome(grace_outcome(tokens, h, t1, grace), h, t2).0[k]).user_id@
                != tokens[handle_index(tokens, h)].user_id@,
{
    assert(has_handle(tokens, h));
    let i = handle_index(tokens, h);
    assert(0 <= i < tokens.len() && tokens[i].id@ == h);
    let t = tokens[i];
    assert(t.exp >= t1);
    let s1 = grace_outcome(tokens, h, t1, grace);
    assert(s1[i].id@ == h);
    assert(s1[i].user_id@ == t.user_id@);
    assert(s1[i].exp < t2);
    assert(s1.len() == tokens.len());
    assert(has_handle(s1, h));
    let i1 = handle_index(s1, h);
    assert(0 <= i1 < s1.len() && s1[i1].id@ == h);
    assert(i1 == i) by {
        assert(s1[i1].id@ == tokens[i1].id@);
    }
    let pred = |x: RefreshToken| x.user_id@ != t.user_id@;
    let s2 = check_outcome(s1, h, t2).0;
    assert(s2 == s1.filter(pred));
    assert forall|k: int| 0 <= k < s2.len() implies (#[trigger] s2[k]).user_id@ != t.user_id@ by {
        s1.lemma_filter_pred(pred, k);
    }
}

} // verus!
