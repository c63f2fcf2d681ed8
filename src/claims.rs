//! The token engine: claims of access, ID and refresh tokens, and their
//! validity in time.

use vstd::prelude::*;
use crate::client::{valid_time, Client, GrantType, MAX_LIFETIME};
use crate::error::{ErrorResponse, ErrorResponseType};
use crate::keys::{has_kid, lemma_rotation_retains_keys, valid_rotation, Jwk};
use crate::text::{contains_str, copy_bytes, copy_strings, join_space, join_with_space, str_eq, views};
use crate::user::{User, UserAttr};

verus! {

/// Lifetime of a refresh token in seconds: 48 hours.
pub const REFRESH_TOKEN_LIFETIME: i64 = 172_800;

/// The `typ` claim of the three token kinds.
#[derive(Debug, Clone, Copy, PartialEq, Eq, Structural)]
pub enum JwtType {
    Bearer,
    Id,
    Refresh,
}

/// The `amr` claim of an ID token.
#[derive(Debug, Clone, Copy, PartialEq, Eq, Structural)]
pub enum JwtAmrValue {
    /// A password login.
    Pwd,
    /// A login with a second factor.
    Mfa,
}

/// The registered claims every token carries; times in seconds since the
/// epoch.
#[derive(Debug, Clone)]
pub struct CommonClaims {
    pub iss: String,
    pub aud: String,
    pub sub: Option<String>,
    pub iat: i64,
    pub nbf: i64,
    pub exp: i64,
}

/// A scope definition, with the custom user attributes it puts into access
/// and ID tokens.
#[derive(Debug, Clone)]
pub struct Scope {
    pub name: String,
    pub attr_include_access: Vec<String>,
    pub attr_include_id: Vec<String>,
}

/// Claims of an access token.
#[derive(Debug, Clone)]
pub struct AccessClaims {
    pub common: CommonClaims,
    pub typ: JwtType,
    pub azp: String,
    /// Space-separated.
    pub scope: String,
    pub uid: Option<String>,
    pub preferred_username: Option<String>,
    pub roles: Option<Vec<String>>,
    pub groups: Option<Vec<String>>,
    pub custom: Option<Vec<UserAttr>>,
}

/// Claims of an ID token.
#[derive(Debug, Clone)]
pub struct IdClaims {
    pub common: CommonClaims,
    pub typ: JwtType,
    pub azp: String,
    pub amr: JwtAmrValue,
    pub preferred_username: String,
    pub email: Option<String>,
    pub email_verified: Option<bool>,
    pub given_name: Option<String>,
    pub family_name: Option<String>,
    pub roles: Vec<String>,
    pub groups: Option<Vec<String>>,
    pub custom: Option<Vec<UserAttr>>,
    pub nonce: Option<String>,
}

/// Claims of a refresh token.
#[derive(Debug, Clone)]
pub struct RefreshClaims {
    pub common: CommonClaims,
    pub typ: JwtType,
    pub azp: String,
    pub uid: String,
}

/// The registered claims of a token issued by `issuer` at `iat` for
/// `lifetime` seconds.
pub open spec fn issued_at(c: CommonClaims, issuer: Seq<char>, iat: int, lifetime: int) -> bool {
    c.iss@ == issuer && c.iat == iat && c.nbf == iat && c.exp == iat + lifetime
}

/// The registered claims accept the time `now` and the issuer.
pub open spec fn claims_valid_at(c: CommonClaims, issuer: Seq<char>, now: int) -> bool {
    c.iss@ == issuer && c.iat <= now && c.nbf <= now && now <= c.exp
}

/// Fails with `Unauthorized` where the token is not from `issuer`, not yet
/// valid, or expired at `now`.
pub fn validate_claims(c: &CommonClaims, issuer: &str, now: i64) -> (r: Result<(), ErrorResponse>)
    ensures
        r is Ok <==> claims_valid_at(*c, issuer@, now as int),
        r matches Err(e) ==> e.error == ErrorResponseType::Unauthorized,
{
    if !str_eq(c.iss.as_str(), issuer) {
        return Err(ErrorResponse::with(ErrorResponseType::Unauthorized, "Invalid token issuer"));
    }
    if c.iat > now || c.nbf > now {
        return Err(ErrorResponse::with(ErrorResponseType::Unauthorized, "Token is not valid yet"));
    }
    if now > c.exp {
        return Err(ErrorResponse::with(ErrorResponseType::Unauthorized, "Token has expired"));
    }
    Ok(())
}

/// A token minted at `iat` with lifetime `lifetime` is accepted exactly at
/// the times `t` with `iat <= t <= iat + lifetime`: never before it was
/// issued, never after it expired.
pub proof fn lemma_token_validity_window(
    c: CommonClaims,
    issuer: Seq<char>,
    iat: int,
    lifetime: int,
    t: int,
)
    requires
        issued_at(c, issuer, iat, lifetime),
    ensures
        claims_valid_at(c, issuer, t) <==> iat <= t <= iat + lifetime,
{
}

/// A token signed with a stored key stays verifiable across a key rotation:
/// its key id still names the very key that signed it, and its claims are
/// accepted exactly from its issue time to its expiry, rotation or not.
pub proof fn lemma_token_survives_rotation(
    before: Seq<Jwk>,
    added: Seq<Jwk>,
    active: Seq<char>,
    signer: int,
    c: CommonClaims,
    issuer: Seq<char>,
    iat: int,
    lifetime: int,
    t: int,
)
    requires
        valid_rotation(before, added, active),
        0 <= signer < before.len(),
        issued_at(c, issuer, iat, lifetime),
    ensures
        has_kid(before + added, before[signer].kid@),
        forall|j: int|
            0 <= j < (before + added).len() && (#[trigger] (before + added)[j]).kid@
                == before[signer].kid@ ==> (before + added)[j] == before[signer],
        claims_valid_at(c, issuer, t) <==> iat <= t <= iat + lifetime,
{
    lemma_rotation_retains_keys(before, added, active, signer);
    lemma_token_validity_window(c, issuer, iat, lifetime, t);
}

fn common_claims(issuer: &str, aud: &String, sub: Option<String>, now: i64, lifetime: i64) -> (r:
    CommonClaims)
    requires
        valid_time(now),
        0 <= lifetime <= MAX_LIFETIME,
    ensures
        issued_at(r, issuer@, now as int, lifetime as int),
        r.aud@ == aud@,
        r.sub == sub,
{
    CommonClaims {
        iss: issuer.to_owned(),
        aud: aud.clone(),
        sub,
        iat: now,
        nbf: now,
        exp: now + lifetime,
    }
}

/// Some string of `l` is `name`.
pub open spec fn lists_name(l: Seq<String>, name: Seq<char>) -> bool {
    exists|j: int| 0 <= j < l.len() && (#[trigger] l[j])@ == name
}

/// The attribute names a scope puts into ID tokens, or into access tokens.
pub open spec fn include_list(s: Scope, for_id: bool) -> Seq<String> {
    if for_id {
        s.attr_include_id@
    } else {
        s.attr_include_access@
    }
}

/// Some scope asks for the attribute `name`.
pub open spec fn attr_referenced(scopes: Seq<Scope>, name: Seq<char>, for_id: bool) -> bool {
    exists|i: int| 0 <= i < scopes.len() && lists_name(include_list(#[trigger] scopes[i], for_id), name)
}

pub open spec fn attr_views(v: Seq<UserAttr>) -> Seq<(Seq<char>, Seq<u8>)> {
    v.map_values(|a: UserAttr| (a.name@, a.value@))
}

/// The user's attributes, in their order, that some scope asks for.
pub open spec fn custom_attrs(scopes: Seq<Scope>, attrs: Seq<UserAttr>, for_id: bool) -> Seq<
    (Seq<char>, Seq<u8>),
> {
    attr_views(attrs).filter(|p: (Seq<char>, Seq<u8>)| attr_referenced(scopes, p.0, for_id))
}

fn referenced(scopes: &Vec<Scope>, name: &str, for_id: bool) -> (r: bool)
    ensures
        r == attr_referenced(scopes@, name@, for_id),
{
    let mut i: usize = 0;
    while i < scopes.len()
        invariant
            i <= scopes@.len(),
            forall|k: int| 0 <= k < i ==> !lists_name(include_list(#[trigger] scopes@[k], for_id), name@),
        decreases scopes@.len() - i,
    {
        let list = if for_id {
            &scopes[i].attr_include_id
        } else {
            &scopes[i].attr_include_access
        };
        if contains_str(list, name) {
            return true;
        }
        i = i + 1;
    }
    false
}

/// The custom claims: the user's attributes that the scopes ask for, or
/// `None` where there is none.
fn custom_claims(scopes: &Vec<Scope>, attrs: &Vec<UserAttr>, for_id: bool) -> (r: Option<
    Vec<UserAttr>,
>)
    ensures
        r is None <==> custom_attrs(scopes@, attrs@, for_id).len() == 0,
        r matches Some(v) ==> attr_views(v@) == custom_attrs(scopes@, attrs@, for_id),
{
    let ghost pred = |p: (Seq<char>, Seq<u8>)| attr_referenced(scopes@, p.0, for_id);
    let mut out: Vec<UserAttr> = Vec::new();
    let mut i: usize = 0;
    while i < attrs.len()
        invariant
            i <= attrs@.len(),
            pred == (|p: (Seq<char>, Seq<u8>)| attr_referenced(scopes@, p.0, for_id)),
            attr_views(out@) == attr_views(attrs@).subrange(0, i as int).filter(pred),
        decreases attrs@.len() - i,
    {
        let ghost pre = attr_views(attrs@).subrange(0, i as int);
        let ghost next = attr_views(attrs@).subrange(0, i as int + 1);
        assert(next.drop_last() =~= pre);
        proof {
            reveal(Seq::filter);
        }
        let a = &attrs[i];
        if referenced(scopes, a.name.as_str(), for_id) {
            let ghost prev = out@;
            let copy = UserAttr { name: a.name.clone(), value: copy_bytes(&a.value) };
            out.push(copy);
            assert(attr_views(out@) =~= attr_views(prev).push((a.name@, a.value@)));
            assert(attr_views(out@) =~= next.filter(pred));
        } else {
            assert(attr_views(out@) =~= next.filter(pred));
        }
        i = i + 1;
    }
    assert(attr_views(attrs@).subrange(0, attrs@.len() as int) =~= attr_views(attrs@));
    if out.len() == 0 {
        None
    } else {
        Some(out)
    }
}

/// The scopes of a token: those given, or the client's default scopes.
pub open spec fn token_scopes(scope: Option<Seq<Seq<char>>>, client: Client) -> Seq<Seq<char>> {
    match scope {
        Some(s) => s,
        None => views(client.default_scopes@),
    }
}

pub open spec fn opt_views(scope: Option<&Vec<String>>) -> Option<Seq<Seq<char>>> {
    match scope {
        Some(s) => Some(views(s@)),
        None => None,
    }
}

pub open spec fn opt_scopes(s: Option<&Vec<Scope>>) -> Option<Seq<Scope>> {
    match s {
        Some(v) => Some(v@),
        None => None,
    }
}

/// The custom claim of a token: present where a user and scope definitions
/// are given and some attribute is asked for.
pub open spec fn custom_for(
    custom: Option<Vec<UserAttr>>,
    attrs: Option<Seq<UserAttr>>,
    scopes: Option<Seq<Scope>>,
    for_id: bool,
) -> bool {
    match (attrs, scopes) {
        (Some(a), Some(s)) => {
            &&& custom is None <==> custom_attrs(s, a, for_id).len() == 0
            &&& custom matches Some(v) ==> attr_views(v@) == custom_attrs(s, a, for_id)
        },
        _ => custom is None,
    }
}

/// The access token claims for `user` (none for a client's own token),
/// issued at `now` by `issuer`.
pub open spec fn access_claims_for(
    r: AccessClaims,
    user: Option<User>,
    client: Client,
    issuer: Seq<char>,
    now: int,
    scope: Option<Seq<Seq<char>>>,
    scope_customs: Option<Seq<Scope>>,
) -> bool {
    let scopes = token_scopes(scope, client);
    &&& issued_at(r.common, issuer, now, client.access_token_lifetime as int)
    &&& r.common.aud@ == client.id@
    &&& r.typ == JwtType::Bearer
    &&& r.azp@ == client.id@
    &&& r.scope@ == join_space(scopes)
    &&& match user {
        None => {
            &&& r.common.sub is None
            &&& r.uid is None
            &&& r.preferred_username is None
            &&& r.roles is None
            &&& r.groups is None
        },
        Some(u) => {
            &&& r.common.sub matches Some(s) && s@ == u.email@
            &&& r.uid matches Some(s) && s@ == u.id@
            &&& r.preferred_username matches Some(s) && s@ == u.email@
            &&& r.roles matches Some(v) && v@ == u.roles@
            &&& r.groups is Some <==> scopes.contains("groups"@)
            &&& r.groups matches Some(v) ==> v@ == u.groups@
        },
    }
    &&& custom_for(
        r.custom,
        match user {
            Some(u) => Some(u.attributes@),
            None => None,
        },
        scope_customs,
        false,
    )
}

fn scopes_contain(scopes: &Vec<String>, name: &str) -> (r: bool)
    ensures
        r == views(scopes@).contains(name@),
{
    let r = contains_str(scopes, name);
    proof {
        if r {
            let w = choose|w: int| 0 <= w < scopes@.len() && (#[trigger] scopes@[w])@ == name@;
            assert(views(scopes@)[w] == name@);
        }
        if views(scopes@).contains(name@) {
            let w = choose|w: int| 0 <= w < views(scopes@).len() && views(scopes@)[w] == name@;
            assert(scopes@[w]@ == name@);
        }
    }
    r
}

/// Builds the claims of an access token: for a user where one is given,
/// else for the client itself.
pub fn build_access_token(
    user: Option<&User>,
    client: &Client,
    issuer: &str,
    now: i64,
    scope: Option<&Vec<String>>,
    scope_customs: Option<&Vec<Scope>>,
) -> (r: AccessClaims)
    requires
        client.wf(),
        valid_time(now),
    ensures
        access_claims_for(
            r,
            match user {
                Some(u) => Some(*u),
                None => None,
            },
            *client,
            issuer@,
            now as int,
            opt_views(scope),
            opt_scopes(scope_customs),
        ),
{
    let scopes = match scope {
        Some(s) => copy_strings(s),
        None => copy_strings(&client.default_scopes),
    };
    let scope_str = join_with_space(&scopes);
    match user {
        None => {
            let common = common_claims(issuer, &client.id, None, now, client.access_token_lifetime);
            AccessClaims {
                common,
                typ: JwtType::Bearer,
                azp: client.id.clone(),
                scope: scope_str,
                uid: None,
                preferred_username: None,
                roles: None,
                groups: None,
                custom: None,
            }
        },
        Some(u) => {
            let common = common_claims(
                issuer,
                &client.id,
                Some(u.email.clone()),
                now,
                client.access_token_lifetime,
            );
            let groups = if scopes_contain(&scopes, "groups") {
                Some(copy_strings(&u.groups))
            } else {
                None
            };
            let custom = match scope_customs {
                Some(sc) => custom_claims(sc, &u.attributes, false),
                None => None,
            };
            AccessClaims {
                common,
                typ: JwtType::Bearer,
                azp: client.id.clone(),
                scope: scope_str,
                uid: Some(u.id.clone()),
                preferred_username: Some(u.email.clone()),
                roles: Some(copy_strings(&u.roles)),
                groups,
                custom,
            }
        },
    }
}

/// The ID token claims for `user`, issued at `now` by `issuer`.
pub open spec fn id_claims_for(
    r: IdClaims,
    user: User,
    client: Client,
    issuer: Seq<char>,
    now: int,
    nonce: Option<String>,
    scopes: Seq<Seq<char>>,
    scope_customs: Option<Seq<Scope>>,
    is_mfa_flow: bool,
) -> bool {
    &&& issued_at(r.common, issuer, now, client.access_token_lifetime as int)
    &&& r.common.aud@ == client.id@
    &&& r.common.sub matches Some(s) && s@ == user.id@
    &&& r.typ == JwtType::Id
    &&& r.azp@ == client.id@
    &&& r.amr == if user.webauthn_enabled && is_mfa_flow {
        JwtAmrValue::Mfa
    } else {
        JwtAmrValue::Pwd
    }
    &&& r.preferred_username@ == user.email@
    &&& r.email is Some <==> scopes.contains("email"@)
    &&& r.email matches Some(e) ==> e@ == user.email@
    &&& r.email_verified is Some <==> scopes.contains("email"@)
    &&& r.email_verified matches Some(v) ==> v == user.email_verified
    &&& r.given_name is Some <==> scopes.contains("profile"@)
    &&& r.given_name matches Some(g) ==> g@ == user.given_name@
    &&& r.family_name is Some <==> scopes.contains("profile"@)
    &&& r.family_name matches Some(f) ==> f@ == user.family_name@
    &&& r.roles@ == user.roles@
    &&& r.groups is Some <==> scopes.contains("groups"@)
    &&& r.groups matches Some(v) ==> v@ == user.groups@
    &&& custom_for(r.custom, Some(user.attributes@), scope_customs, true)
    &&& r.nonce == nonce
}

/// Builds the claims of an ID token. `amr` is `mfa` for a user with
/// passkeys who logged in through the authorization-code flow.
pub fn build_id_token(
    user: &User,
    client: &Client,
    issuer: &str,
    now: i64,
    nonce: Option<String>,
    scope: &Vec<String>,
    scope_customs: Option<&Vec<Scope>>,
    is_auth_code_flow: bool,
) -> (r: IdClaims)
    requires
        client.wf(),
        valid_time(now),
    ensures
        id_claims_for(
            r,
            *user,
            *client,
            issuer@,
            now as int,
            nonce,
            views(scope@),
            opt_scopes(scope_customs),
            is_auth_code_flow,
        ),
{
    let amr = if user.webauthn_enabled && is_auth_code_flow {
        JwtAmrValue::Mfa
    } else {
        JwtAmrValue::Pwd
    };
    let common = common_claims(
        issuer,
        &client.id,
        Some(user.id.clone()),
        now,
        client.access_token_lifetime,
    );
    let with_email = scopes_contain(scope, "email");
    let with_profile = scopes_contain(scope, "profile");
    let with_groups = scopes_contain(scope, "groups");
    IdClaims {
        common,
        typ: JwtType::Id,
        azp: client.id.clone(),
        amr,
        preferred_username: user.email.clone(),
        email: if with_email {
            Some(user.email.clone())
        } else {
            None
        },
        email_verified: if with_email {
            Some(user.email_verified)
        } else {
            None
        },
        given_name: if with_profile {
            Some(user.given_name.clone())
        } else {
            None
        },
        family_name: if with_profile {
            Some(user.family_name.clone())
        } else {
            None
        },
        roles: copy_strings(&user.roles),
        groups: if with_groups {
            Some(copy_strings(&user.groups))
        } else {
            None
        },
        custom: match scope_customs {
            Some(sc) => custom_claims(sc, &user.attributes, true),
            None => None,
        },
        nonce,
    }
}

/// The refresh token claims for `user`, issued at `now` by `issuer`.
pub open spec fn refresh_claims_for(
    r: RefreshClaims,
    user: User,
    client: Client,
    issuer: Seq<char>,
    now: int,
) -> bool {
    &&& issued_at(r.common, issuer, now, REFRESH_TOKEN_LIFETIME as int)
    &&& r.common.aud@ == client.id@
    &&& r.common.sub is None
    &&& r.typ == JwtType::Refresh
    &&& r.azp@ == client.id@
    &&& r.uid@ == user.id@
}

/// Builds the claims of a refresh token, valid for 48 hours.
pub fn build_refresh_token(user: &User, client: &Client, issuer: &str, now: i64) -> (r:
    RefreshClaims)
    requires
        valid_time(now),
    ensures
        refresh_claims_for(r, *user, *client, issuer@, now as int),
{
    RefreshClaims {
        common: common_claims(issuer, &client.id, None, now, REFRESH_TOKEN_LIFETIME),
        typ: JwtType::Refresh,
        azp: client.id.clone(),
        uid: user.id.clone(),
    }
}

/// The claims of a whole token set, to be signed: the access token, and
/// for a user the ID token and, where the client may refresh, the refresh
/// token.
#[derive(Debug, Clone)]
pub struct TokenSetClaims {
    pub access: AccessClaims,
    pub id: Option<IdClaims>,
    pub refresh: Option<RefreshClaims>,
    /// Seconds until the access token expires.
    pub expires_in: i64,
    /// The scopes the refresh token is recorded with.
    pub scopes: Vec<String>,
    /// Whether the login used a second factor; recorded with the refresh
    /// token.
    pub is_mfa: bool,
}

/// The token set for `user`.
pub open spec fn user_token_set_for(
    r: TokenSetClaims,
    user: User,
    client: Client,
    issuer: Seq<char>,
    now: int,
    nonce: Option<String>,
    scope: Option<Seq<Seq<char>>>,
    scope_customs: Option<Seq<Scope>>,
    is_mfa: bool,
) -> bool {
    &&& access_claims_for(r.access, Some(user), client, issuer, now, scope, scope_customs)
    &&& r.id matches Some(id) && id_claims_for(
        id,
        user,
        client,
        issuer,
        now,
        nonce,
        token_scopes(scope, client),
        scope_customs,
        is_mfa,
    )
    &&& r.refresh is Some <==> client.flows_enabled@.contains(GrantType::RefreshToken)
    &&& r.refresh matches Some(rt) ==> refresh_claims_for(rt, user, client, issuer, now)
    &&& r.expires_in == client.access_token_lifetime
    &&& views(r.scopes@) == token_scopes(scope, client)
    &&& r.is_mfa == is_mfa
}

/// The full token set for a user: access, ID and, where the client may use
/// the refresh flow, refresh token claims.
pub fn token_set_for_user(
    user: &User,
    client: &Client,
    issuer: &str,
    now: i64,
    nonce: Option<String>,
    scope: Option<&Vec<String>>,
    scope_customs: Option<&Vec<Scope>>,
    is_mfa: bool,
) -> (r: TokenSetClaims)
    requires
        client.wf(),
        valid_time(now),
    ensures
        user_token_set_for(
            r,
            *user,
            *client,
            issuer@,
            now as int,
            nonce,
            opt_views(scope),
            opt_scopes(scope_customs),
            is_mfa,
        ),
{
    let scopes = match scope {
        Some(s) => copy_strings(s),
        None => copy_strings(&client.default_scopes),
    };
    let access = build_access_token(Some(user), client, issuer, now, scope, scope_customs);
    let id = build_id_token(user, client, issuer, now, nonce, &scopes, scope_customs, is_mfa);
    let refresh = if client.validate_flow(GrantType::RefreshToken).is_ok() {
        Some(build_refresh_token(user, client, issuer, now))
    } else {
        None
    };
    TokenSetClaims {
        access,
        id: Some(id),
        refresh,
        expires_in: client.access_token_lifetime,
        scopes,
        is_mfa,
    }
}

/// The token set of the client-credentials flow: an access token for the
/// client itself, with its default scopes, and nothing else.
pub fn token_set_for_client(client: &Client, issuer: &str, now: i64) -> (r: TokenSetClaims)
    requires
        client.wf(),
        valid_time(now),
    ensures
        access_claims_for(r.access, None, *client, issuer@, now as int, None, None),
        r.id is None,
        r.refresh is None,
        r.expires_in == client.access_token_lifetime,
        views(r.scopes@) == views(client.default_scopes@),
        !r.is_mfa,
{
    let access = build_access_token(None, client, issuer, now, None, None);
    TokenSetClaims {
        access,
        id: None,
        refresh: None,
        expires_in: client.access_token_lifetime,
        scopes: copy_strings(&client.default_scopes),
        is_mfa: false,
    }
}

} // verus!
