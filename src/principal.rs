//! The permissions and the principal of a request.

use vstd::prelude::*;
use crate::claims::AccessClaims;
use crate::error::{ErrorResponse, ErrorResponseType};
use crate::session::{Session, SessionState};
use crate::text::{copy_strings, views};

verus! {

/// The authenticated party of a request.
#[derive(Debug, Clone)]
pub struct Principal {
    pub user_id: String,
    pub email: Option<String>,
    pub has_mfa_active: bool,
    pub has_session: bool,
    pub has_token: bool,
    pub roles: Vec<String>,
}

/// The permission a session grants by its state.
pub open spec fn session_permission(state: SessionState) -> Seq<char> {
    match state {
        SessionState::Init => "session-init"@,
        SessionState::Auth => "session-auth"@,
        _ => "session-anon"@,
    }
}

/// The permissions of a token's roles: each role prefixed with `ROLE_`.
pub open spec fn role_permissions(roles: Seq<String>) -> Seq<Seq<char>> {
    roles.map_values(|r: String| "ROLE_"@ + r@)
}

/// An authenticated session lacks its user or its roles.
pub open spec fn session_broken(session: Option<Session>) -> bool {
    session matches Some(s) && s.state == SessionState::Auth && (s.user_id is None || s.roles is None)
}

/// The permissions from the session and the API key.
pub open spec fn base_permissions(session: Option<Session>, api_key_valid: bool) -> Seq<Seq<char>> {
    seq!["all"@] + match session {
        Some(s) => seq![session_permission(s.state)] + if s.state == SessionState::Auth {
            match s.roles {
                Some(r) => views(r@),
                None => Seq::empty(),
            }
        } else {
            Seq::empty()
        },
        None => Seq::empty(),
    } + if api_key_valid {
        seq!["api-key"@]
    } else {
        Seq::empty()
    }
}

/// The principal an authenticated session makes.
pub open spec fn is_session_principal(p: Principal, s: Session) -> bool {
    &&& s.user_id matches Some(u) && p.user_id@ == u@
    &&& p.email is None
    &&& p.has_mfa_active == s.is_mfa
    &&& p.has_session
    &&& !p.has_token
    &&& s.roles matches Some(r) && p.roles@ == r@
}

/// The principal from the session alone.
pub open spec fn session_principal_matches(p: Option<Principal>, session: Option<Session>) -> bool {
    match session {
        Some(s) if s.state == SessionState::Auth => p matches Some(q) && is_session_principal(q, s),
        _ => p is None,
    }
}

/// The session principal of `sv`, joined by a token of the same user.
pub open spec fn is_joined_principal(p: Option<Principal>, sv: Session, uid: Seq<char>, sub: Seq<char>) -> bool {
    match p {
        Some(q) => {
            &&& q.email matches Some(e) && e@ == sub
            &&& q.has_token
            &&& q.has_session
            &&& q.user_id@ == uid
            &&& q.has_mfa_active == sv.is_mfa
            &&& sv.roles matches Some(sr) && q.roles@ == sr@
        },
        None => false,
    }
}

/// The principal a token of a user makes without a session principal.
pub open spec fn is_token_principal(p: Option<Principal>, uid: Seq<char>, sub: Seq<char>, roles: Seq<String>) -> bool {
    match p {
        Some(q) => {
            &&& q.user_id@ == uid
            &&& q.email matches Some(e) && e@ == sub
            &&& !q.has_mfa_active
            &&& !q.has_session
            &&& q.has_token
            &&& views(q.roles@) == role_permissions(roles)
        },
        None => false,
    }
}

fn push_str(out: &mut Vec<String>, s: &str)
    ensures
        views(final(out)@) == views(old(out)@).push(s@),
{
    out.push(s.to_owned());
    assert(views(final(out)@) =~= views(old(out)@).push(s@));
}

fn push_all(out: &mut Vec<String>, v: &Vec<String>)
    ensures
        views(final(out)@) == views(old(out)@) + views(v@),
{
    let ghost start = views(out@);
    let mut i: usize = 0;
    while i < v.len()
        invariant
            i <= v@.len(),
            views(out@) == start + views(v@).subrange(0, i as int),
        decreases v@.len() - i,
    {
        let ghost prev = out@;
        out.push(v[i].clone());
        assert(views(out@) =~= views(prev).push(v@[i as int]@));
        assert(views(v@).subrange(0, i as int + 1) =~= views(v@).subrange(0, i as int).push(v@[i as int]@));
        assert(start + views(v@).subrange(0, i as int + 1) =~= (start + views(v@).subrange(0, i as int)).push(v@[i as int]@));
        i = i + 1;
    }
    assert(views(v@).subrange(0, v@.len() as int) =~= views(v@));
}

fn role_names(roles: &Vec<String>) -> (r: Vec<String>)
    ensures
        views(r@) == role_permissions(roles@),
{
    let mut out: Vec<String> = Vec::new();
    let mut i: usize = 0;
    while i < roles.len()
        invariant
            i <= roles@.len(),
            views(out@) == role_permissions(roles@).subrange(0, i as int),
        decreases roles@.len() - i,
    {
        let ghost prev = out@;
        let name = "ROLE_".to_owned().concat(roles[i].as_str());
        out.push(name);
        assert(views(out@) =~= views(prev).push("ROLE_"@ + roles@[i as int]@));
        assert(role_permissions(roles@).subrange(0, i as int + 1) =~= role_permissions(roles@).subrange(0, i as int).push("ROLE_"@ + roles@[i as int]@));
        i = i + 1;
    }
    assert(role_permissions(roles@).subrange(0, roles@.len() as int) =~= role_permissions(roles@));
    out
}

/// The permissions of a request and its principal, merged from the
/// session, a valid API key, and the claims of a valid access token.
///
/// The session, where it is authenticated, makes the principal. A token
/// adds its roles as `ROLE_` permissions. A token of a user makes the
/// principal where there is no session principal, or joins the session
/// principal of the same user; where the two name different users the
/// session wins and the token adds nothing: no roles, no `token-auth`.
pub fn permission_extractor(
    session: Option<&Session>,
    api_key_valid: bool,
    token: Option<&AccessClaims>,
) -> (r: Result<(Vec<String>, Option<Principal>), ErrorResponse>)
    ensures
        ({
            let s = match session {
                Some(s) => Some(*s),
                None => None,
            };
            let base = base_permissions(s, api_key_valid);
            if session_broken(s) {
                r matches Err(e) && e.error == ErrorResponseType::Internal
            } else {
                match token {
                    None => r matches Ok((perms, p)) && views(perms@) == base
                        && session_principal_matches(p, s),
                    Some(c) => match c.roles {
                        None => r matches Err(e) && e.error == ErrorResponseType::Internal,
                        Some(roles) => {
                            let with_roles = base + role_permissions(roles@);
                            match c.uid {
                                None => r matches Ok((perms, p)) && views(perms@) == with_roles.push(
                                    "token-auth"@,
                                ) && session_principal_matches(p, s),
                                Some(uid) => match c.common.sub {
                                    None => r matches Err(e) && e.error
                                        == ErrorResponseType::Unauthorized,
                                    Some(sub) => match s {
                                        Some(sv) if sv.state == SessionState::Auth => {
                                            if sv.user_id matches Some(u) && u@ != uid@ {
                                                r matches Ok((perms, p)) && views(perms@)
                                                    == base && session_principal_matches(p, s)
                                            } else {
                                                r matches Ok((perms, p)) && views(perms@)
                                                    == with_roles.push("token-auth"@)
                                                    && is_joined_principal(p, sv, uid@, sub@)
                                            }
                                        },
                                        _ => r matches Ok((perms, p)) && views(perms@)
                                            == with_roles.push("token-auth"@)
                                            && is_token_principal(p, uid@, sub@, roles@),
                                    },
                                },
                            }
                        },
                    },
                }
            }
        }),
{
    let mut perms: Vec<String> = Vec::new();
    push_str(&mut perms, "all");
    let mut principal: Option<Principal> = None;
    match session {
        None => {},
        Some(s) => {
            match s.state {
                SessionState::Init => push_str(&mut perms, "session-init"),
                SessionState::Auth => push_str(&mut perms, "session-auth"),
                _ => push_str(&mut perms, "session-anon"),
            }
            if s.state == SessionState::Auth {
                let user_id = match &s.user_id {
                    Some(u) => u.clone(),
                    None => {
                        return Err(
                            ErrorResponse::with(
                                ErrorResponseType::Internal,
                                "No user_id for authenticated session",
                            ),
                        );
                    },
                };
                let roles = match &s.roles {
                    Some(r) => r,
                    None => {
                        return Err(
                            ErrorResponse::with(
                                ErrorResponseType::Internal,
                                "No roles for authenticated session",
                            ),
                        );
                    },
                };
                push_all(&mut perms, roles);
                principal = Some(
                    Principal {
                        user_id,
                        email: None,
                        has_mfa_active: s.is_mfa,
                        has_session: true,
                        has_token: false,
                        roles: copy_strings(roles),
                    },
                );
            }
        },
    }
    if api_key_valid {
        push_str(&mut perms, "api-key");
    }
    let ghost s_spec = match session {
        Some(s) => Some(*s),
        None => None,
    };
    assert(views(perms@) =~= base_permissions(s_spec, api_key_valid));
    let c = match token {
        None => {
            return Ok((perms, principal));
        },
        Some(c) => c,
    };
    let roles = match &c.roles {
        None => {
            return Err(
                ErrorResponse::with(ErrorResponseType::Internal, "Malformed JWT Token - roles missing"),
            );
        },
        Some(r) => r,
    };
    let token_roles = role_names(roles);
    match &c.uid {
        None => {
            push_all(&mut perms, &token_roles);
        },
        Some(uid) => {
            let sub = match &c.common.sub {
                None => {
                    return Err(
                        ErrorResponse::with(ErrorResponseType::Unauthorized, "Malformed JWT Token"),
                    );
                },
                Some(sub) => sub,
            };
            match principal {
                Some(p) => {
                    if p.user_id != *uid {
                        // session and token name different users: the session wins
                        return Ok((perms, Some(p)));
                    }
                    push_all(&mut perms, &token_roles);
                    principal = Some(
                        Principal {
                            user_id: p.user_id,
                            email: Some(sub.clone()),
                            has_mfa_active: p.has_mfa_active,
                            has_session: p.has_session,
                            has_token: true,
                            roles: p.roles,
                        },
                    );
                },
                None => {
                    push_all(&mut perms, &token_roles);
                    principal = Some(
                        Principal {
                            user_id: uid.clone(),
                            email: Some(sub.clone()),
                            has_mfa_active: false,
                            has_session: false,
                            has_token: true,
                            roles: token_roles,
                        },
                    );
                },
            }
        },
    }
    push_str(&mut perms, "token-auth");
    Ok((perms, principal))
}

} // verus!
