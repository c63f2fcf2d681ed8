use rauthy_service::auth_code::AuthCodeStore;
use rauthy_service::authorize::{authorize, AuthStep, LoginRequest};
use rauthy_service::claims::{
    build_access_token, build_id_token, token_set_for_user, validate_claims, JwtAmrValue, JwtType,
    Scope,
};
use rauthy_service::client::{Client, GrantType};
use rauthy_service::grant::{
    finish_code_grant, get_token_set, grant_type_code, grant_type_credentials, grant_type_password,
    grant_type_refresh, validate_refresh_token, TokenRequest,
};
use rauthy_service::keys::JwkKeyPairType;
use rauthy_service::pkce::{s256_challenge, ChallengeMethod};
use rauthy_service::refresh::{RefreshToken, RefreshTokenStore};
use rauthy_service::session::{Session, SessionState};
use rauthy_service::user::{User, UserAttr};
use rauthy_service::ErrorResponseType;

const ISSUER: &str = "https://idp.example/auth/v1";
const NOW: i64 = 1_700_000_000;

fn sha(s: &str) -> Vec<u8> {
    ring::digest::digest(&ring::digest::SHA256, s.as_bytes()).as_ref().to_vec()
}

fn user(webauthn: bool) -> User {
    User {
        id: "uid-1".to_string(),
        email: "u@x".to_string(),
        email_verified: true,
        given_name: "Una".to_string(),
        family_name: "Example".to_string(),
        password: Some("$argon2id$hash".to_string()),
        webauthn_enabled: webauthn,
        enabled: true,
        user_expires: None,
        last_login: None,
        last_failed_login: None,
        failed_login_attempts: None,
        roles: vec!["user".to_string()],
        groups: vec!["staff".to_string()],
        attributes: vec![UserAttr { name: "city".to_string(), value: b"\"Berlin\"".to_vec() }],
    }
}

fn client(confidential: bool) -> Client {
    Client {
        id: "client-1".to_string(),
        enabled: true,
        confidential,
        secret_hash: if confidential { Some(sha("s3cret")) } else { None },
        flows_enabled: vec![
            GrantType::AuthorizationCode,
            GrantType::ClientCredentials,
            GrantType::Password,
            GrantType::RefreshToken,
        ],
        redirect_uris: vec!["https://app.example/*".to_string()],
        post_logout_redirect_uris: vec!["https://app.example/bye".to_string()],
        allowed_origins: vec!["https://app.example".to_string()],
        challenge: vec![ChallengeMethod::S256, ChallengeMethod::Plain],
        access_token_alg: JwkKeyPairType::EdDSA,
        id_token_alg: JwkKeyPairType::RS256,
        scopes: vec!["openid".to_string(), "email".to_string(), "groups".to_string()],
        default_scopes: vec!["openid".to_string()],
        access_token_lifetime: 1800,
        auth_code_lifetime: 60,
    }
}

fn session() -> Session {
    Session {
        id: "sid-1".to_string(),
        csrf_token: "csrf-1".to_string(),
        state: SessionState::Init,
        is_mfa: false,
        user_id: None,
        roles: None,
        groups: None,
        last_seen: NOW - 10,
        exp: NOW + 3600,
    }
}

fn login(password: Option<&str>, challenge: Option<String>) -> LoginRequest {
    LoginRequest {
        email: "u@x".to_string(),
        password: password.map(|p| p.to_string()),
        client_id: "client-1".to_string(),
        redirect_uri: "https://app.example/cb".to_string(),
        scopes: vec!["openid".to_string()],
        nonce: Some("n-1".to_string()),
        state: Some("st".to_string()),
        code_challenge: challenge,
        code_challenge_method: Some("S256".to_string()),
    }
}

fn token_req(grant: &str) -> TokenRequest {
    TokenRequest {
        grant_type: grant.to_string(),
        code: None,
        redirect_uri: None,
        client_id: "client-1".to_string(),
        client_secret: None,
        code_verifier: None,
        username: None,
        password: None,
        refresh_token: None,
    }
}

#[test]
fn auth_code_pkce_s256_flow() {
    let verifier = "abcdefghijklmnopqrstuvwxyz012345";
    let challenge = String::from_utf8(s256_challenge(verifier)).unwrap();
    let c = client(false);
    let mut codes = AuthCodeStore::new();
    let mut sess = session();
    let (u, step) = authorize(
        Some(user(false)),
        true,
        None,
        Some(&c),
        Some("https://app.example"),
        &mut sess,
        &login(Some("p"), Some(challenge)),
        &mut codes,
        "code-1".to_string(),
        "w".repeat(48),
        NOW,
        60,
    );
    assert_eq!(u.as_ref().unwrap().last_login, Some(NOW));
    match step.unwrap() {
        AuthStep::LoggedIn(l) => {
            assert_eq!(l.header_loc, "https://app.example/cb?code=code-1&state=st");
            assert!(l.has_password_been_hashed);
            assert_eq!(l.header_origin, Some("https://app.example".to_string()));
            assert_eq!(l.header_csrf, "csrf-1");
        }
        AuthStep::AwaitWebauthn(_) => panic!("no second factor expected"),
    }
    assert_eq!(codes.find("code-1").unwrap().exp, NOW + 60);

    let mut req = token_req("authorization_code");
    req.code = Some("code-1".to_string());
    req.code_verifier = Some(verifier.to_string());
    let (code, _) = grant_type_code(Some(&c), None, &req, &mut codes, NOW + 5).unwrap();
    assert!(codes.find("code-1").is_none());
    let (sess_after, ts) = finish_code_grant(&code, &u.unwrap(), &c, Some(sess), ISSUER, NOW + 5, None);
    let ts = ts.unwrap();
    assert_eq!(ts.access.uid, Some("uid-1".to_string()));
    assert_eq!(ts.access.azp, "client-1");
    assert_eq!(ts.access.scope, "openid");
    assert_eq!(ts.id.as_ref().unwrap().nonce, Some("n-1".to_string()));
    assert!(ts.refresh.is_some());
    let s = sess_after.unwrap();
    assert_eq!(s.state, SessionState::Auth);
    assert_eq!(s.user_id, Some("uid-1".to_string()));
}

#[test]
fn auth_code_wrong_verifier_then_replay() {
    let verifier = "abcdefghijklmnopqrstuvwxyz012345";
    let challenge = String::from_utf8(s256_challenge(verifier)).unwrap();
    let c = client(false);
    let mut codes = AuthCodeStore::new();
    let mut sess = session();
    let (_, step) = authorize(
        Some(user(false)), true, None, Some(&c), None, &mut sess,
        &login(Some("p"), Some(challenge)), &mut codes, "code-1".to_string(), "w".repeat(48), NOW, 60,
    );
    assert!(step.is_ok());
    let mut req = token_req("authorization_code");
    req.code = Some("code-1".to_string());
    req.code_verifier = Some("wrong".to_string());
    let e = grant_type_code(Some(&c), None, &req, &mut codes, NOW + 5).unwrap_err();
    assert_eq!(e.error, ErrorResponseType::Unauthorized);
    assert_eq!(e.message, "'code_verifier' does not match the challenge");
    req.code_verifier = Some(verifier.to_string());
    let e = grant_type_code(Some(&c), None, &req, &mut codes, NOW + 6).unwrap_err();
    assert_eq!(e.error, ErrorResponseType::Unauthorized);
}

#[test]
fn webauthn_branch_awaits_second_factor() {
    let c = client(false);
    let mut codes = AuthCodeStore::new();
    let mut sess = session();
    let (_, step) = authorize(
        Some(user(true)), true, None, Some(&c), None, &mut sess, &login(Some("p"), None),
        &mut codes, "code-2".to_string(), "w".repeat(48), NOW, 90,
    );
    match step.unwrap() {
        AuthStep::AwaitWebauthn(w) => {
            assert_eq!(w.code, "w".repeat(48));
            assert_eq!(w.login_req.code, w.code);
            assert_eq!(w.login_req.header_loc, "https://app.example/cb?code=code-2&state=st");
            assert_eq!(w.exp, 90);
            assert_eq!(w.user_id, "uid-1");
        }
        AuthStep::LoggedIn(_) => panic!("second factor expected"),
    }
    assert!(sess.is_mfa);
    assert_eq!(codes.find("code-2").unwrap().exp, NOW + 60 + 90);
}

#[test]
fn authorize_refusals_share_one_message() {
    let c = client(false);
    let mut codes = AuthCodeStore::new();
    let mut sess = session();
    let (_, unknown) = authorize(
        None, false, None, Some(&c), None, &mut sess, &login(Some("p"), None),
        &mut codes, "c".to_string(), "w".to_string(), NOW, 60,
    );
    let (_, wrong) = authorize(
        Some(user(false)), false, None, Some(&c), None, &mut sess, &login(Some("x"), None),
        &mut codes, "c".to_string(), "w".to_string(), NOW, 60,
    );
    let (_, no_password) = authorize(
        Some(user(false)), false, None, Some(&c), None, &mut sess, &login(None, None),
        &mut codes, "c".to_string(), "w".to_string(), NOW, 60,
    );
    for r in [unknown, wrong, no_password] {
        let e = r.unwrap_err();
        assert_eq!(e.error, ErrorResponseType::Unauthorized);
        assert_eq!(e.message, "Invalid user credentials");
    }
    assert!(codes.codes.is_empty());
}

#[test]
fn authorize_with_mfa_cookie_and_no_password() {
    let c = client(false);
    let mut codes = AuthCodeStore::new();
    let mut sess = session();
    let (u, step) = authorize(
        Some(user(true)), false, Some("u@x"), Some(&c), None, &mut sess, &login(None, None),
        &mut codes, "c".to_string(), "w".to_string(), NOW, 60,
    );
    assert!(matches!(step.unwrap(), AuthStep::AwaitWebauthn(ref w) if !w.has_password_been_hashed));
    assert_eq!(u.unwrap().last_login, None);
}

#[test]
fn authorize_refuses_bad_origin_and_method() {
    let c = client(false);
    let mut codes = AuthCodeStore::new();
    let mut sess = session();
    let (_, r) = authorize(
        Some(user(false)), true, None, Some(&c), Some("https://evil.example"), &mut sess,
        &login(Some("p"), None), &mut codes, "c".to_string(), "w".to_string(), NOW, 60,
    );
    assert_eq!(r.unwrap_err().error, ErrorResponseType::BadRequest);
    let mut req = login(Some("p"), Some("abc".to_string()));
    req.code_challenge_method = Some("S512".to_string());
    let (_, r) = authorize(
        Some(user(false)), true, None, Some(&c), None, &mut sess, &req, &mut codes,
        "c".to_string(), "w".to_string(), NOW, 60,
    );
    assert_eq!(r.unwrap_err().error, ErrorResponseType::BadRequest);
    let (_, r) = authorize(
        Some(user(false)), true, None, None, None, &mut sess, &login(Some("p"), None),
        &mut codes, "c".to_string(), "w".to_string(), NOW, 60,
    );
    assert_eq!(r.unwrap_err().error, ErrorResponseType::NotFound);
}

#[test]
fn client_credentials_grant() {
    let c = client(true);
    let mut req = token_req("client_credentials");
    req.client_secret = Some("s3cret".to_string());
    let ts = grant_type_credentials(Some(&c), &req, ISSUER, NOW).unwrap();
    assert_eq!(ts.access.uid, None);
    assert_eq!(ts.access.common.sub, None);
    assert!(ts.refresh.is_none());
    assert!(ts.id.is_none());
    assert_eq!(ts.access.scope, "openid");
    assert_eq!(ts.access.common.exp, NOW + 1800);
    req.client_secret = Some("wrong".to_string());
    assert_eq!(
        grant_type_credentials(Some(&c), &req, ISSUER, NOW).unwrap_err().error,
        ErrorResponseType::Unauthorized
    );
    let public = client(false);
    req.client_secret = Some("s3cret".to_string());
    assert_eq!(
        grant_type_credentials(Some(&public), &req, ISSUER, NOW).unwrap_err().error,
        ErrorResponseType::BadRequest
    );
}

#[test]
fn password_grant_failures_look_alike() {
    let c = client(false);
    let mut req = token_req("password");
    req.username = Some("u@x".to_string());
    req.password = Some("wrong".to_string());
    let (u, wrong) = grant_type_password(Some(&c), None, &req, Some(user(false)), false, true, ISSUER, NOW, None);
    req.username = Some("does-not-exist".to_string());
    let (_, unknown) = grant_type_password(Some(&c), None, &req, None, false, true, ISSUER, NOW, None);
    let e1 = wrong.unwrap_err();
    let e2 = unknown.unwrap_err();
    assert_eq!(e1.error, e2.error);
    assert_eq!(e1.message, e2.message);
    let u = u.unwrap();
    assert_eq!(u.failed_login_attempts, Some(1));
    assert_eq!(u.last_failed_login, Some(NOW));
}

#[test]
fn password_grant_success() {
    let c = client(false);
    let mut req = token_req("password");
    req.username = Some("u@x".to_string());
    req.password = Some("p".to_string());
    let (u, r) = grant_type_password(Some(&c), Some("https://app.example"), &req, Some(user(false)), true, false, ISSUER, NOW, None);
    let g = r.unwrap();
    assert!(g.rehash_password);
    assert_eq!(g.header_origin, Some("https://app.example".to_string()));
    assert_eq!(g.token_set.access.common.sub, Some("u@x".to_string()));
    assert_eq!(g.token_set.id.unwrap().amr, JwtAmrValue::Pwd);
    assert_eq!(u.unwrap().last_login, Some(NOW));
    let mut missing = token_req("password");
    missing.username = Some("u@x".to_string());
    let (_, r) = grant_type_password(Some(&c), None, &missing, Some(user(false)), true, true, ISSUER, NOW, None);
    assert_eq!(r.unwrap_err().error, ErrorResponseType::BadRequest);
}

#[test]
fn grant_type_dispatch() {
    assert_eq!(get_token_set(&token_req("refresh_token")).unwrap(), GrantType::RefreshToken);
    let e = get_token_set(&token_req("implicit")).unwrap_err();
    assert_eq!(e.error, ErrorResponseType::BadRequest);
    assert_eq!(e.message, "Invalid 'grant_type'");
}

fn refresh_token_string() -> String {
    format!("eyJhbGciOiJFZERTQSJ9.payload.{}", "s".repeat(60))
}

#[test]
fn refresh_grant_rotation_and_misuse() {
    let c = client(false);
    let u = user(false);
    let mut store = RefreshTokenStore::new();
    let r1 = refresh_token_string();
    // issued long enough ago that the access token issued with it is gone
    store.insert(RefreshToken::from_issued(&r1, &u.id, NOW - 2000, 1800, None, false).unwrap()).unwrap();
    let claims = rauthy_service::build_refresh_token(&u, &c, ISSUER, NOW);
    let mut req = token_req("refresh_token");
    req.refresh_token = Some(r1.clone());
    let (tok, _) = grant_type_refresh(Some(&c), None, &req).unwrap();
    let (_, ts) = validate_refresh_token(&mut store, &c, &claims, &tok, Some(u.clone()), ISSUER, NOW + 10, 5, None);
    assert!(ts.unwrap().refresh.is_some());
    // a later token of the same user
    let r2 = format!("eyJhbGciOiJFZERTQSJ9.payload.{}", "t".repeat(60));
    store.insert(RefreshToken::from_issued(&r2, &u.id, NOW - 1000, 1800, None, false).unwrap()).unwrap();
    let (_, again) = validate_refresh_token(&mut store, &c, &claims, &tok, Some(u.clone()), ISSUER, NOW + 100, 5, None);
    assert_eq!(again.unwrap_err().error, ErrorResponseType::BadRequest);
    assert!(store.tokens.is_empty());
}

#[test]
fn refresh_grant_refuses_foreign_or_wrong_type() {
    let c = client(false);
    let u = user(false);
    let mut store = RefreshTokenStore::new();
    let mut claims = rauthy_service::build_refresh_token(&u, &c, ISSUER, NOW);
    claims.azp = "client-2".to_string();
    let (_, r) = validate_refresh_token(&mut store, &c, &claims, &refresh_token_string(), Some(u.clone()), ISSUER, NOW, 5, None);
    assert_eq!(r.unwrap_err().error, ErrorResponseType::BadRequest);
    claims.azp = "client-1".to_string();
    claims.typ = JwtType::Bearer;
    let (_, r) = validate_refresh_token(&mut store, &c, &claims, &refresh_token_string(), Some(u.clone()), ISSUER, NOW, 5, None);
    assert_eq!(r.unwrap_err().error, ErrorResponseType::BadRequest);
    claims.typ = JwtType::Refresh;
    let (_, r) = validate_refresh_token(&mut store, &c, &claims, &refresh_token_string(), Some(u), ISSUER, NOW, 5, None);
    assert_eq!(r.unwrap_err().error, ErrorResponseType::NotFound);
}

#[test]
fn access_token_validity_window() {
    let c = client(false);
    let u = user(false);
    let a = build_access_token(Some(&u), &c, ISSUER, NOW, None, None);
    assert!(validate_claims(&a.common, ISSUER, NOW).is_ok());
    assert!(validate_claims(&a.common, ISSUER, NOW + 1800).is_ok());
    assert_eq!(validate_claims(&a.common, ISSUER, NOW + 1801).unwrap_err().error, ErrorResponseType::Unauthorized);
    assert!(validate_claims(&a.common, ISSUER, NOW - 1).is_err());
    assert!(validate_claims(&a.common, "https://other.example", NOW).is_err());
}

#[test]
fn access_token_claims_for_user() {
    let c = client(false);
    let u = user(false);
    let scopes = vec!["openid".to_string(), "groups".to_string()];
    let custom = vec![Scope {
        name: "city".to_string(),
        attr_include_access: vec!["city".to_string(), "zip".to_string()],
        attr_include_id: vec![],
    }];
    let a = build_access_token(Some(&u), &c, ISSUER, NOW, Some(&scopes), Some(&custom));
    assert_eq!(a.scope, "openid groups");
    assert_eq!(a.groups, Some(vec!["staff".to_string()]));
    assert_eq!(a.roles, Some(vec!["user".to_string()]));
    assert_eq!(a.preferred_username, Some("u@x".to_string()));
    assert_eq!(a.typ, JwtType::Bearer);
    let cust = a.custom.unwrap();
    assert_eq!(cust.len(), 1);
    assert_eq!(cust[0].name, "city");
    assert_eq!(cust[0].value, b"\"Berlin\"".to_vec());
    let plain = build_access_token(Some(&u), &c, ISSUER, NOW, None, None);
    assert_eq!(plain.groups, None);
    assert_eq!(plain.custom.map(|v| v.len()), None);
}

#[test]
fn id_token_claims_by_scope() {
    let c = client(false);
    let u = user(true);
    let scopes = vec!["openid".to_string(), "email".to_string(), "profile".to_string()];
    let id = build_id_token(&u, &c, ISSUER, NOW, Some("n".to_string()), &scopes, None, true);
    assert_eq!(id.amr, JwtAmrValue::Mfa);
    assert_eq!(id.common.sub, Some("uid-1".to_string()));
    assert_eq!(id.email, Some("u@x".to_string()));
    assert_eq!(id.email_verified, Some(true));
    assert_eq!(id.given_name, Some("Una".to_string()));
    assert_eq!(id.groups, None);
    assert_eq!(id.nonce, Some("n".to_string()));
    let id2 = build_id_token(&u, &c, ISSUER, NOW, None, &vec!["openid".to_string()], None, false);
    assert_eq!(id2.amr, JwtAmrValue::Pwd);
    assert_eq!(id2.email, None);
    assert_eq!(id2.family_name, None);
}

#[test]
fn token_set_without_refresh_flow() {
    let mut c = client(false);
    c.flows_enabled = vec![GrantType::AuthorizationCode];
    let ts = token_set_for_user(&user(false), &c, ISSUER, NOW, None, None, None, false);
    assert!(ts.refresh.is_none());
    assert_eq!(ts.expires_in, 1800);
    assert_eq!(ts.scopes, vec!["openid".to_string()]);
}

#[test]
fn refresh_before_nbf_is_refused() {
    let c = client(false);
    let u = user(false);
    let mut store = RefreshTokenStore::new();
    let r1 = refresh_token_string();
    store.insert(RefreshToken::from_issued(&r1, &u.id, NOW, 1800, None, false).unwrap()).unwrap();
    let claims = rauthy_service::build_refresh_token(&u, &c, ISSUER, NOW);
    let (_, r) = validate_refresh_token(&mut store, &c, &claims, &r1, Some(u.clone()), ISSUER, NOW + 10, 5, None);
    assert_eq!(r.unwrap_err().error, ErrorResponseType::BadRequest);
    assert_eq!(store.tokens.len(), 1);
}

#[test]
fn other_client_is_refused() {
    let c = client(true);
    let mut req = token_req("client_credentials");
    req.client_id = "client-2".to_string();
    req.client_secret = Some("s3cret".to_string());
    assert_eq!(grant_type_credentials(Some(&c), &req, ISSUER, NOW).unwrap_err().error, ErrorResponseType::NotFound);
    req.grant_type = "refresh_token".to_string();
    req.refresh_token = Some(refresh_token_string());
    assert_eq!(grant_type_refresh(Some(&c), None, &req).unwrap_err().error, ErrorResponseType::NotFound);
    let mut codes = AuthCodeStore::new();
    let mut sess = session();
    let mut login_req = login(Some("p"), None);
    login_req.client_id = "client-2".to_string();
    let (_, r) = authorize(
        Some(user(false)), true, None, Some(&c), None, &mut sess, &login_req, &mut codes,
        "c".to_string(), "w".to_string(), NOW, 60,
    );
    assert_eq!(r.unwrap_err().error, ErrorResponseType::NotFound);
}

#[test]
fn wrong_password_keeps_the_rest_of_the_user() {
    let c = client(false);
    let mut req = token_req("password");
    req.username = Some("u@x".to_string());
    req.password = Some("wrong".to_string());
    let mut before = user(false);
    before.failed_login_attempts = Some(2);
    let (after, _) = grant_type_password(Some(&c), None, &req, Some(before.clone()), false, true, ISSUER, NOW, None);
    let after = after.unwrap();
    assert_eq!(after.failed_login_attempts, Some(3));
    assert_eq!(after.password, before.password);
    assert_eq!(after.roles, before.roles);
}

#[test]
fn code_exchange_binds_session() {
    let c = client(false);
    let mut codes = AuthCodeStore::new();
    let mut sess = session();
    let (u, _) = authorize(
        Some(user(false)), true, None, Some(&c), None, &mut sess, &login(Some("p"), None),
        &mut codes, "code-9".to_string(), "w".to_string(), NOW, 60,
    );
    let mut req = token_req("authorization_code");
    req.code = Some("code-9".to_string());
    let (code, _) = grant_type_code(Some(&c), None, &req, &mut codes, NOW + 1).unwrap();
    let (s, ts) = finish_code_grant(&code, &u.unwrap(), &c, Some(sess), ISSUER, NOW + 1, None);
    assert!(ts.is_ok());
    let s = s.unwrap();
    assert_eq!(s.roles, Some(vec!["user".to_string()]));
    assert_eq!(s.groups, Some(vec!["staff".to_string()]));
    assert_eq!(s.last_seen, NOW + 1);
    assert_eq!(s.csrf_token, "csrf-1");
}
