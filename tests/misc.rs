use rauthy_service::api_keys::{AccessGroup, AccessRights, ApiKeyAccess};
use rauthy_service::claims::{build_access_token, build_id_token};
use rauthy_service::client::{Client, GrantType};
use rauthy_service::endpoints::token_subject;
use rauthy_service::keys::{Jwk, JwkKeyPairType, JwkStore};
use rauthy_service::pkce::ChallengeMethod;
use rauthy_service::principal::permission_extractor;
use rauthy_service::session::{Session, SessionState};
use rauthy_service::timing::{handle_login_delay, LoginDelay};
use rauthy_service::user::{AccountType, User};
use rauthy_service::{
    get_token_info, get_userinfo, logout, validate_auth_req_param, validate_token, ApiKeyRequest,
    ApiKeyResponse, ApiKeysResponse, ErrorResponseType,
};

const ISSUER: &str = "https://idp.example/auth/v1";
const NOW: i64 = 1_700_000_000;

fn user() -> User {
    User {
        id: "uid-1".to_string(),
        email: "u@x".to_string(),
        email_verified: false,
        given_name: "Una".to_string(),
        family_name: "Example".to_string(),
        password: Some("h".to_string()),
        webauthn_enabled: false,
        enabled: true,
        user_expires: None,
        last_login: None,
        last_failed_login: None,
        failed_login_attempts: None,
        roles: vec!["admin".to_string()],
        groups: vec![],
        attributes: vec![],
    }
}

fn client() -> Client {
    Client {
        id: "client-1".to_string(),
        enabled: true,
        confidential: false,
        secret_hash: None,
        flows_enabled: vec![GrantType::AuthorizationCode],
        redirect_uris: vec!["https://app.example/cb".to_string()],
        post_logout_redirect_uris: vec!["https://app.example/*".to_string()],
        allowed_origins: vec![],
        challenge: vec![ChallengeMethod::S256],
        access_token_alg: JwkKeyPairType::RS256,
        id_token_alg: JwkKeyPairType::RS256,
        scopes: vec!["openid".to_string(), "email".to_string()],
        default_scopes: vec!["openid".to_string(), "email".to_string()],
        access_token_lifetime: 600,
        auth_code_lifetime: 60,
    }
}

fn auth_session(user_id: &str) -> Session {
    Session {
        id: "sid".to_string(),
        csrf_token: "csrf".to_string(),
        state: SessionState::Auth,
        is_mfa: true,
        user_id: Some(user_id.to_string()),
        roles: Some(vec!["admin".to_string()]),
        groups: None,
        last_seen: NOW,
        exp: NOW + 100,
    }
}

#[test]
fn login_delay_formulas() {
    assert_eq!(
        handle_login_delay(None, 1000, true, true),
        LoginDelay { new_average_ms: Some(1500), sleep_ms: 0 }
    );
    assert_eq!(
        handle_login_delay(Some(1500), 100, false, false),
        LoginDelay { new_average_ms: None, sleep_ms: 1400 }
    );
    assert_eq!(
        handle_login_delay(Some(1500), 2000, false, false),
        LoginDelay { new_average_ms: None, sleep_ms: 0 }
    );
    assert_eq!(
        handle_login_delay(Some(1500), 10, true, false),
        LoginDelay { new_average_ms: None, sleep_ms: 0 }
    );
    assert_eq!(handle_login_delay(Some(u64::MAX), u64::MAX, true, true).new_average_ms, Some(u64::MAX));
}

#[test]
fn failed_logins_take_the_average_time() {
    for elapsed in [0u64, 5, 150, 1999] {
        let d = handle_login_delay(Some(2000), elapsed, false, false);
        assert_eq!(elapsed + d.sleep_ms, 2000);
    }
}

#[test]
fn permissions_of_session_and_token() {
    let s = auth_session("uid-1");
    let (perms, p) = permission_extractor(Some(&s), true, None).unwrap();
    assert_eq!(perms, vec!["all", "session-auth", "admin", "api-key"]);
    let p = p.unwrap();
    assert!(p.has_session && !p.has_token && p.has_mfa_active);

    let c = client();
    let token = build_access_token(Some(&user()), &c, ISSUER, NOW, None, None);
    let (perms, p) = permission_extractor(Some(&s), false, Some(&token)).unwrap();
    assert_eq!(perms, vec!["all", "session-auth", "admin", "ROLE_admin", "token-auth"]);
    let p = p.unwrap();
    assert!(p.has_token && p.has_session);
    assert_eq!(p.email, Some("u@x".to_string()));
}

#[test]
fn session_wins_over_token_of_other_user() {
    let s = auth_session("uid-other");
    let token = build_access_token(Some(&user()), &client(), ISSUER, NOW, None, None);
    let (perms, p) = permission_extractor(Some(&s), false, Some(&token)).unwrap();
    assert_eq!(perms, vec!["all", "session-auth", "admin"]);
    let p = p.unwrap();
    assert_eq!(p.user_id, "uid-other");
    assert!(!p.has_token);
}

#[test]
fn token_alone_makes_principal() {
    let token = build_access_token(Some(&user()), &client(), ISSUER, NOW, None, None);
    let (perms, p) = permission_extractor(None, false, Some(&token)).unwrap();
    assert_eq!(perms, vec!["all", "ROLE_admin", "token-auth"]);
    let p = p.unwrap();
    assert_eq!(p.roles, vec!["ROLE_admin".to_string()]);
    assert!(!p.has_session && p.has_token && !p.has_mfa_active);
}

#[test]
fn broken_session_is_internal_error() {
    let mut s = auth_session("uid-1");
    s.user_id = None;
    assert_eq!(permission_extractor(Some(&s), false, None).unwrap_err().error, ErrorResponseType::Internal);
    let mut init = auth_session("uid-1");
    init.state = SessionState::Init;
    let (perms, p) = permission_extractor(Some(&init), false, None).unwrap();
    assert_eq!(perms, vec!["all", "session-init"]);
    assert!(p.is_none());
}

#[test]
fn logout_hint_rules() {
    let c = client();
    assert_eq!(logout(None, None, None, ISSUER, NOW).unwrap(), false);
    let id = build_id_token(&user(), &c, ISSUER, NOW, None, &vec![], None, false);
    assert_eq!(logout(Some(&id), None, None, ISSUER, NOW).unwrap(), true);
    assert_eq!(logout(Some(&id), Some("https://app.example/bye"), Some(&c), ISSUER, NOW).unwrap(), true);
    assert_eq!(
        logout(Some(&id), Some("https://evil.example/"), Some(&c), ISSUER, NOW).unwrap_err().error,
        ErrorResponseType::BadRequest
    );
    assert_eq!(logout(Some(&id), None, None, ISSUER, NOW + 601).unwrap_err().error, ErrorResponseType::Unauthorized);
    let mut other = client();
    other.id = "client-2".to_string();
    assert_eq!(
        logout(Some(&id), Some("https://app.example/bye"), Some(&other), ISSUER, NOW).unwrap_err().error,
        ErrorResponseType::NotFound
    );
}

#[test]
fn auth_request_parameters() {
    let c = client();
    assert!(validate_auth_req_param(Some(&c), "client-1", None, "https://app.example/cb", Some("x"), Some("S256")).is_ok());
    let e = validate_auth_req_param(Some(&c), "client-1", None, "https://app.example/other", Some("x"), Some("S256")).unwrap_err();
    assert_eq!(e.error, ErrorResponseType::BadRequest);
    assert_eq!(e.message, "Invalid redirect uri");
    assert_eq!(
        validate_auth_req_param(Some(&c), "client-2", None, "https://app.example/cb", Some("x"), Some("S256")).unwrap_err().error,
        ErrorResponseType::NotFound
    );
    assert_eq!(
        validate_auth_req_param(Some(&c), "client-1", None, "https://app.example/cb", Some("x"), Some("S512")).unwrap_err().message,
        "invalid 'code_challenge_method'"
    );
    assert_eq!(
        validate_auth_req_param(Some(&c), "client-1", None, "https://app.example/cb", None, None).unwrap_err().error,
        ErrorResponseType::BadRequest
    );
    assert_eq!(
        validate_auth_req_param(Some(&c), "client-1", None, "https://app.example/cb", Some("x"), None).unwrap_err().error,
        ErrorResponseType::BadRequest
    );
    assert_eq!(
        validate_auth_req_param(None, "client-1", None, "https://app.example/cb", None, None).unwrap_err().error,
        ErrorResponseType::NotFound
    );
}

#[test]
fn token_key_selection_reads_header() {
    let store = JwkStore::new();
    // header {"alg":"EdDSA","kid":"abc"}
    let token = "eyJhbGciOiJFZERTQSIsImtpZCI6ImFiYyJ9.e30.sig";
    assert_eq!(validate_token(&store, token).unwrap_err().error, ErrorResponseType::NotFound);
    assert_eq!(validate_token(&store, "not-a-token").unwrap_err().error, ErrorResponseType::BadRequest);
    let with_key = JwkStore {
        keys: vec![Jwk {
            kid: "abc".to_string(),
            created_at: NOW,
            signature: JwkKeyPairType::EdDSA,
            enc_key_id: "k".to_string(),
            jwk: vec![],
        }],
    };
    assert_eq!(validate_token(&with_key, token).unwrap().kid, "abc");
}

#[test]
fn userinfo_and_token_info() {
    let u = user();
    let info = get_userinfo(&u);
    assert_eq!(info.name, "Una Example");
    assert_eq!(info.sub, "u@x");
    let token = build_access_token(Some(&u), &client(), ISSUER, NOW, None, None);
    let ti = get_token_info(Some(&token));
    assert!(ti.active);
    assert_eq!(ti.scope, Some("openid email".to_string()));
    assert_eq!(ti.exp, Some(NOW + 600));
    assert!(!get_token_info(None).active);
    assert_eq!(token_subject(&token.common).unwrap(), "u@x");
    let own = build_access_token(None, &client(), ISSUER, NOW, None, None);
    assert_eq!(token_subject(&own.common).unwrap_err().error, ErrorResponseType::Internal);
}

#[test]
fn user_account_rules() {
    let mut u = user();
    assert_eq!(u.account_type(), AccountType::Password);
    u.webauthn_enabled = true;
    assert_eq!(u.account_type(), AccountType::PasswordPasskey);
    u.password = None;
    assert_eq!(u.account_type(), AccountType::Passkey);
    u.webauthn_enabled = false;
    assert_eq!(u.account_type(), AccountType::New);
    u.user_expires = Some(NOW - 1);
    assert_eq!(u.check_expired(NOW).unwrap_err().message, "Invalid user credentials");
    u.enabled = false;
    assert_eq!(u.check_enabled().unwrap_err().error, ErrorResponseType::Unauthorized);
}

#[test]
fn client_checks() {
    let mut c = client();
    let secret = ring::digest::digest(&ring::digest::SHA256, b"pw").as_ref().to_vec();
    c.secret_hash = Some(secret);
    assert!(c.validate_secret("pw").is_ok());
    assert_eq!(c.validate_secret("pw2").unwrap_err().error, ErrorResponseType::Unauthorized);
    assert_eq!(c.validate_flow(GrantType::Password).unwrap_err().error, ErrorResponseType::BadRequest);
    assert_eq!(
        c.sanitize_login_scopes(&vec!["email".to_string(), "groups".to_string()]),
        vec!["email".to_string()]
    );
    assert_eq!(
        c.sanitize_login_scopes(&vec!["groups".to_string()]),
        vec!["openid".to_string(), "email".to_string()]
    );
    assert_eq!(c.default_scope_string(), "openid email");
    assert_eq!(c.validate_origin(None).unwrap(), None);
    assert!(c.validate_origin(Some("https://x.example")).is_err());
}

#[test]
fn session_authentication() {
    let mut s = auth_session("x");
    s.state = SessionState::Init;
    s.user_id = None;
    let mut u = user();
    assert!(s.authenticate(&u, NOW).is_ok());
    assert_eq!(s.state, SessionState::Auth);
    assert_eq!(s.user_id, Some("uid-1".to_string()));
    let mut s2 = auth_session("x");
    s2.state = SessionState::Init;
    u.user_expires = Some(NOW - 5);
    assert_eq!(s2.authenticate(&u, NOW).unwrap_err().error, ErrorResponseType::Unauthorized);
    assert_eq!(s2.state, SessionState::Init);
}

#[test]
fn api_key_request_validation() {
    let mut req = ApiKeyRequest {
        name: "my_key-1/a".to_string(),
        exp: Some(1_700_000_000),
        access: vec![ApiKeyAccess { group: AccessGroup::Users, access_rights: vec![AccessRights::Read] }],
    };
    assert!(req.validate().is_ok());
    req.name = "a".to_string();
    assert_eq!(req.validate().unwrap_err().error, ErrorResponseType::BadRequest);
    req.name = "with space".to_string();
    assert!(req.validate().is_err());
    req.name = "x".repeat(25);
    assert!(req.validate().is_err());
    req.name = "ok".to_string();
    req.exp = Some(4_070_905_201);
    assert!(req.validate().is_err());
    req.exp = None;
    assert!(req.validate().is_ok());
    let resp = ApiKeysResponse {
        keys: vec![ApiKeyResponse { name: "ok".to_string(), created: NOW, expires: None, access: vec![] }],
    };
    assert_eq!(resp.keys.len(), 1);
}
