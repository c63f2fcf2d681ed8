use rauthy_service::auth_code::{redeem_auth_code, AuthCode, AuthCodeStore};
use rauthy_service::client::Client;
use rauthy_service::keys::{rotate_jwks, signing_key, CacheKey, Jwk, JwkKeyPairType, JwkStore, TokenKind};
use rauthy_service::pkce::{s256_challenge, ChallengeMethod};
use rauthy_service::refresh::{handle_of, RefreshToken, RefreshTokenStore};
use rauthy_service::ErrorResponseType;

fn code(id: &str, challenge: Option<(String, ChallengeMethod)>, exp: i64) -> AuthCode {
    let (challenge, challenge_method) = match challenge {
        Some((c, m)) => (Some(c), Some(m)),
        None => (None, None),
    };
    AuthCode {
        id: id.to_string(),
        user_id: "uid-1".to_string(),
        client_id: "client-1".to_string(),
        session_id: None,
        challenge,
        challenge_method,
        nonce: None,
        scopes: vec!["openid".to_string()],
        exp,
    }
}

/// A 24-character key id made from a short name.
fn kid(name: &str) -> String {
    format!("{:x<24}", name)
}

fn jwk(name: &str, alg: JwkKeyPairType, created_at: i64) -> Jwk {
    Jwk {
        kid: kid(name),
        created_at,
        signature: alg,
        enc_key_id: "key-a".to_string(),
        jwk: vec![1, 2, 3],
    }
}

fn rotation(prefix: &str, created_at: i64) -> Vec<Jwk> {
    vec![
        jwk(&format!("{prefix}-rs256"), JwkKeyPairType::RS256, created_at),
        jwk(&format!("{prefix}-rs384"), JwkKeyPairType::RS384, created_at),
        jwk(&format!("{prefix}-rs512"), JwkKeyPairType::RS512, created_at),
        jwk(&format!("{prefix}-eddsa"), JwkKeyPairType::EdDSA, created_at),
    ]
}

#[test]
fn auth_code_redeems_once() {
    let mut store = AuthCodeStore::new();
    store.insert(code("c1", None, 1000)).unwrap();
    let got = redeem_auth_code(&mut store, "c1", "client-1", None, 500).unwrap();
    assert_eq!(got.id, "c1");
    assert!(store.find("c1").is_none());
    let e = redeem_auth_code(&mut store, "c1", "client-1", None, 500).unwrap_err();
    assert_eq!(e.error, ErrorResponseType::Unauthorized);
}

#[test]
fn auth_code_duplicate_id_refused() {
    let mut store = AuthCodeStore::new();
    store.insert(code("c1", None, 1000)).unwrap();
    assert_eq!(store.insert(code("c1", None, 1000)).unwrap_err().error, ErrorResponseType::Internal);
    assert_eq!(store.codes.len(), 1);
}

#[test]
fn auth_code_other_client_keeps_code() {
    let mut store = AuthCodeStore::new();
    store.insert(code("c1", None, 1000)).unwrap();
    let e = redeem_auth_code(&mut store, "c1", "client-2", None, 500).unwrap_err();
    assert_eq!(e.error, ErrorResponseType::Unauthorized);
    assert!(store.find("c1").is_some());
}

#[test]
fn auth_code_expired_is_session_expired_and_deleted() {
    let mut store = AuthCodeStore::new();
    store.insert(code("c1", None, 1000)).unwrap();
    let e = redeem_auth_code(&mut store, "c1", "client-1", None, 1001).unwrap_err();
    assert_eq!(e.error, ErrorResponseType::SessionExpired);
    assert!(store.find("c1").is_none());
}

#[test]
fn auth_code_wrong_verifier_deletes_code() {
    let verifier = "abcdefghijklmnopqrstuvwxyz012345";
    let challenge = String::from_utf8(s256_challenge(verifier)).unwrap();
    let mut store = AuthCodeStore::new();
    store.insert(code("c1", Some((challenge, ChallengeMethod::S256)), 1000)).unwrap();
    let e = redeem_auth_code(&mut store, "c1", "client-1", Some("wrong"), 500).unwrap_err();
    assert_eq!(e.error, ErrorResponseType::Unauthorized);
    assert_eq!(e.message, "'code_verifier' does not match the challenge");
    let e = redeem_auth_code(&mut store, "c1", "client-1", Some(verifier), 500).unwrap_err();
    assert_eq!(e.error, ErrorResponseType::Unauthorized);
}

#[test]
fn auth_code_missing_verifier_is_bad_request() {
    let mut store = AuthCodeStore::new();
    store.insert(code("c1", Some(("abc".to_string(), ChallengeMethod::Plain)), 1000)).unwrap();
    let e = redeem_auth_code(&mut store, "c1", "client-1", None, 500).unwrap_err();
    assert_eq!(e.error, ErrorResponseType::BadRequest);
}

#[test]
fn auth_code_right_s256_verifier_redeems() {
    let verifier = "abcdefghijklmnopqrstuvwxyz012345";
    let challenge = String::from_utf8(s256_challenge(verifier)).unwrap();
    let mut store = AuthCodeStore::new();
    store.insert(code("c1", Some((challenge, ChallengeMethod::S256)), 1000)).unwrap();
    assert!(redeem_auth_code(&mut store, "c1", "client-1", Some(verifier), 500).is_ok());
}

fn record(token: &str, user: &str, now: i64) -> RefreshToken {
    RefreshToken::from_issued(token, &user.to_string(), now, 1800, None, false).unwrap()
}

fn token_of(seed: char) -> String {
    let mut t = String::from("header.payload.");
    for _ in 0..60 {
        t.push(seed);
    }
    t
}

#[test]
fn refresh_handle_is_last_49_chars() {
    let t = format!("{}{}", "x".repeat(10), "y".repeat(49));
    assert_eq!(handle_of(&t).unwrap(), "y".repeat(49));
    assert_eq!(handle_of("short").unwrap_err().error, ErrorResponseType::BadRequest);
}

#[test]
fn refresh_record_times() {
    let r = record(&token_of('a'), "u1", 10_000);
    assert_eq!(r.nbf, 10_000 + 1800 - 60);
    assert_eq!(r.exp, r.nbf + 172_800);
    assert_eq!(r.id.len(), 49);
}

#[test]
fn refresh_misuse_invalidates_user_tokens() {
    let mut store = RefreshTokenStore::new();
    let r1 = token_of('a');
    let r2 = token_of('b');
    let other = token_of('c');
    store.insert(record(&r1, "u1", 0)).unwrap();
    store.insert(record(&r2, "u1", 200_000)).unwrap();
    store.insert(record(&other, "u2", 0)).unwrap();
    let h1 = handle_of(&r1).unwrap();
    let past_exp = 0 + 1800 - 60 + 172_800 + 1;
    let e = store.check_handle(&h1, past_exp).unwrap_err();
    assert_eq!(e.error, ErrorResponseType::BadRequest);
    assert!(store.find(&handle_of(&r2).unwrap()).is_err());
    assert!(store.find(&handle_of(&other).unwrap()).is_ok());
    assert_eq!(store.tokens.len(), 1);
}

#[test]
fn refresh_grace_shortens_then_second_use_is_misuse() {
    let mut store = RefreshTokenStore::new();
    let r1 = token_of('a');
    store.insert(record(&r1, "u1", 0)).unwrap();
    let h1 = handle_of(&r1).unwrap();
    let t1 = 5_000;
    assert!(store.check_handle(&h1, t1).is_ok());
    store.apply_grace(&h1, t1, 5);
    assert_eq!(store.find(&h1).unwrap().exp, t1 + 5);
    assert!(store.check_handle(&h1, t1 + 5).is_ok());
    let e = store.check_handle(&h1, t1 + 7).unwrap_err();
    assert_eq!(e.message, "Refresh Token has expired already. All other refresh tokens for this user have been invalidated now because of misuse.");
    assert_eq!(e.error, ErrorResponseType::BadRequest);
    assert!(store.tokens.is_empty());
}

#[test]
fn refresh_unknown_handle_not_found() {
    let mut store = RefreshTokenStore::new();
    assert_eq!(store.check_handle("nope", 0).unwrap_err().error, ErrorResponseType::NotFound);
}

#[test]
fn rotation_adds_four_keys_and_keeps_old_ones() {
    let mut store = JwkStore::new();
    let stale = rotate_jwks(&mut store, rotation("k1", 100), "key-a").unwrap();
    assert_eq!(
        stale,
        vec![
            CacheKey::JwkLatest(JwkKeyPairType::RS256),
            CacheKey::JwkLatest(JwkKeyPairType::RS384),
            CacheKey::JwkLatest(JwkKeyPairType::RS512),
            CacheKey::JwkLatest(JwkKeyPairType::EdDSA),
            CacheKey::Jwks,
        ]
    );
    rotate_jwks(&mut store, rotation("k2", 200), "key-a").unwrap();
    assert_eq!(store.keys().len(), 8);
    assert_eq!(store.find(&kid("k1-eddsa")).unwrap().created_at, 100);
    assert_eq!(store.find_latest(JwkKeyPairType::EdDSA).unwrap().kid, kid("k2-eddsa"));
    assert_eq!(store.find_latest(JwkKeyPairType::RS384).unwrap().kid, kid("k2-rs384"));
}

#[test]
fn rotation_refuses_bad_key_sets() {
    let mut store = JwkStore::new();
    rotate_jwks(&mut store, rotation("k1", 100), "key-a").unwrap();
    let e = rotate_jwks(&mut store, rotation("k1", 200), "key-a").unwrap_err();
    assert_eq!(e.error, ErrorResponseType::Internal);
    let mut wrong_order = rotation("k3", 300);
    wrong_order.swap(0, 1);
    assert!(rotate_jwks(&mut store, wrong_order, "key-a").is_err());
    assert!(rotate_jwks(&mut store, vec![], "key-a").is_err());
    let mut short = rotation("k4", 400);
    short[2].kid = "short".to_string();
    assert!(rotate_jwks(&mut store, short, "key-a").is_err());
    assert!(rotate_jwks(&mut store, rotation("k5", 500), "key-b").is_err());
    assert_eq!(store.keys().len(), 4);
}

#[test]
fn unknown_kid_not_found() {
    let store = JwkStore::new();
    assert_eq!(store.find("x").unwrap_err().error, ErrorResponseType::NotFound);
    assert!(store.find_latest(JwkKeyPairType::RS256).is_none());
}

#[test]
fn key_pair_type_names() {
    assert_eq!(JwkKeyPairType::parse("EdDSA").unwrap(), JwkKeyPairType::EdDSA);
    assert_eq!(JwkKeyPairType::parse("HS256").unwrap_err().error, ErrorResponseType::BadRequest);
    assert_eq!(JwkKeyPairType::RS512.name(), "RS512");
}

#[test]
fn signing_key_follows_token_kind() {
    let mut store = JwkStore::new();
    rotate_jwks(&mut store, rotation("k1", 100), "key-a").unwrap();
    rotate_jwks(&mut store, rotation("k2", 200), "key-a").unwrap();
    let client = Client {
        id: "c".to_string(),
        enabled: true,
        confidential: false,
        secret_hash: None,
        flows_enabled: vec![],
        redirect_uris: vec![],
        post_logout_redirect_uris: vec![],
        allowed_origins: vec![],
        challenge: vec![],
        access_token_alg: JwkKeyPairType::RS384,
        id_token_alg: JwkKeyPairType::RS512,
        scopes: vec![],
        default_scopes: vec![],
        access_token_lifetime: 60,
        auth_code_lifetime: 60,
    };
    assert_eq!(signing_key(&store, TokenKind::Access, &client).unwrap().kid, kid("k2-rs384"));
    assert_eq!(signing_key(&store, TokenKind::Id, &client).unwrap().kid, kid("k2-rs512"));
    assert_eq!(signing_key(&store, TokenKind::Refresh, &client).unwrap().kid, kid("k2-eddsa"));
    let empty = JwkStore::new();
    assert_eq!(signing_key(&empty, TokenKind::Refresh, &client).unwrap_err().error, ErrorResponseType::NotFound);
}

#[test]
fn refresh_not_yet_valid_is_refused() {
    let mut store = RefreshTokenStore::new();
    let r1 = token_of('a');
    store.insert(record(&r1, "u1", 0)).unwrap();
    let h1 = handle_of(&r1).unwrap();
    let e = store.check_handle(&h1, 1739).unwrap_err();
    assert_eq!(e.error, ErrorResponseType::BadRequest);
    assert_eq!(store.tokens.len(), 1);
    assert!(store.check_handle(&h1, 1740).is_ok());
}

#[test]
fn auth_code_messages() {
    let mut store = AuthCodeStore::new();
    let e = redeem_auth_code(&mut store, "none", "client-1", None, 0).unwrap_err();
    assert_eq!(e.message, "'auth_code' could not be found inside the cache");
    store.insert(code("c1", Some(("abc".to_string(), ChallengeMethod::Plain)), 1000)).unwrap();
    let e = redeem_auth_code(&mut store, "c1", "client-1", None, 500).unwrap_err();
    assert_eq!(e.message, "'code_verifier' is missing");
    store.insert(code("c2", None, 1000)).unwrap();
    let e = redeem_auth_code(&mut store, "c2", "client-1", None, 1001).unwrap_err();
    assert_eq!(e.message, "The Authorization Code has expired");
}
