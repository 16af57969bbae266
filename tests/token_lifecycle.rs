use oauth_server::errors::{Error, Rejection};
use oauth_server::handlers::{get_access_token, introspect_token, validate_client, validate_code};
use oauth_server::issuance::{generate_token, insert_token, TOKEN_LIFETIME_SECONDS};
use oauth_server::memory::MemoryStore;
use oauth_server::models::{ServerConfig, TokenParams};
use oauth_server::pkce::challenge_of;
use oauth_server::store::{ClientRecord, CodeRecord, UserRecord};

const C1: u128 = 11;
const C2: u128 = 12;
const U1: u128 = 21;

fn basic(id: &str, secret: &str) -> String {
    format!("Basic {}", base64::encode(format!("{}:{}", id, secret)))
}

fn config() -> ServerConfig {
    ServerConfig {
        host: "127.0.0.1".to_string(),
        port: 8080,
        name: "test-issuer".to_string(),
        cert_dir: ".".to_string(),
    }
}

fn params(grant_type: &str) -> TokenParams {
    TokenParams {
        client_id: None,
        client_secret: None,
        username: None,
        password: None,
        pcke: None,
        device: None,
        grant_type: grant_type.to_string(),
        redirect_uri: None,
        scope: None,
        code: None,
        refresh_token: None,
    }
}

fn password_params(username: &str, password: &str) -> TokenParams {
    let mut p = params("password");
    p.username = Some(username.to_string());
    p.password = Some(password.to_string());
    p
}

fn code_params(code: &str, verifier: &str) -> TokenParams {
    let mut p = params("authorization_code");
    p.code = Some(code.to_string());
    p.pcke = Some(verifier.to_string());
    p
}

fn store() -> MemoryStore {
    let mut s = MemoryStore::new();
    s.add_client(ClientRecord {
        id: C1,
        client_id: "c1".to_string(),
        client_secret: "s1".to_string(),
        display_name: "First".to_string(),
    });
    s.add_client(ClientRecord {
        id: C2,
        client_id: "c2".to_string(),
        client_secret: "s2".to_string(),
        display_name: "Second".to_string(),
    });
    s.add_user(UserRecord { id: U1, username: "u1".to_string(), password: "p1".to_string() });
    s
}

fn auth_message(r: &Rejection) -> Option<String> {
    match r {
        Rejection::Custom(Error::AuthorizationError(m)) => Some(m.clone()),
        _ => None,
    }
}

fn is_unknown_token(r: &Rejection) -> bool {
    matches!(r, Rejection::Custom(Error::NotFoundError(m)) if m == "Unknown token")
}

#[test]
fn password_grant_happy_path() {
    let mut s = store();
    let token = generate_token();
    let now: i64 = 1_700_000_000;
    let r = get_access_token(&mut s, Some(password_params("u1", "p1")), basic("c1", "s1"), &config(), &token, now)
        .unwrap();
    assert_eq!(r.access_token.len(), 128);
    assert_eq!(r.access_token, token);
    assert_eq!(r.token_type, "bearer");
    assert_eq!(r.expires_in, 2_592_000);
    assert_eq!(r.scope, None);
    let i = introspect_token(&mut s, basic("c1", "s1"), token.clone(), now).unwrap();
    assert!(i.active);
    assert_eq!(i.client_id, "c1");
    assert_eq!(i.username, Some("u1".to_string()));
    assert_eq!(i.user_id, Some(U1));
    assert_eq!(i.token_type, "bearer");
    assert_eq!(i.issuer, "test-issuer");
    assert_eq!(i.exp, now + 2_592_000);
    assert_eq!(i.iat, now);
}

#[test]
fn password_grant_with_wrong_password_is_refused() {
    let mut s = store();
    let r = get_access_token(&mut s, Some(password_params("u1", "nope")), basic("c1", "s1"), &config(), &"t".repeat(128), 1000);
    assert_eq!(auth_message(&r.unwrap_err()), Some("client or user not found".to_string()));
}

#[test]
fn password_grant_with_wrong_client_secret_is_refused() {
    let mut s = store();
    let r = get_access_token(&mut s, Some(password_params("u1", "p1")), basic("c1", "s2"), &config(), &"t".repeat(128), 1000);
    assert_eq!(auth_message(&r.unwrap_err()), Some("client or user not found".to_string()));
}

#[test]
fn password_grant_without_password_is_an_unknown_route() {
    let mut s = store();
    let mut p = params("password");
    p.username = Some("u1".to_string());
    let r = get_access_token(&mut s, Some(p), basic("c1", "s1"), &config(), &"t".repeat(128), 1000);
    assert!(matches!(r, Err(Rejection::NotFound)));
}

#[test]
fn missing_form_is_an_unknown_route() {
    let mut s = store();
    let r = get_access_token(&mut s, None, basic("c1", "s1"), &config(), &"t".repeat(128), 1000);
    assert!(matches!(r, Err(Rejection::NotFound)));
}

#[test]
fn empty_header_is_refused_for_every_grant() {
    for g in ["password", "client_credentials", "authorization_code", "implicit"] {
        let mut s = store();
        let r = get_access_token(&mut s, Some(params(g)), String::new(), &config(), &"t".repeat(128), 1000);
        assert_eq!(auth_message(&r.unwrap_err()), Some("Client credentials invalid".to_string()));
    }
}

#[test]
fn undecodable_header_is_refused_for_every_grant() {
    let headers = ["Basic", "Basic !!!notbase64", &format!("Basic {}", base64::encode("nocolon"))];
    for h in headers {
        let mut s = store();
        let r = get_access_token(&mut s, Some(password_params("u1", "p1")), h.to_string(), &config(), &"t".repeat(128), 1000);
        assert_eq!(auth_message(&r.unwrap_err()), Some("client or user not found".to_string()));
        let r = get_access_token(&mut s, Some(params("client_credentials")), h.to_string(), &config(), &"t".repeat(128), 1000);
        assert_eq!(auth_message(&r.unwrap_err()), Some("client id not found".to_string()));
        let r = get_access_token(&mut s, Some(code_params("code", "v")), h.to_string(), &config(), &"t".repeat(128), 1000);
        assert_eq!(auth_message(&r.unwrap_err()), Some("client id or user id not found".to_string()));
    }
}

#[test]
fn unsupported_grant_is_refused() {
    for g in ["implicit", "refresh_token", "", "Password"] {
        let mut s = store();
        let r = get_access_token(&mut s, Some(params(g)), basic("c1", "s1"), &config(), &"t".repeat(128), 1000);
        assert_eq!(auth_message(&r.unwrap_err()), Some("Unsupported grant type".to_string()));
    }
}

#[test]
fn client_credentials_grant_issues_token_without_user() {
    let mut s = store();
    let mut p = params("client_credentials");
    p.scope = Some("read".to_string());
    p.device = Some("phone".to_string());
    let token = "a".repeat(128);
    let r = get_access_token(&mut s, Some(p), basic("c2", "s2"), &config(), &token, 5000).unwrap();
    assert_eq!(r.scope, Some("read".to_string()));
    let i = introspect_token(&mut s, basic("c2", "s2"), token, 5000).unwrap();
    assert_eq!(i.username, None);
    assert_eq!(i.user_id, None);
    assert_eq!(i.client_id, "c2");
    assert_eq!(i.scope, Some("read".to_string()));
}

#[test]
fn client_credentials_with_unknown_client_is_refused() {
    let mut s = store();
    let r = get_access_token(&mut s, Some(params("client_credentials")), basic("c9", "s9"), &config(), &"t".repeat(128), 1000);
    assert_eq!(auth_message(&r.unwrap_err()), Some("client id not found".to_string()));
}

#[test]
fn second_issuance_replaces_first_token() {
    let mut s = store();
    let first = "f".repeat(128);
    let second = "g".repeat(128);
    get_access_token(&mut s, Some(password_params("u1", "p1")), basic("c1", "s1"), &config(), &first, 1000).unwrap();
    get_access_token(&mut s, Some(password_params("u1", "p1")), basic("c1", "s1"), &config(), &second, 2000).unwrap();
    let r = introspect_token(&mut s, basic("c1", "s1"), first, 3000);
    assert!(is_unknown_token(&r.unwrap_err()));
    let i = introspect_token(&mut s, basic("c1", "s1"), second, 3000).unwrap();
    assert!(i.active);
    assert_eq!(i.iat, 2000);
}

#[test]
fn fresh_random_tokens_differ() {
    let mut s = store();
    let first = generate_token();
    let second = generate_token();
    assert_ne!(first, second);
    let now: i64 = 1_700_000_000;
    get_access_token(&mut s, Some(password_params("u1", "p1")), basic("c1", "s1"), &config(), &first, now).unwrap();
    get_access_token(&mut s, Some(password_params("u1", "p1")), basic("c1", "s1"), &config(), &second, now).unwrap();
    assert!(introspect_token(&mut s, basic("c1", "s1"), first, now).is_err());
    assert!(introspect_token(&mut s, basic("c1", "s1"), second, now).unwrap().active);
}

fn store_with_code(code: &str, verifier: &str) -> MemoryStore {
    let mut s = store();
    s.add_code(CodeRecord {
        code: code.to_string(),
        user_id: U1,
        pcke_hash: challenge_of(verifier),
        creation_time: 0,
    });
    s
}

#[test]
fn authorization_code_is_single_use() {
    let mut s = store_with_code("code1", "verifier-one");
    let token = "h".repeat(128);
    let r = get_access_token(&mut s, Some(code_params("code1", "verifier-one")), basic("c1", "s1"), &config(), &token, 1000)
        .unwrap();
    assert_eq!(r.access_token, token);
    let i = introspect_token(&mut s, basic("c1", "s1"), token, 1000).unwrap();
    assert_eq!(i.user_id, Some(U1));
    let again = get_access_token(&mut s, Some(code_params("code1", "verifier-one")), basic("c1", "s1"), &config(), &"k".repeat(128), 1001);
    assert_eq!(auth_message(&again.unwrap_err()), Some("client id or user id not found".to_string()));
}

#[test]
fn pkce_mismatch_is_refused() {
    let mut s = store_with_code("code1", "verifier-one");
    let r = get_access_token(&mut s, Some(code_params("code1", "verifier-two")), basic("c1", "s1"), &config(), &"h".repeat(128), 1000);
    assert_eq!(auth_message(&r.unwrap_err()), Some("client id or user id not found".to_string()));
    assert_eq!(validate_code(&s, &"code1".to_string(), &"verifier-one".to_string()), Some(U1));
}

#[test]
fn authorization_code_without_verifier_is_refused() {
    let mut s = store_with_code("code1", "verifier-one");
    let mut p = params("authorization_code");
    p.code = Some("code1".to_string());
    let r = get_access_token(&mut s, Some(p), basic("c1", "s1"), &config(), &"h".repeat(128), 1000);
    assert_eq!(auth_message(&r.unwrap_err()), Some("client id or user id not found".to_string()));
}

#[test]
fn introspection_is_scoped_to_the_issuing_client() {
    let mut s = store();
    let token = "m".repeat(128);
    get_access_token(&mut s, Some(password_params("u1", "p1")), basic("c1", "s1"), &config(), &token, 1000).unwrap();
    let r = introspect_token(&mut s, basic("c2", "s2"), token.clone(), 1000);
    assert!(is_unknown_token(&r.unwrap_err()));
    assert!(introspect_token(&mut s, basic("c1", "s1"), token, 1000).is_ok());
}

#[test]
fn expired_token_is_reported_inactive() {
    let mut s = store();
    let token = "x".repeat(128);
    get_access_token(&mut s, Some(password_params("u1", "p1")), basic("c1", "s1"), &config(), &token, 1000).unwrap();
    let expiry = 1000 + TOKEN_LIFETIME_SECONDS;
    let i = introspect_token(&mut s, basic("c1", "s1"), token.clone(), expiry + 1).unwrap();
    assert!(!i.active);
    assert_eq!(i.exp, expiry);
    assert_eq!(i.iat, 1000);
    assert_eq!(i.username, Some("u1".to_string()));
    let at_expiry = introspect_token(&mut s, basic("c1", "s1"), token.clone(), expiry).unwrap();
    assert!(!at_expiry.active);
    let before = introspect_token(&mut s, basic("c1", "s1"), token, expiry - 1).unwrap();
    assert!(before.active);
}

#[test]
fn introspection_with_bad_credentials_is_refused() {
    let mut s = store();
    for h in [String::new(), "Basic".to_string(), basic("c1", "wrong")] {
        let r = introspect_token(&mut s, h, "t".to_string(), 1000);
        assert_eq!(auth_message(&r.unwrap_err()), Some("Client credentials invalid".to_string()));
    }
}

#[test]
fn client_validation() {
    let s = store();
    assert_eq!(validate_client(&basic("c1", "s1"), &s), Some(C1));
    assert_eq!(validate_client(&basic("c2", "s2"), &s), Some(C2));
    assert_eq!(validate_client(&basic("c1", "s2"), &s), None);
    assert_eq!(validate_client(&String::new(), &s), None);
}

#[test]
fn duplicate_client_rows_do_not_authenticate() {
    let mut s = store();
    s.add_client(ClientRecord {
        id: 99,
        client_id: "c1".to_string(),
        client_secret: "s1".to_string(),
        display_name: "Copy".to_string(),
    });
    assert_eq!(validate_client(&basic("c1", "s1"), &s), None);
}

#[test]
fn device_defaults_to_unknown() {
    let (record, response) = insert_token(&"t".to_string(), &None, Some(U1), C1, &"iss".to_string(), &None, 100);
    assert_eq!(record.device, "unknown");
    assert_eq!(record.expire_time, 100 + 2_592_000);
    assert_eq!(record.creation_time, 100);
    assert_eq!(record.token_type, "bearer");
    assert_eq!(response.expires_in, 2_592_000);
    let (record, _) = insert_token(&"t".to_string(), &None, None, C1, &"iss".to_string(), &Some("tv".to_string()), 100);
    assert_eq!(record.device, "tv");
}

#[test]
fn store_reports_token_with_activity() {
    let mut s = store();
    let token = "v".repeat(128);
    get_access_token(&mut s, Some(password_params("u1", "p1")), basic("c1", "s1"), &config(), &token, 1000).unwrap();
    let i = s.validate_access_token(&token, C1, 1000).unwrap();
    assert!(i.active);
    assert_eq!(i.exp, 1000 + 2_592_000);
    assert!(!s.validate_access_token(&token, C1, 1000 + 2_592_000).unwrap().active);
    assert!(s.validate_access_token(&token, C2, 1000).is_none());
}
