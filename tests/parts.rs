use oauth_server::credentials::decode_client_auth;
use oauth_server::errors::{handle_get_notallowed, handle_rejection, Error, Rejection};
use oauth_server::grant::{parse_grant_type, GrantType, Step, TokenFlow};
use oauth_server::handlers::get_authorization;
use oauth_server::introspect::IntrospectFlow;
use oauth_server::issuance::generate_token;
use oauth_server::models::AuthorizationParams;
use oauth_server::pkce::{challenge_of, to_hex_lower};
use oauth_server::store::{Answer, Query};
use oauth_server::text::split_on;

#[test]
fn sha256_challenge_is_lower_hex() {
    assert_eq!(
        challenge_of("abc"),
        "ba7816bf8f01cfea414140de5dae2223b00361a396177a9cb410ff61f20015ad"
    );
    assert_eq!(
        challenge_of(""),
        "e3b0c44298fc1c149afbf4c8996fb92427ae41e4649b934ca495991b7852b855"
    );
}

#[test]
fn hex_rendering() {
    assert_eq!(to_hex_lower(&[0x00, 0x0f, 0xa0, 0xff]), "000fa0ff");
    assert_eq!(to_hex_lower(&[]), "");
}

#[test]
fn splitting() {
    assert_eq!(split_on("a:b:c", ':'), vec!["a", "b", "c"]);
    assert_eq!(split_on("", ':'), vec![""]);
    assert_eq!(split_on(":", ':'), vec!["", ""]);
    assert_eq!(split_on("abc", ':'), vec!["abc"]);
}

#[test]
fn credential_header_decoding() {
    assert_eq!(
        decode_client_auth("Basic YzE6czE="),
        Some(("c1".to_string(), "s1".to_string()))
    );
    let three = format!("Basic {}", base64::encode("id:se:cret"));
    assert_eq!(decode_client_auth(&three), Some(("id".to_string(), "se".to_string())));
    assert_eq!(decode_client_auth(""), None);
    assert_eq!(decode_client_auth("Basic"), None);
    assert_eq!(decode_client_auth("Basic ***"), None);
    let no_colon = format!("Basic {}", base64::encode("nocolon"));
    assert_eq!(decode_client_auth(&no_colon), None);
    let not_utf8 = format!("Basic {}", base64::encode([0xffu8, 0xfe, b':', b'a']));
    assert_eq!(decode_client_auth(&not_utf8), None);
}

#[test]
fn grant_types() {
    assert_eq!(parse_grant_type("password"), GrantType::Password);
    assert_eq!(parse_grant_type("client_credentials"), GrantType::ClientCredentials);
    assert_eq!(parse_grant_type("authorization_code"), GrantType::AuthorizationCode);
    assert_eq!(parse_grant_type("passwords"), GrantType::Unsupported);
}

#[test]
fn random_tokens_are_alphanumeric() {
    let t = generate_token();
    assert_eq!(t.chars().count(), 128);
    assert!(t.chars().all(|c| c.is_ascii_alphanumeric()));
}

#[test]
fn rejection_replies() {
    let r = handle_rejection(&Rejection::NotFound);
    assert_eq!((r.status, r.message), (404, Some("Not Found".to_string())));
    let r = handle_rejection(&Rejection::MethodNotAllowed);
    assert_eq!((r.status, r.message), (405, Some("Method not allowed".to_string())));
    let r = handle_rejection(&Rejection::Custom(Error::AuthorizationError("nope".to_string())));
    assert_eq!((r.status, r.message), (401, Some("nope".to_string())));
    let r = handle_rejection(&Rejection::Custom(Error::NotFoundError("Unknown token".to_string())));
    assert_eq!((r.status, r.message), (404, Some("Unknown token".to_string())));
    let r = handle_rejection(&Rejection::Custom(Error::GetRouteFailed(false)));
    assert_eq!((r.status, r.message), (405, Some("Method not allowed".to_string())));
    for e in [
        Error::DBPoolError("pool down".to_string()),
        Error::DBQueryError("bad sql".to_string()),
        Error::DBInitError("no schema".to_string()),
    ] {
        let r = handle_rejection(&Rejection::Custom(e));
        assert_eq!((r.status, r.message), (500, Some("Internal Server Error".to_string())));
    }
    let r = handle_rejection(&Rejection::Unhandled);
    assert_eq!((r.status, r.message), (500, Some("Internal Server Error".to_string())));
}

#[test]
fn health_route_fallback() {
    assert!(matches!(
        handle_get_notallowed(&Rejection::MethodNotAllowed),
        Err(Rejection::Custom(Error::GetRouteFailed(false)))
    ));
    let r = handle_get_notallowed(&Rejection::NotFound).unwrap();
    assert_eq!((r.status, r.message), (404, Some("Not Found".to_string())));
    let r = handle_get_notallowed(&Rejection::Unhandled).unwrap();
    assert_eq!((r.status, r.message), (200, None));
}

#[test]
fn authorization_redirect_address() {
    let p = AuthorizationParams {
        client_id: "c1".to_string(),
        response_type: "code".to_string(),
        redirect_uri: "http://app/cb".to_string(),
        scope: "read".to_string(),
        state: None,
    };
    assert_eq!(
        get_authorization(&p),
        "http://localhost:8082/auth?client_id=c1&response_type=code&redirect_uri=http://app/cb&scope=read"
    );
}

#[test]
fn token_flow_steps_for_password_grant() {
    let mut p = oauth_server::models::TokenParams {
        client_id: None,
        client_secret: None,
        username: Some("u1".to_string()),
        password: Some("p1".to_string()),
        pcke: None,
        device: None,
        grant_type: "password".to_string(),
        redirect_uri: None,
        scope: None,
        code: None,
        refresh_token: None,
    };
    p.scope = Some("all".to_string());
    let (mut flow, step) = TokenFlow::start(&Some(p), &"Basic YzE6czE=".to_string(), &"iss".to_string(), &"tok".to_string(), 10);
    match step {
        Step::Ask(Query::FindClient { client_id, client_secret }) => {
            assert_eq!((client_id.as_str(), client_secret.as_str()), ("c1", "s1"));
        }
        other => panic!("unexpected first step {:?}", other),
    }
    match flow.resume(Answer::Id(Some(7))) {
        Step::Ask(Query::FindUser { username, password }) => {
            assert_eq!((username.as_str(), password.as_str()), ("u1", "p1"));
        }
        other => panic!("unexpected second step {:?}", other),
    }
    match flow.resume(Answer::Id(Some(8))) {
        Step::Ask(Query::SaveToken(record)) => {
            assert_eq!(record.access_token, "tok");
            assert_eq!(record.user_id, Some(8));
            assert_eq!(record.client_id, 7);
            assert_eq!(record.expire_time, 10 + 2_592_000);
            assert_eq!(record.issuer, "iss");
            assert_eq!(record.scope, Some("all".to_string()));
        }
        other => panic!("unexpected third step {:?}", other),
    }
    match flow.resume(Answer::Written) {
        Step::Done(Ok(t)) => assert_eq!(t.access_token, "tok"),
        other => panic!("unexpected last step {:?}", other),
    }
}

#[test]
fn introspect_flow_steps() {
    let (mut flow, step) = IntrospectFlow::start(&"Basic YzE6czE=".to_string(), &"tok".to_string(), 10);
    assert!(matches!(step, Step::Ask(Query::FindClient { .. })));
    match flow.resume(Answer::Id(Some(7))) {
        Step::Ask(Query::FindToken { access_token, client }) => {
            assert_eq!(access_token, "tok");
            assert_eq!(client, 7);
        }
        other => panic!("unexpected second step {:?}", other),
    }
    match flow.resume(Answer::Token(None)) {
        Step::Done(Err(Rejection::Custom(Error::NotFoundError(m)))) => assert_eq!(m, "Unknown token"),
        other => panic!("unexpected last step {:?}", other),
    }
}

#[test]
fn begun_flow_uses_fresh_token_and_clock() {
    let p = oauth_server::models::TokenParams {
        client_id: None,
        client_secret: None,
        username: None,
        password: None,
        pcke: None,
        device: None,
        grant_type: "client_credentials".to_string(),
        redirect_uri: None,
        scope: None,
        code: None,
        refresh_token: None,
    };
    let (mut flow, step) = TokenFlow::begin(&Some(p), &"Basic YzE6czE=".to_string(), &"iss".to_string());
    assert!(matches!(step, Step::Ask(Query::FindClient { .. })));
    match flow.resume(Answer::Id(Some(3))) {
        Step::Ask(Query::SaveToken(record)) => {
            assert_eq!(record.access_token.chars().count(), 128);
            assert!(record.creation_time > 1_600_000_000);
            assert_eq!(record.expire_time, record.creation_time + 2_592_000);
            assert_eq!(record.user_id, None);
            assert_eq!(record.device, "unknown");
        }
        other => panic!("unexpected step {:?}", other),
    }
}
