//! Token and introspection requests served against an in-memory store, by
//! the same flows that serve them against the persisted one.
use vstd::prelude::*;
use crate::credentials::{client_pair, decode_client_auth};
use crate::errors::{outcome, Rejection};
use crate::grant::{params_view, token_exchange, Step, TokenFlow};
use crate::introspect::{introspection, IntrospectFlow};
use crate::issuance::LATEST_ISSUE_TIME;
use crate::memory::MemoryStore;
use crate::models::{AccessToken, AuthorizationParams, Introspection, ServerConfig, TokenParams};
use vstd::string::StringExecFns;
use crate::pkce::{challenge_of, pkce_challenge};
use crate::store::{client_lookup, code_lookup};

verus! {

/// The client that a credential header authenticates, if it decodes and
/// exactly one client row matches.
pub fn validate_client(client_authorization: &String, client: &MemoryStore) -> (r: Option<u128>)
    ensures
        r == match client_pair(client_authorization@) {
            None => None,
            Some(pair) => client_lookup(client@, pair.0, pair.1),
        },
{
    match decode_client_auth(client_authorization.as_str()) {
        None => None,
        Some((id, secret)) => client.validate_client_credentials(&id, &secret),
    }
}

/// The user of a code whose stored challenge is the hash of `pcke`, if
/// exactly one row matches.
pub fn validate_code(client: &MemoryStore, code: &String, pcke: &String) -> (r: Option<u128>)
    ensures
        r == code_lookup(client@, code@, pkce_challenge(pcke@)),
{
    let challenge = challenge_of(pcke.as_str());
    client.validate_code(code, &challenge)
}

/// Serves a token request that is to receive `token`, issued at `now`.
pub fn get_access_token(
    client: &mut MemoryStore,
    params: Option<TokenParams>,
    client_authorization: String,
    server_config: &ServerConfig,
    token: &String,
    now: i64,
) -> (r: Result<AccessToken, Rejection>)
    requires
        now <= LATEST_ISSUE_TIME,
    ensures
        (outcome(r), final(client)@) == token_exchange(
            old(client)@,
            params_view(params),
            client_authorization@,
            server_config.name@,
            token@,
            now as int,
        ),
{
    let (mut flow, step) = TokenFlow::start(&params, &client_authorization, &server_config.name, token, now);
    let q = match step {
        Step::Done(r) => return r,
        Step::Ask(q) => q,
    };
    let a = client.answer(q);
    let step = flow.resume(a);
    let q = match step {
        Step::Done(r) => return r,
        Step::Ask(q) => q,
    };
    let a = client.answer(q);
    let step = flow.resume(a);
    let q = match step {
        Step::Done(r) => return r,
        Step::Ask(q) => q,
    };
    let a = client.answer(q);
    let step = flow.resume(a);
    let q = match step {
        Step::Done(r) => return r,
        Step::Ask(q) => q,
    };
    let a = client.answer(q);
    let step = flow.resume(a);
    match step {
        Step::Done(r) => r,
        Step::Ask(_) => Err(Rejection::Unhandled),
    }
}

/// Serves an introspection request made at `now`; the store is only read.
pub fn introspect_token(
    client: &mut MemoryStore,
    client_authorization: String,
    access_token: String,
    now: i64,
) -> (r: Result<Introspection, Rejection>)
    ensures
        outcome(r) == introspection(old(client)@, client_authorization@, access_token@, now as int),
        final(client)@ == old(client)@,
{
    let (mut flow, step) = IntrospectFlow::start(&client_authorization, &access_token, now);
    let q = match step {
        Step::Done(r) => return r,
        Step::Ask(q) => q,
    };
    let a = client.answer(q);
    let step = flow.resume(a);
    let q = match step {
        Step::Done(r) => return r,
        Step::Ask(q) => q,
    };
    let a = client.answer(q);
    let step = flow.resume(a);
    match step {
        Step::Done(r) => r,
        Step::Ask(_) => Err(Rejection::Unhandled),
    }
}


/// The login page an authorization request is redirected to, carrying the
/// request's client, response type, redirect address and scope.
pub open spec fn authorization_url(
    client_id: Seq<char>,
    response_type: Seq<char>,
    redirect_uri: Seq<char>,
    scope: Seq<char>,
) -> Seq<char> {
    "http://localhost:8082/auth?client_id="@ + client_id + "&response_type="@ + response_type
        + "&redirect_uri="@ + redirect_uri + "&scope="@ + scope
}

pub fn get_authorization(authorization_params: &AuthorizationParams) -> (r: String)
    ensures
        r@ == authorization_url(
            authorization_params.client_id@,
            authorization_params.response_type@,
            authorization_params.redirect_uri@,
            authorization_params.scope@,
        ),
{
    let mut url = String::from_str("http://localhost:8082/auth?client_id=");
    url.append(authorization_params.client_id.as_str());
    url.append("&response_type=");
    url.append(authorization_params.response_type.as_str());
    url.append("&redirect_uri=");
    url.append(authorization_params.redirect_uri.as_str());
    url.append("&scope=");
    url.append(authorization_params.scope.as_str());
    url
}

} // verus!
