//! Properties of the token lifecycle, proved over the request semantics.
use vstd::prelude::*;
use crate::credentials::client_pair;
use crate::errors::{unauthorized, ErrorView, RejectionView};
use crate::grant::{grant_type_of, screen, start_spec, token_exchange, GrantType, StepView};
use crate::introspect::{introspect_start, introspection, introspection_of, unknown_token};
use crate::issuance::TOKEN_LIFETIME_SECONDS;
use crate::models::TokenParamsView;
use crate::pkce::pkce_challenge;
use crate::store::{
    client_has_id, client_lookup, clients_matching, clients_with_id, code_fits, codes_matching, collides,
    lemma_filter_member, lemma_filter_none, lemma_filter_some, lemma_upserted_has, lemma_upserted_rows,
    other_code, token_fits, token_lookup, tokens_matching, upserted, StoreView, TokenMatchView,
};

verus! {

/// A request whose credential header is empty or does not decode is refused
/// as an authorization failure at once: its first step is the refusal, so
/// no user or code is looked up, and the store is left as it was.
pub proof fn lemma_client_gating(
    db: StoreView,
    params: TokenParamsView,
    header: Seq<char>,
    issuer: Seq<char>,
    token: Seq<char>,
    now: int,
)
    requires
        header.len() == 0 || client_pair(header) is None,
    ensures
        start_spec(Some(params), header, issuer, token, now).1 matches StepView::Done(
            Err(RejectionView::Custom(ErrorView::AuthorizationError(_))),
        ),
        token_exchange(db, Some(params), header, issuer, token, now).0 matches Err(
            RejectionView::Custom(ErrorView::AuthorizationError(_)),
        ),
        token_exchange(db, Some(params), header, issuer, token, now).1 == db,
        introspect_start(header, token, now).1 matches StepView::Done(
            Err(RejectionView::Custom(ErrorView::AuthorizationError(_))),
        ),
{
}

/// A grant type other than `password`, `client_credentials` and
/// `authorization_code` is refused with "Unsupported grant type", once a
/// credential header is present.
pub proof fn lemma_unsupported_grant(
    db: StoreView,
    params: TokenParamsView,
    header: Seq<char>,
    issuer: Seq<char>,
    token: Seq<char>,
    now: int,
)
    requires
        params.grant_type != "password"@,
        params.grant_type != "client_credentials"@,
        params.grant_type != "authorization_code"@,
        header.len() > 0,
    ensures
        token_exchange(db, Some(params), header, issuer, token, now) == (
            Err::<crate::models::AccessTokenView, RejectionView>(unauthorized("Unsupported grant type"@)),
            db,
        ),
{
    assert(grant_type_of(params.grant_type) == GrantType::Unsupported);
}

proof fn lemma_no_code_left(db: StoreView, code: Seq<char>, challenge: Seq<char>)
    ensures
        db.codes.filter(other_code(code)).filter(code_fits(code, challenge)).len() == 0,
{
    let kept = db.codes.filter(other_code(code));
    assert forall|i: int| 0 <= i < kept.len() implies !code_fits(code, challenge)(#[trigger] kept[i]) by {
        lemma_filter_member(db.codes, other_code(code), i);
    }
    lemma_filter_none(kept, code_fits(code, challenge));
}

/// An authorization code serves one exchange: once a code grant has
/// succeeded, the same request fails with an authorization error, even with
/// the right verifier.
pub proof fn lemma_code_single_use(
    db: StoreView,
    params: TokenParamsView,
    header: Seq<char>,
    issuer: Seq<char>,
    first_token: Seq<char>,
    first_now: int,
    second_token: Seq<char>,
    second_now: int,
)
    requires
        grant_type_of(params.grant_type) == GrantType::AuthorizationCode,
        token_exchange(db, Some(params), header, issuer, first_token, first_now).0 is Ok,
    ensures
        ({
            let after = token_exchange(db, Some(params), header, issuer, first_token, first_now).1;
            token_exchange(after, Some(params), header, issuer, second_token, second_now) == (
                Err::<crate::models::AccessTokenView, RejectionView>(
                    unauthorized("client id or user id not found"@),
                ),
                after,
            )
        }),
{
    let req = screen(Some(params), header)->Ok_0;
    let after = token_exchange(db, Some(params), header, issuer, first_token, first_now).1;
    lemma_no_code_left(db, req.code, req.challenge);
    assert(codes_matching(after, req.code, req.challenge) == db.codes.filter(other_code(req.code)).filter(
        code_fits(req.code, req.challenge),
    ));
    assert(clients_matching(after, req.client_id, req.client_secret) == clients_matching(
        db,
        req.client_id,
        req.client_secret,
    ));
}

/// A code stored with the challenge of one verifier refuses a verifier whose
/// challenge differs, and the store is left as it was.
pub proof fn lemma_pkce_mismatch(
    db: StoreView,
    params: TokenParamsView,
    header: Seq<char>,
    issuer: Seq<char>,
    token: Seq<char>,
    now: int,
    stored_verifier: Seq<char>,
)
    requires
        grant_type_of(params.grant_type) == GrantType::AuthorizationCode,
        params.code matches Some(code) && forall|i: int|
            0 <= i < db.codes.len() && (#[trigger] db.codes[i]).code == code ==> db.codes[i].pcke_hash
                == pkce_challenge(stored_verifier),
        params.pcke matches Some(v) && pkce_challenge(v) != pkce_challenge(stored_verifier),
    ensures
        token_exchange(db, Some(params), header, issuer, token, now).0 matches Err(
            RejectionView::Custom(ErrorView::AuthorizationError(_)),
        ),
        token_exchange(db, Some(params), header, issuer, token, now).1 == db,
{
    if screen(Some(params), header) is Ok {
        let req = screen(Some(params), header)->Ok_0;
        assert forall|i: int| 0 <= i < db.codes.len() implies !code_fits(req.code, req.challenge)(
            #[trigger] db.codes[i],
        ) by {}
        lemma_filter_none(db.codes, code_fits(req.code, req.challenge));
    }
}

/// A token is introspected only by the client it was issued to: another
/// client, though authenticated, is told the token is unknown.
pub proof fn lemma_introspection_scoped(
    db: StoreView,
    header: Seq<char>,
    token: Seq<char>,
    now: int,
    owner: u128,
)
    requires
        client_pair(header) matches Some(pair) && client_lookup(db, pair.0, pair.1) matches Some(c) && c
            != owner,
        forall|i: int|
            0 <= i < db.tokens.len() && (#[trigger] db.tokens[i]).access_token == token ==> db.tokens[i].client_id
                == owner,
    ensures
        introspection(db, header, token, now) == Err::<crate::models::IntrospectionView, RejectionView>(
            unknown_token(),
        ),
{
    let pair = client_pair(header)->Some_0;
    let c = client_lookup(db, pair.0, pair.1)->Some_0;
    assert forall|i: int| 0 <= i < db.tokens.len() implies !token_fits(token, c)(#[trigger] db.tokens[i]) by {}
    lemma_filter_none(db.tokens, token_fits(token, c));
}

/// A token found past its expiry is reported inactive, with its other
/// fields, rather than unknown.
pub proof fn lemma_expired_token_reported(
    db: StoreView,
    header: Seq<char>,
    token: Seq<char>,
    now: int,
    client: u128,
    found: TokenMatchView,
)
    requires
        client_pair(header) matches Some(pair) && client_lookup(db, pair.0, pair.1) == Some(client),
        token_lookup(db, token, client) == Some(found),
        found.expire_time <= now,
    ensures
        introspection(db, header, token, now) == Ok::<crate::models::IntrospectionView, RejectionView>(
            introspection_of(found, now),
        ),
        !introspection_of(found, now).active,
{
}


/// Issuing a second token for the same user and client replaces the first:
/// with two distinct token values that the store did not hold, the first is
/// then unknown to introspection and the second is active until it expires.
pub proof fn lemma_single_live_token(
    db: StoreView,
    params: TokenParamsView,
    header: Seq<char>,
    issuer: Seq<char>,
    first_token: Seq<char>,
    first_now: int,
    second_token: Seq<char>,
    second_now: int,
    later: int,
)
    requires
        grant_type_of(params.grant_type) == GrantType::Password,
        token_exchange(db, Some(params), header, issuer, first_token, first_now).0 is Ok,
        first_token != second_token,
        forall|i: int|
            0 <= i < db.tokens.len() ==> (#[trigger] db.tokens[i]).access_token != first_token
                && db.tokens[i].access_token != second_token,
        later < second_now + TOKEN_LIFETIME_SECONDS,
    ensures
        ({
            let once = token_exchange(db, Some(params), header, issuer, first_token, first_now).1;
            let twice = token_exchange(once, Some(params), header, issuer, second_token, second_now);
            &&& twice.0 is Ok
            &&& introspection(twice.1, header, first_token, later) == Err::<
                crate::models::IntrospectionView,
                RejectionView,
            >(unknown_token())
            &&& introspection(twice.1, header, second_token, later) matches Ok(v) && v.active
        }),
{
    let req = screen(Some(params), header)->Ok_0;
    let pair = client_pair(header)->Some_0;
    let c = client_lookup(db, req.client_id, req.client_secret)->Some_0;
    let once = token_exchange(db, Some(params), header, issuer, first_token, first_now).1;
    let u = crate::store::user_lookup(db, req.username, req.password)->Some_0;
    let new1 = crate::issuance::token_row(first_token, req.scope, Some(u), c, issuer, req.device, first_now);
    let new2 = crate::issuance::token_row(second_token, req.scope, Some(u), c, issuer, req.device, second_now);
    assert(once.tokens == upserted(db.tokens, new1));
    assert(once.clients == db.clients && once.users == db.users);
    assert(clients_matching(once, req.client_id, req.client_secret) == clients_matching(
        db,
        req.client_id,
        req.client_secret,
    ));
    assert(crate::store::users_matching(once, req.username, req.password) == crate::store::users_matching(
        db,
        req.username,
        req.password,
    ));
    let twice = token_exchange(once, Some(params), header, issuer, second_token, second_now);
    let rows = upserted(once.tokens, new2);
    assert(twice.1.tokens == rows);
    assert(twice.1.clients == db.clients && twice.1.users == db.users);
    assert(clients_matching(twice.1, pair.0, pair.1) == clients_matching(db, pair.0, pair.1));
    // every row of the first store holding the first token collides with the second row
    assert forall|j: int|
        0 <= j < once.tokens.len() && (#[trigger] once.tokens[j]).access_token == first_token implies collides(
        once.tokens[j],
        new2,
    ) by {
        lemma_upserted_rows(db.tokens, new1, j);
    }
    // no row holds the first token afterwards
    assert forall|j: int| 0 <= j < rows.len() implies !token_fits(first_token, c)(#[trigger] rows[j]) by {
        lemma_upserted_rows(once.tokens, new2, j);
    }
    lemma_filter_none(rows, token_fits(first_token, c));
    assert(tokens_matching(twice.1, first_token, c).len() == 0);
    // every row holding the second token for the client carries the new expiry
    assert forall|j: int|
        0 <= j < rows.len() && token_fits(second_token, c)(#[trigger] rows[j]) implies rows[j].expire_time
        == second_now + TOKEN_LIFETIME_SECONDS by {
        lemma_upserted_rows(once.tokens, new2, j);
        if j < once.tokens.len() && rows[j] == once.tokens[j] {
            lemma_upserted_rows(db.tokens, new1, j);
        }
    }
    lemma_upserted_has(once.tokens, new2);
    let k = choose|k: int|
        0 <= k < rows.len() && (#[trigger] rows[k]).access_token == new2.access_token && rows[k].expire_time
            == new2.expire_time && rows[k].user_id == new2.user_id && rows[k].client_id == new2.client_id;
    lemma_filter_some(rows, token_fits(second_token, c), k);
    lemma_filter_member(rows, token_fits(second_token, c), 0);
    // the client row exists
    let m = clients_matching(db, req.client_id, req.client_secret);
    lemma_filter_member(db.clients, crate::store::client_fits(req.client_id, req.client_secret), 0);
    let ci = choose|ci: int| 0 <= ci < db.clients.len() && db.clients[ci] == m[0];
    lemma_filter_some(db.clients, client_has_id(c), ci);
    assert(clients_with_id(twice.1, c).len() > 0);
}

} // verus!
