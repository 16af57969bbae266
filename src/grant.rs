//! The grant dispatcher: a token request is screened, then served by a short
//! exchange of queries with the store, driven one answer at a time.
use vstd::prelude::*;
use crate::credentials::{client_pair, decode_client_auth};
use crate::errors::{authorization_error, outcome, unauthorized, Rejection, RejectionView};
use crate::issuance::{
    generate_token, insert_token, is_alphanumeric, now_seconds, token_response, token_row,
    LATEST_ISSUE_TIME, TOKEN_LENGTH,
};
use crate::models::{AccessToken, AccessTokenView, TokenParams, TokenParamsView};
use crate::pkce::{challenge_of, pkce_challenge};
use crate::store::{
    client_lookup, code_lookup, user_lookup, with_token, without_code, Answer, AnswerView, Query,
    QueryView, StoreView, TokenRow,
};
use crate::text::{copy_text, same_text};

verus! {

/// The grant types a token request can name.
#[derive(PartialEq, Eq, Structural, Clone, Copy, Debug)]
pub enum GrantType {
    Password,
    ClientCredentials,
    AuthorizationCode,
    Unsupported,
}

pub open spec fn grant_type_of(s: Seq<char>) -> GrantType {
    if s == "password"@ {
        GrantType::Password
    } else if s == "client_credentials"@ {
        GrantType::ClientCredentials
    } else if s == "authorization_code"@ {
        GrantType::AuthorizationCode
    } else {
        GrantType::Unsupported
    }
}

/// The message with which a grant is refused.
pub open spec fn denial(g: GrantType) -> Seq<char> {
    match g {
        GrantType::Password => "client or user not found"@,
        GrantType::ClientCredentials => "client id not found"@,
        GrantType::AuthorizationCode => "client id or user id not found"@,
        GrantType::Unsupported => "Unsupported grant type"@,
    }
}

pub fn parse_grant_type(s: &str) -> (g: GrantType)
    ensures
        g == grant_type_of(s@),
{
    if same_text(s, "password") {
        GrantType::Password
    } else if same_text(s, "client_credentials") {
        GrantType::ClientCredentials
    } else if same_text(s, "authorization_code") {
        GrantType::AuthorizationCode
    } else {
        GrantType::Unsupported
    }
}

pub fn denial_of(g: GrantType) -> (r: Rejection)
    ensures
        r@ == unauthorized(denial(g)),
{
    match g {
        GrantType::Password => authorization_error("client or user not found"),
        GrantType::ClientCredentials => authorization_error("client id not found"),
        GrantType::AuthorizationCode => authorization_error("client id or user id not found"),
        GrantType::Unsupported => authorization_error("Unsupported grant type"),
    }
}

/// A token request that passed screening: the grant, the client's
/// credentials, and the grant's own inputs (the user's credentials, or the
/// code with the challenge of its verifier; empty where the grant has none).
pub struct RequestView {
    pub grant: GrantType,
    pub client_id: Seq<char>,
    pub client_secret: Seq<char>,
    pub username: Seq<char>,
    pub password: Seq<char>,
    pub code: Seq<char>,
    pub challenge: Seq<char>,
    pub scope: Option<Seq<char>>,
    pub device: Option<Seq<char>>,
}

pub open spec fn params_view(params: Option<TokenParams>) -> Option<TokenParamsView> {
    match params {
        Some(p) => Some(p@),
        None => None,
    }
}

/// The checks made before the store is asked anything. An empty credential
/// header is refused first, whatever the grant; an absent form is an unknown
/// route; an unsupported grant is refused; a header that does not decode is
/// refused as the grant's own failure, before any user or code is looked up;
/// a password grant without username or password is an unknown route; a code
/// grant without code or verifier is refused.
pub open spec fn screen(params: Option<TokenParamsView>, header: Seq<char>) -> Result<RequestView, RejectionView> {
    if header.len() == 0 {
        Err(unauthorized("Client credentials invalid"@))
    } else {
        match params {
            None => Err(RejectionView::NotFound),
            Some(p) => {
                let g = grant_type_of(p.grant_type);
                if g == GrantType::Unsupported {
                    Err(unauthorized(denial(g)))
                } else {
                    match client_pair(header) {
                        None => Err(unauthorized(denial(g))),
                        Some(pair) => {
                            let base = RequestView {
                                grant: g,
                                client_id: pair.0,
                                client_secret: pair.1,
                                username: Seq::empty(),
                                password: Seq::empty(),
                                code: Seq::empty(),
                                challenge: Seq::empty(),
                                scope: p.scope,
                                device: p.device,
                            };
                            if g == GrantType::Password {
                                if p.username is Some && p.password is Some {
                                    Ok(RequestView { username: p.username->0, password: p.password->0, ..base })
                                } else {
                                    Err(RejectionView::NotFound)
                                }
                            } else if g == GrantType::AuthorizationCode {
                                if p.code is Some && p.pcke is Some {
                                    Ok(RequestView { code: p.code->0, challenge: pkce_challenge(p.pcke->0), ..base })
                                } else {
                                    Err(unauthorized(denial(g)))
                                }
                            } else {
                                Ok(base)
                            }
                        },
                    }
                }
            },
        }
    }
}

/// What serving a screened request does against a store: the client must
/// authenticate, then the user (password grant) or the code with its
/// challenge (code grant); on success a token row is upserted and, for a
/// code grant, the code is consumed.
pub open spec fn exchange(db: StoreView, req: RequestView, issuer: Seq<char>, token: Seq<char>, now: int) -> (
    Result<AccessTokenView, RejectionView>,
    StoreView,
) {
    let deny = (Err(unauthorized(denial(req.grant))), db);
    let ok = Ok(token_response(token, req.scope));
    match client_lookup(db, req.client_id, req.client_secret) {
        None => deny,
        Some(client) => match req.grant {
            GrantType::Password => match user_lookup(db, req.username, req.password) {
                None => deny,
                Some(user) => (
                    ok,
                    with_token(db, token_row(token, req.scope, Some(user), client, issuer, req.device, now)),
                ),
            },
            GrantType::ClientCredentials => (
                ok,
                with_token(db, token_row(token, req.scope, None, client, issuer, req.device, now)),
            ),
            GrantType::AuthorizationCode => match code_lookup(db, req.code, req.challenge) {
                None => deny,
                Some(user) => (
                    ok,
                    without_code(
                        with_token(db, token_row(token, req.scope, Some(user), client, issuer, req.device, now)),
                        req.code,
                    ),
                ),
            },
            GrantType::Unsupported => deny,
        },
    }
}

/// The whole token request: its outcome and the store afterwards, for the
/// token value and time of issuance given.
pub open spec fn token_exchange(
    db: StoreView,
    params: Option<TokenParamsView>,
    header: Seq<char>,
    issuer: Seq<char>,
    token: Seq<char>,
    now: int,
) -> (Result<AccessTokenView, RejectionView>, StoreView) {
    match screen(params, header) {
        Err(e) => (Err(e), db),
        Ok(req) => exchange(db, req, issuer, token, now),
    }
}

/// What a flow does next: ask the store, or finish with a result.
#[derive(Debug)]
pub enum Step<T> {
    Ask(Query),
    Done(Result<T, Rejection>),
}

pub enum StepView<V> {
    Ask(QueryView),
    Done(Result<V, RejectionView>),
}

impl<T: View> View for Step<T> {
    type V = StepView<T::V>;

    open spec fn view(&self) -> StepView<T::V> {
        match self {
            Step::Ask(q) => StepView::Ask(q@),
            Step::Done(r) => StepView::Done(outcome(*r)),
        }
    }
}

/// Where a token flow stands: the answer it waits for, or finished.
#[derive(PartialEq, Eq, Structural, Clone, Copy, Debug)]
pub enum Stage {
    AwaitClient,
    AwaitUser,
    AwaitCode,
    AwaitSave,
    AwaitDelete,
    Finished,
}

/// A token request in progress.
pub struct TokenFlow {
    stage: Stage,
    grant: GrantType,
    client_id: String,
    client_secret: String,
    username: String,
    password: String,
    code: String,
    challenge: String,
    scope: Option<String>,
    device: Option<String>,
    issuer: String,
    token: String,
    now: i64,
    client: u128,
}

pub struct TokenFlowView {
    pub stage: Stage,
    pub request: RequestView,
    pub issuer: Seq<char>,
    pub token: Seq<char>,
    pub now: int,
    pub client: u128,
}

impl View for TokenFlow {
    type V = TokenFlowView;

    closed spec fn view(&self) -> TokenFlowView {
        TokenFlowView {
            stage: self.stage,
            request: RequestView {
                grant: self.grant,
                client_id: self.client_id@,
                client_secret: self.client_secret@,
                username: self.username@,
                password: self.password@,
                code: self.code@,
                challenge: self.challenge@,
                scope: self.scope.deep_view(),
                device: self.device.deep_view(),
            },
            issuer: self.issuer@,
            token: self.token@,
            now: self.now as int,
            client: self.client,
        }
    }
}

/// The flow and first step for a request: finished at once when screening
/// refuses it, else waiting for the client lookup.
pub open spec fn start_spec(
    params: Option<TokenParamsView>,
    header: Seq<char>,
    issuer: Seq<char>,
    token: Seq<char>,
    now: int,
) -> (TokenFlowView, StepView<AccessTokenView>) {
    let blank = RequestView {
        grant: GrantType::Unsupported,
        client_id: Seq::empty(),
        client_secret: Seq::empty(),
        username: Seq::empty(),
        password: Seq::empty(),
        code: Seq::empty(),
        challenge: Seq::empty(),
        scope: None,
        device: None,
    };
    match screen(params, header) {
        Err(e) => (
            TokenFlowView { stage: Stage::Finished, request: blank, issuer, token, now, client: 0 },
            StepView::Done(Err(e)),
        ),
        Ok(req) => (
            TokenFlowView { stage: Stage::AwaitClient, request: req, issuer, token, now, client: 0 },
            StepView::Ask(QueryView::FindClient { client_id: req.client_id, client_secret: req.client_secret }),
        ),
    }
}

/// The row a flow saves for the given user and client.
pub open spec fn issue_row(f: TokenFlowView, user: Option<u128>, client: u128) -> TokenRow {
    token_row(f.token, f.request.scope, user, client, f.issuer, f.request.device, f.now)
}

/// How a flow moves on with the store's answer.
pub open spec fn advance(f: TokenFlowView, a: AnswerView) -> (TokenFlowView, StepView<AccessTokenView>) {
    let deny = (
        TokenFlowView { stage: Stage::Finished, ..f },
        StepView::Done(Err(unauthorized(denial(f.request.grant)))),
    );
    let granted = (
        TokenFlowView { stage: Stage::Finished, ..f },
        StepView::Done(Ok(token_response(f.token, f.request.scope))),
    );
    match f.stage {
        Stage::AwaitClient => match a {
            AnswerView::Id(Some(c)) => match f.request.grant {
                GrantType::Password => (
                    TokenFlowView { stage: Stage::AwaitUser, client: c, ..f },
                    StepView::Ask(QueryView::FindUser { username: f.request.username, password: f.request.password }),
                ),
                GrantType::AuthorizationCode => (
                    TokenFlowView { stage: Stage::AwaitCode, client: c, ..f },
                    StepView::Ask(QueryView::FindCode { code: f.request.code, challenge: f.request.challenge }),
                ),
                GrantType::ClientCredentials => (
                    TokenFlowView { stage: Stage::AwaitSave, client: c, ..f },
                    StepView::Ask(QueryView::SaveToken(issue_row(f, None, c))),
                ),
                GrantType::Unsupported => deny,
            },
            _ => deny,
        },
        Stage::AwaitUser | Stage::AwaitCode => match a {
            AnswerView::Id(Some(u)) => (
                TokenFlowView { stage: Stage::AwaitSave, ..f },
                StepView::Ask(QueryView::SaveToken(issue_row(f, Some(u), f.client))),
            ),
            _ => deny,
        },
        Stage::AwaitSave => if f.request.grant == GrantType::AuthorizationCode {
            (TokenFlowView { stage: Stage::AwaitDelete, ..f }, StepView::Ask(QueryView::DeleteCode(f.request.code)))
        } else {
            granted
        },
        Stage::AwaitDelete => granted,
        Stage::Finished => (f, StepView::Done(Err(RejectionView::Unhandled))),
    }
}

impl TokenFlow {
    /// Screens a request that is to receive `token`, issued at `now`.
    pub fn start(
        params: &Option<TokenParams>,
        client_authorization: &String,
        issuer: &String,
        token: &String,
        now: i64,
    ) -> (r: (TokenFlow, Step<AccessToken>))
        requires
            now <= LATEST_ISSUE_TIME,
        ensures
            (r.0@, r.1@) == start_spec(params_view(*params), client_authorization@, issuer@, token@, now as int),
    {
        let mut flow = TokenFlow {
            stage: Stage::Finished,
            grant: GrantType::Unsupported,
            client_id: String::new(),
            client_secret: String::new(),
            username: String::new(),
            password: String::new(),
            code: String::new(),
            challenge: String::new(),
            scope: None,
            device: None,
            issuer: issuer.clone(),
            token: token.clone(),
            now,
            client: 0,
        };
        if client_authorization.unicode_len() == 0 {
            return (flow, Step::Done(Err(authorization_error("Client credentials invalid"))));
        }
        let p = match params {
            Some(p) => p,
            None => return (flow, Step::Done(Err(Rejection::NotFound))),
        };
        let g = parse_grant_type(p.grant_type.as_str());
        if g == GrantType::Unsupported {
            return (flow, Step::Done(Err(denial_of(g))));
        }
        let (client_id, client_secret) = match decode_client_auth(client_authorization.as_str()) {
            Some(pair) => pair,
            None => return (flow, Step::Done(Err(denial_of(g)))),
        };
        if g == GrantType::Password {
            match (&p.username, &p.password) {
                (Some(u), Some(w)) => {
                    flow.username = u.clone();
                    flow.password = w.clone();
                },
                _ => return (flow, Step::Done(Err(Rejection::NotFound))),
            }
        } else if g == GrantType::AuthorizationCode {
            match (&p.code, &p.pcke) {
                (Some(c), Some(v)) => {
                    flow.code = c.clone();
                    flow.challenge = challenge_of(v.as_str());
                },
                _ => return (flow, Step::Done(Err(denial_of(g)))),
            }
        }
        flow.stage = Stage::AwaitClient;
        flow.grant = g;
        flow.client_id = client_id.clone();
        flow.client_secret = client_secret.clone();
        flow.scope = copy_text(&p.scope);
        flow.device = copy_text(&p.device);
        (flow, Step::Ask(Query::FindClient { client_id, client_secret }))
    }

    /// Screens a request, giving it a fresh token and the current time.
    pub fn begin(params: &Option<TokenParams>, client_authorization: &String, issuer: &String) -> (r: (
        TokenFlow,
        Step<AccessToken>,
    ))
        ensures
            (r.0@, r.1@) == start_spec(
                params_view(*params),
                client_authorization@,
                issuer@,
                r.0@.token,
                r.0@.now,
            ),
            r.0@.token.len() == TOKEN_LENGTH,
            forall|i: int| 0 <= i < r.0@.token.len() ==> is_alphanumeric(#[trigger] r.0@.token[i]),
            r.0@.now <= LATEST_ISSUE_TIME,
    {
        let token = generate_token();
        let now = now_seconds();
        TokenFlow::start(params, client_authorization, issuer, &token, now)
    }

    /// Moves the flow on with the store's answer to its last query.
    pub fn resume(&mut self, answer: Answer) -> (step: Step<AccessToken>)
        requires
            old(self)@.now <= LATEST_ISSUE_TIME,
        ensures
            (final(self)@, step@) == advance(old(self)@, answer@),
    {
        let deny = denial_of(self.grant);
        match self.stage {
            Stage::AwaitClient => match answer {
                Answer::Id(Some(c)) => match self.grant {
                    GrantType::Password => {
                        self.stage = Stage::AwaitUser;
                        self.client = c;
                        Step::Ask(Query::FindUser { username: self.username.clone(), password: self.password.clone() })
                    },
                    GrantType::AuthorizationCode => {
                        self.stage = Stage::AwaitCode;
                        self.client = c;
                        Step::Ask(Query::FindCode { code: self.code.clone(), challenge: self.challenge.clone() })
                    },
                    GrantType::ClientCredentials => {
                        self.stage = Stage::AwaitSave;
                        self.client = c;
                        let (record, _) = insert_token(
                            &self.token,
                            &self.scope,
                            None,
                            c,
                            &self.issuer,
                            &self.device,
                            self.now,
                        );
                        Step::Ask(Query::SaveToken(record))
                    },
                    GrantType::Unsupported => {
                        self.stage = Stage::Finished;
                        Step::Done(Err(deny))
                    },
                },
                _ => {
                    self.stage = Stage::Finished;
                    Step::Done(Err(deny))
                },
            },
            Stage::AwaitUser | Stage::AwaitCode => match answer {
                Answer::Id(Some(u)) => {
                    self.stage = Stage::AwaitSave;
                    let (record, _) = insert_token(
                        &self.token,
                        &self.scope,
                        Some(u),
                        self.client,
                        &self.issuer,
                        &self.device,
                        self.now,
                    );
                    Step::Ask(Query::SaveToken(record))
                },
                _ => {
                    self.stage = Stage::Finished;
                    Step::Done(Err(deny))
                },
            },
            Stage::AwaitSave => if self.grant == GrantType::AuthorizationCode {
                self.stage = Stage::AwaitDelete;
                Step::Ask(Query::DeleteCode(self.code.clone()))
            } else {
                self.stage = Stage::Finished;
                let (_, response) = insert_token(
                    &self.token,
                    &self.scope,
                    None,
                    self.client,
                    &self.issuer,
                    &self.device,
                    self.now,
                );
                Step::Done(Ok(response))
            },
            Stage::AwaitDelete => {
                self.stage = Stage::Finished;
                let (_, response) = insert_token(
                    &self.token,
                    &self.scope,
                    None,
                    self.client,
                    &self.issuer,
                    &self.device,
                    self.now,
                );
                Step::Done(Ok(response))
            },
            Stage::Finished => Step::Done(Err(Rejection::Unhandled)),
        }
    }
}

} // verus!
