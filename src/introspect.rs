//! Token introspection: the client authenticates, then the token is looked
//! up among the tokens of that client only.
use vstd::prelude::*;
use vstd::string::StringExecFns;
use crate::credentials::{client_pair, decode_client_auth};
use crate::errors::{authorization_error, unauthorized, Error, ErrorView, Rejection, RejectionView};
use crate::grant::{Step, StepView};
use crate::issuance::now_seconds;
use crate::models::{Introspection, IntrospectionView};
use crate::store::{client_lookup, token_lookup, Answer, AnswerView, Query, QueryView, StoreView, TokenMatch, TokenMatchView};
use crate::text::copy_text;

verus! {

/// The introspection of a found token at time `now`: active while its expiry
/// lies ahead.
pub open spec fn introspection_of(m: TokenMatchView, now: int) -> IntrospectionView {
    IntrospectionView {
        active: m.expire_time > now,
        client_id: m.client_id,
        username: m.username,
        user_id: m.user_id,
        scope: m.scope,
        token_type: m.token_type,
        issuer: m.issuer,
        exp: m.expire_time,
        iat: m.creation_time,
    }
}

pub open spec fn unknown_token() -> RejectionView {
    RejectionView::Custom(ErrorView::NotFoundError("Unknown token"@))
}

/// The whole introspection request against a store.
pub open spec fn introspection(db: StoreView, header: Seq<char>, token: Seq<char>, now: int) -> Result<
    IntrospectionView,
    RejectionView,
> {
    let deny = Err(unauthorized("Client credentials invalid"@));
    match client_pair(header) {
        None => deny,
        Some(pair) => match client_lookup(db, pair.0, pair.1) {
            None => deny,
            Some(client) => match token_lookup(db, token, client) {
                None => Err(unknown_token()),
                Some(m) => Ok(introspection_of(m, now)),
            },
        },
    }
}

/// The introspection of a found token at time `now`.
pub fn introspection_from(m: &TokenMatch, now: i64) -> (r: Introspection)
    ensures
        r@ == introspection_of(m@, now as int),
{
    Introspection {
        active: m.expire_time > now,
        client_id: m.client_id.clone(),
        username: copy_text(&m.username),
        user_id: m.user_id,
        scope: copy_text(&m.scope),
        token_type: m.token_type.clone(),
        issuer: m.issuer.clone(),
        exp: m.expire_time,
        iat: m.creation_time,
    }
}

#[derive(PartialEq, Eq, Structural, Clone, Copy, Debug)]
pub enum IntrospectStage {
    AwaitClient,
    AwaitToken,
    Finished,
}

/// An introspection request in progress.
pub struct IntrospectFlow {
    stage: IntrospectStage,
    access_token: String,
    now: i64,
}

pub struct IntrospectFlowView {
    pub stage: IntrospectStage,
    pub access_token: Seq<char>,
    pub now: int,
}

impl View for IntrospectFlow {
    type V = IntrospectFlowView;

    closed spec fn view(&self) -> IntrospectFlowView {
        IntrospectFlowView { stage: self.stage, access_token: self.access_token@, now: self.now as int }
    }
}

pub open spec fn introspect_start(header: Seq<char>, token: Seq<char>, now: int) -> (
    IntrospectFlowView,
    StepView<IntrospectionView>,
) {
    match client_pair(header) {
        None => (
            IntrospectFlowView { stage: IntrospectStage::Finished, access_token: token, now },
            StepView::Done(Err(unauthorized("Client credentials invalid"@))),
        ),
        Some(pair) => (
            IntrospectFlowView { stage: IntrospectStage::AwaitClient, access_token: token, now },
            StepView::Ask(QueryView::FindClient { client_id: pair.0, client_secret: pair.1 }),
        ),
    }
}

pub open spec fn introspect_advance(f: IntrospectFlowView, a: AnswerView) -> (
    IntrospectFlowView,
    StepView<IntrospectionView>,
) {
    let done = IntrospectFlowView { stage: IntrospectStage::Finished, ..f };
    match f.stage {
        IntrospectStage::AwaitClient => match a {
            AnswerView::Id(Some(c)) => (
                IntrospectFlowView { stage: IntrospectStage::AwaitToken, ..f },
                StepView::Ask(QueryView::FindToken { access_token: f.access_token, client: c }),
            ),
            _ => (done, StepView::Done(Err(unauthorized("Client credentials invalid"@)))),
        },
        IntrospectStage::AwaitToken => match a {
            AnswerView::Token(Some(m)) => (done, StepView::Done(Ok(introspection_of(m, f.now)))),
            _ => (done, StepView::Done(Err(unknown_token()))),
        },
        IntrospectStage::Finished => (f, StepView::Done(Err(RejectionView::Unhandled))),
    }
}

impl IntrospectFlow {
    /// Screens an introspection request made at time `now`.
    pub fn start(client_authorization: &String, access_token: &String, now: i64) -> (r: (
        IntrospectFlow,
        Step<Introspection>,
    ))
        ensures
            (r.0@, r.1@) == introspect_start(client_authorization@, access_token@, now as int),
    {
        let mut flow = IntrospectFlow { stage: IntrospectStage::Finished, access_token: access_token.clone(), now };
        match decode_client_auth(client_authorization.as_str()) {
            None => (flow, Step::Done(Err(authorization_error("Client credentials invalid")))),
            Some((client_id, client_secret)) => {
                flow.stage = IntrospectStage::AwaitClient;
                (flow, Step::Ask(Query::FindClient { client_id, client_secret }))
            },
        }
    }

    /// Screens an introspection request made now.
    pub fn begin(client_authorization: &String, access_token: &String) -> (r: (IntrospectFlow, Step<Introspection>))
        ensures
            (r.0@, r.1@) == introspect_start(client_authorization@, access_token@, r.0@.now),
    {
        let now = now_seconds();
        IntrospectFlow::start(client_authorization, access_token, now)
    }

    /// Moves the flow on with the store's answer to its last query.
    pub fn resume(&mut self, answer: Answer) -> (step: Step<Introspection>)
        ensures
            (final(self)@, step@) == introspect_advance(old(self)@, answer@),
    {
        match self.stage {
            IntrospectStage::AwaitClient => match answer {
                Answer::Id(Some(c)) => {
                    self.stage = IntrospectStage::AwaitToken;
                    Step::Ask(Query::FindToken { access_token: self.access_token.clone(), client: c })
                },
                _ => {
                    self.stage = IntrospectStage::Finished;
                    Step::Done(Err(authorization_error("Client credentials invalid")))
                },
            },
            IntrospectStage::AwaitToken => {
                self.stage = IntrospectStage::Finished;
                match answer {
                    Answer::Token(Some(m)) => Step::Done(Ok(introspection_from(&m, self.now))),
                    _ => Step::Done(Err(Rejection::Custom(Error::NotFoundError(String::from_str("Unknown token"))))),
                }
            },
            IntrospectStage::Finished => Step::Done(Err(Rejection::Unhandled)),
        }
    }
}

} // verus!
