//! Failures of the engine and the error replies they turn into.
use vstd::prelude::*;
use vstd::string::StringExecFns;

verus! {

/// The failures of a request. The store failures carry the store's message,
/// which is logged and never sent to the caller.
#[derive(Clone, Debug)]
pub enum Error {
    DBPoolError(String),
    DBQueryError(String),
    DBInitError(String),
    AuthorizationError(String),
    NotFoundError(String),
    GetRouteFailed(bool),
}

pub enum ErrorView {
    DBPoolError(Seq<char>),
    DBQueryError(Seq<char>),
    DBInitError(Seq<char>),
    AuthorizationError(Seq<char>),
    NotFoundError(Seq<char>),
    GetRouteFailed(bool),
}

impl View for Error {
    type V = ErrorView;

    open spec fn view(&self) -> ErrorView {
        match self {
            Error::DBPoolError(m) => ErrorView::DBPoolError(m@),
            Error::DBQueryError(m) => ErrorView::DBQueryError(m@),
            Error::DBInitError(m) => ErrorView::DBInitError(m@),
            Error::AuthorizationError(m) => ErrorView::AuthorizationError(m@),
            Error::NotFoundError(m) => ErrorView::NotFoundError(m@),
            Error::GetRouteFailed(b) => ErrorView::GetRouteFailed(*b),
        }
    }
}

/// Why a route did not produce a reply: no route matched, the route exists
/// for another method, the engine failed, or anything else.
#[derive(Clone, Debug)]
pub enum Rejection {
    NotFound,
    MethodNotAllowed,
    Custom(Error),
    Unhandled,
}

pub enum RejectionView {
    NotFound,
    MethodNotAllowed,
    Custom(ErrorView),
    Unhandled,
}

impl View for Rejection {
    type V = RejectionView;

    open spec fn view(&self) -> RejectionView {
        match self {
            Rejection::NotFound => RejectionView::NotFound,
            Rejection::MethodNotAllowed => RejectionView::MethodNotAllowed,
            Rejection::Custom(e) => RejectionView::Custom(e@),
            Rejection::Unhandled => RejectionView::Unhandled,
        }
    }
}

/// The view of a result whose failure is a rejection.
pub open spec fn outcome<T: View>(r: Result<T, Rejection>) -> Result<T::V, RejectionView> {
    match r {
        Ok(v) => Ok(v@),
        Err(e) => Err(e@),
    }
}

/// An authorization failure with the given message.
pub open spec fn unauthorized(message: Seq<char>) -> RejectionView {
    RejectionView::Custom(ErrorView::AuthorizationError(message))
}

pub fn authorization_error(message: &str) -> (r: Rejection)
    ensures
        r@ == unauthorized(message@),
{
    Rejection::Custom(Error::AuthorizationError(String::from_str(message)))
}

/// A reply with a status code and a JSON body: `{"message": m}` for
/// `Some(m)`, the JSON string `""` for `None`.
#[derive(Clone, Debug)]
pub struct Reply {
    pub status: u16,
    pub message: Option<String>,
}

/// Status and message of the error reply for a rejection.
pub open spec fn rejection_reply_spec(r: RejectionView) -> (u16, Seq<char>) {
    match r {
        RejectionView::NotFound => (404, "Not Found"@),
        RejectionView::MethodNotAllowed => (405, "Method not allowed"@),
        RejectionView::Custom(ErrorView::AuthorizationError(m)) => (401, m),
        RejectionView::Custom(ErrorView::NotFoundError(m)) => (404, m),
        RejectionView::Custom(ErrorView::GetRouteFailed(_)) => (405, "Method not allowed"@),
        RejectionView::Custom(_) => (500, "Internal Server Error"@),
        RejectionView::Unhandled => (500, "Internal Server Error"@),
    }
}

/// The error reply for a rejection: 401 for authorization failures, 404 for
/// unknown routes and tokens, 405 for a wrong method, and 500 for store
/// failures and anything else, whose detail stays out of the reply.
pub fn handle_rejection(err: &Rejection) -> (r: Reply)
    ensures
        r.message is Some,
        (r.status, r.message->0@) == rejection_reply_spec(err@),
{
    let (status, message) = match err {
        Rejection::NotFound => (404u16, String::from_str("Not Found")),
        Rejection::MethodNotAllowed => (405u16, String::from_str("Method not allowed")),
        Rejection::Custom(Error::AuthorizationError(m)) => (401u16, m.clone()),
        Rejection::Custom(Error::NotFoundError(m)) => (404u16, m.clone()),
        Rejection::Custom(Error::GetRouteFailed(_)) => (405u16, String::from_str("Method not allowed")),
        Rejection::Custom(_) => (500u16, String::from_str("Internal Server Error")),
        Rejection::Unhandled => (500u16, String::from_str("Internal Server Error")),
    };
    Reply { status, message: Some(message) }
}

/// What the health route does with a rejection: a wrong method is passed on
/// as `GetRouteFailed(false)`, an unknown route is answered 404, and anything
/// else 200 with an empty body.
pub open spec fn health_fallback(err: RejectionView) -> Result<(u16, Option<Seq<char>>), RejectionView> {
    match err {
        RejectionView::MethodNotAllowed => Err(RejectionView::Custom(ErrorView::GetRouteFailed(false))),
        RejectionView::NotFound => Ok((404, Some("Not Found"@))),
        _ => Ok((200, None)),
    }
}

pub fn handle_get_notallowed(err: &Rejection) -> (r: Result<Reply, Rejection>)
    ensures
        match r {
            Ok(reply) => health_fallback(err@) == Ok::<(u16, Option<Seq<char>>), RejectionView>(
                (reply.status, reply.message.deep_view()),
            ),
            Err(e) => health_fallback(err@) == Err::<(u16, Option<Seq<char>>), RejectionView>(e@),
        },
{
    match err {
        Rejection::MethodNotAllowed => Err(Rejection::Custom(Error::GetRouteFailed(false))),
        Rejection::NotFound => Ok(Reply { status: 404, message: Some(String::from_str("Not Found")) }),
        _ => Ok(Reply { status: 200, message: None }),
    }
}

} // verus!
