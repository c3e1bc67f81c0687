//! What the service answers with: a status, the bearer challenge of a
//! rejection, and a structured body. Turning the body into bytes is left to
//! the transport.

use vstd::prelude::*;

use crate::auth::{Challenge, Rejection};
use crate::failure::Failure;
use crate::model::{rows_of, User, UserView};

verus! {

/// The status of a successful read or deletion.
pub const OK: u16 = 200;

/// The status of a successful creation.
pub const CREATED: u16 = 201;

/// The structured payload of a response.
#[derive(Debug, Clone, PartialEq, Eq)]
pub enum Body {
    /// No payload.
    Empty,
    /// Every record a listing found.
    Users(Vec<User>),
    /// The one record a lookup found.
    User(User),
    /// The number of rows a write affected.
    Count(usize),
}

/// A payload, as mathematical values.
pub enum BodyView {
    Empty,
    Users(Seq<UserView>),
    User(UserView),
    Count(nat),
}

impl View for Body {
    type V = BodyView;

    open spec fn view(&self) -> BodyView {
        match *self {
            Body::Empty => BodyView::Empty,
            Body::Users(users) => BodyView::Users(rows_of(users@)),
            Body::User(user) => BodyView::User(user@),
            Body::Count(count) => BodyView::Count(count as nat),
        }
    }
}

/// A response of the service.
#[derive(Debug, Clone, PartialEq, Eq)]
pub struct Response {
    pub status: u16,
    /// Present on rejections only: what the `WWW-Authenticate` header is made
    /// from.
    pub challenge: Option<Challenge>,
    pub body: Body,
}

/// A response, as mathematical values.
pub struct ResponseView {
    pub status: u16,
    pub challenge: Option<Challenge>,
    pub body: BodyView,
}

impl View for Response {
    type V = ResponseView;

    open spec fn view(&self) -> ResponseView {
        ResponseView { status: self.status, challenge: self.challenge, body: self.body@ }
    }
}

/// The answer to a request the auth gate turned away: the rejection's status
/// and challenge, and no body.
pub open spec fn rejected(rejection: Rejection) -> ResponseView {
    ResponseView {
        status: rejection.status,
        challenge: Some(rejection.challenge),
        body: BodyView::Empty,
    }
}

/// The answer to a request whose blocking work failed: the one server-error
/// status whatever the kind of failure, with no body and no detail.
pub open spec fn collapsed(failure: Failure) -> ResponseView {
    ResponseView { status: failure.spec_status(), challenge: None, body: BodyView::Empty }
}

/// The answer to a request whose blocking work ended in `outcome`, where
/// `success` is the status the operation answers with when it succeeds. A
/// value is carried in the body under that status; a failure is collapsed.
pub open spec fn bridged(success: u16, outcome: Result<BodyView, Failure>) -> ResponseView {
    match outcome {
        Ok(body) => ResponseView { status: success, challenge: None, body },
        Err(failure) => collapsed(failure),
    }
}

impl Response {
    /// Answers a request the auth gate turned away.
    pub fn from_rejection(rejection: Rejection) -> (response: Response)
        ensures
            response@ == rejected(rejection),
    {
        Response {
            status: rejection.status,
            challenge: Some(rejection.challenge),
            body: Body::Empty,
        }
    }

    /// Answers a request whose blocking work succeeded with `body`.
    pub fn success(status: u16, body: Body) -> (response: Response)
        ensures
            response@ == bridged(status, Ok(body@)),
    {
        Response { status, challenge: None, body }
    }

    /// Answers a request whose blocking work failed.
    pub fn failure(failure: Failure) -> (response: Response)
        ensures
            response@ == collapsed(failure),
    {
        Response { status: failure.status(), challenge: None, body: Body::Empty }
    }
}

} // verus!
