//! The vocabulary of the request handlers: what a handler answers, what it
//! asks of the outside while it works, and what it is told.

use crate::error::ApiError;
use crate::models::{
    AuthResponse, AuthResponseView, Booking, BookingView, Product, ProductView, Purchase,
    PurchaseView, Review, ReviewView, Service, ServiceView,
};
use crate::store::{StoreAnswer, StoreAnswerView, StoreRequest, StoreRequestView};
use crate::text::{bearer_token, bearer_token_of, owned};
use vstd::prelude::*;

verus! {

/// The body of an answer, to be written as JSON.
#[derive(Debug, Clone, PartialEq, Eq)]
pub enum Body {
    /// A bare text.
    Text(String),
    /// An object of the two members `success` and `message`.
    Status { success: bool, message: String },
    /// An object of the three members `success`, `message` and
    /// `download_url`.
    Purchased { success: bool, message: String, download_url: String },
    Login(AuthResponse),
    Service(Service),
    Services(Vec<Service>),
    Product(Product),
    Products(Vec<Product>),
    Bookings(Vec<Booking>),
    Purchases(Vec<Purchase>),
    Reviews(Vec<Review>),
}

/// The view of [`Body`].
pub enum BodyView {
    Text(Seq<char>),
    Status { success: bool, message: Seq<char> },
    Purchased { success: bool, message: Seq<char>, download_url: Seq<char> },
    Login(AuthResponseView),
    Service(ServiceView),
    Services(Seq<ServiceView>),
    Product(ProductView),
    Products(Seq<ProductView>),
    Bookings(Seq<BookingView>),
    Purchases(Seq<PurchaseView>),
    Reviews(Seq<ReviewView>),
}

impl View for Body {
    type V = BodyView;

    open spec fn view(&self) -> BodyView {
        match self {
            Body::Text(text) => BodyView::Text(text@),
            Body::Status { success, message } => BodyView::Status {
                success: *success,
                message: message@,
            },
            Body::Purchased { success, message, download_url } => BodyView::Purchased {
                success: *success,
                message: message@,
                download_url: download_url@,
            },
            Body::Login(auth) => BodyView::Login(auth@),
            Body::Service(service) => BodyView::Service(service@),
            Body::Services(list) => BodyView::Services(list.deep_view()),
            Body::Product(product) => BodyView::Product(product@),
            Body::Products(list) => BodyView::Products(list.deep_view()),
            Body::Bookings(list) => BodyView::Bookings(list.deep_view()),
            Body::Purchases(list) => BodyView::Purchases(list.deep_view()),
            Body::Reviews(list) => BodyView::Reviews(list.deep_view()),
        }
    }
}

/// A dependent value that a successful answer has left behind: the primary
/// record is stored, the update that follows from it is not. The answer does
/// not show it; it is there to be logged.
#[derive(Debug, Clone, Copy, PartialEq, Eq, Structural)]
pub enum Lag {
    /// A purchase is recorded and the product's download counter was not
    /// raised.
    Downloads,
    /// A review is recorded and the mean rating of its target was not
    /// written.
    Rating,
}

/// The answer to a request: an HTTP status code and a body, and what the
/// answer has left behind, if anything.
#[derive(Debug, Clone, PartialEq, Eq)]
pub struct Reply {
    pub status: u16,
    pub body: Body,
    pub lag: Option<Lag>,
}

/// The view of [`Reply`].
pub struct ReplyView {
    pub status: u16,
    pub body: BodyView,
    pub lag: Option<Lag>,
}

impl View for Reply {
    type V = ReplyView;

    open spec fn view(&self) -> ReplyView {
        ReplyView { status: self.status, body: self.body@, lag: self.lag }
    }
}

/// The answer with the code `status` whose body is the bare text `text`.
pub open spec fn text_reply(status: u16, text: Seq<char>) -> ReplyView {
    ReplyView { status, body: BodyView::Text(text), lag: None }
}

/// The answer that reports `error`: its code is that of the error and its
/// body the bare text `message`.
pub open spec fn refusal(error: ApiError, message: Seq<char>) -> ReplyView {
    text_reply(error.status_code(), message)
}

/// The answer with the code `status` whose body tells whether the request
/// was served, with a message.
pub open spec fn status_reply(status: u16, success: bool, message: Seq<char>) -> ReplyView {
    ReplyView { status, body: BodyView::Status { success, message }, lag: None }
}

impl Reply {
    /// The answer with the code `status` whose body is the bare text `text`.
    pub fn text(status: u16, text: &str) -> (reply: Reply)
        ensures
            reply@ == text_reply(status, text@),
    {
        Reply { status, body: Body::Text(owned(text)), lag: None }
    }

    /// The answer that reports `error` with the bare text `message`.
    pub fn refusal(error: ApiError, message: &str) -> (reply: Reply)
        ensures
            reply@ == refusal(error, message@),
    {
        Reply::text(error.status(), message)
    }

    /// The answer with the code `status` whose body tells whether the
    /// request was served, with a message.
    pub fn status(status: u16, success: bool, message: &str) -> (reply: Reply)
        ensures
            reply@ == status_reply(status, success, message@),
    {
        Reply { status, body: Body::Status { success, message: owned(message) }, lag: None }
    }
}

/// What a handler asks of the outside.
#[derive(Debug, Clone, PartialEq, Eq)]
pub enum Action {
    /// The token service is to say whose token this is.
    VerifyToken { token: String },
    /// The token service is to issue a token for this subject.
    IssueToken { subject: String },
    /// The store is to carry out a request.
    Store(StoreRequest),
}

/// The view of [`Action`].
pub enum ActionView {
    VerifyToken { token: Seq<char> },
    IssueToken { subject: Seq<char> },
    Store(StoreRequestView),
}

impl View for Action {
    type V = ActionView;

    open spec fn view(&self) -> ActionView {
        match self {
            Action::VerifyToken { token } => ActionView::VerifyToken { token: token@ },
            Action::IssueToken { subject } => ActionView::IssueToken { subject: subject@ },
            Action::Store(request) => ActionView::Store(request@),
        }
    }
}

/// What a handler is told of the action it asked for.
#[derive(Debug, Clone, PartialEq, Eq)]
pub enum Event {
    /// The subject of the token, or nothing when the token was not accepted.
    Subject(Option<String>),
    /// The token that was issued.
    Token(String),
    /// The store's answer.
    Store(StoreAnswer),
}

/// The view of [`Event`].
pub enum EventView {
    Subject(Option<Seq<char>>),
    Token(Seq<char>),
    Store(StoreAnswerView),
}

impl View for Event {
    type V = EventView;

    open spec fn view(&self) -> EventView {
        match self {
            Event::Subject(subject) => EventView::Subject(subject.deep_view()),
            Event::Token(token) => EventView::Token(token@),
            Event::Store(answer) => EventView::Store(answer@),
        }
    }
}

/// What a handler does next: it asks for an action and waits in a state for
/// the event that tells of it, or it answers the request.
#[derive(Debug, Clone, PartialEq, Eq)]
pub enum Step<S> {
    Do { state: S, action: Action },
    Reply(Reply),
}

/// The view of [`Step`].
pub enum StepView<S> {
    Do { state: S, action: ActionView },
    Reply(ReplyView),
}

impl<S: View> View for Step<S> {
    type V = StepView<S::V>;

    open spec fn view(&self) -> StepView<S::V> {
        match self {
            Step::Do { state, action } => StepView::Do { state: state@, action: action@ },
            Step::Reply(reply) => StepView::Reply(reply@),
        }
    }
}

/// The token of a request, or the answer to a request that carries none. A
/// request without an `Authorization` header is unauthorized; the token of
/// any other is what follows `Bearer ` in the header.
pub open spec fn token_of(authorization: Option<Seq<char>>) -> Result<Seq<char>, ReplyView> {
    match authorization {
        None => Err(refusal(ApiError::Unauthorized, "Missing authorization"@)),
        Some(header) => Ok(bearer_token_of(header)),
    }
}

/// The answer to a request whose token the token service did not accept.
pub open spec fn invalid_token() -> ReplyView {
    refusal(ApiError::Unauthorized, "Invalid token"@)
}

/// The token of a request, or the answer to a request that carries none.
pub fn request_token(authorization: Option<&str>) -> (res: Result<String, Reply>)
    ensures
        match res {
            Ok(token) => token_of(authorization.deep_view()) == Ok::<Seq<char>, ReplyView>(token@),
            Err(reply) => token_of(authorization.deep_view()) == Err::<Seq<char>, ReplyView>(
                reply@,
            ),
        },
{
    match authorization {
        None => Err(Reply::refusal(ApiError::Unauthorized, "Missing authorization")),
        Some(header) => Ok(owned(bearer_token(header))),
    }
}

/// The first step of a handler that serves only requests with a token: a
/// request without one is answered at once, and the token of any other is
/// handed to the token service while the handler waits in `waiting`.
pub open spec fn authorizing<S>(authorization: Option<Seq<char>>, waiting: S) -> StepView<S> {
    match token_of(authorization) {
        Ok(token) => StepView::Do { state: waiting, action: ActionView::VerifyToken { token } },
        Err(reply) => StepView::Reply(reply),
    }
}

/// The first step of a handler that serves only requests with a token.
pub fn authorize<S: View>(authorization: Option<&str>, waiting: S) -> (step: Step<S>)
    ensures
        step@ == authorizing(authorization.deep_view(), waiting@),
{
    match request_token(authorization) {
        Ok(token) => Step::Do { state: waiting, action: Action::VerifyToken { token } },
        Err(reply) => Step::Reply(reply),
    }
}

/// The store's answer that an event carries; an event of another kind counts
/// as a failure of the store.
pub open spec fn answer_of(event: EventView) -> StoreAnswerView {
    match event {
        EventView::Store(answer) => answer,
        _ => StoreAnswerView::Failed,
    }
}

/// The store's answer that an event carries.
pub fn into_answer(event: Event) -> (answer: StoreAnswer)
    ensures
        answer@ == answer_of(event@),
{
    match event {
        Event::Store(answer) => answer,
        _ => StoreAnswer::Failed,
    }
}

} // verus!
