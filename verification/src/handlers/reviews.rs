//! `POST /reviews` and `GET /reviews/{item_type}/{item_id}`.

use crate::aggregation::{
    new_review, submission, submit_review_at, Aggregation, AggregationStep, AggregationStepView,
    AggregationView, PublicationView,
};
use crate::clock::now_millis;
use crate::error::ApiError;
use crate::http::{
    answer_of, authorize, authorizing, into_answer, invalid_token, refusal, status_reply, Action,
    ActionView, Body, BodyView, Event, EventView, Lag, Reply, ReplyView, Step, StepView,
};
use crate::models::{CreateReviewRequest, CreateReviewRequestView};
use crate::store::{StoreAnswer, StoreAnswerView, StoreRequest, StoreRequestView};
use vstd::prelude::*;

verus! {

/// Where a request on reviews stands.
#[derive(Debug, Clone, PartialEq, Eq)]
pub enum ReviewFlow {
    /// A review was sent in; the token service was asked whose token came
    /// with it.
    Authorizing { request: CreateReviewRequest },
    /// The review is being recorded and its target rated.
    Aggregating { aggregation: Aggregation },
    /// The reviews of an item were asked for.
    Listing,
}

/// The view of [`ReviewFlow`].
pub enum ReviewFlowView {
    Authorizing { request: CreateReviewRequestView },
    Aggregating { aggregation: AggregationView },
    Listing,
}

impl View for ReviewFlow {
    type V = ReviewFlowView;

    open spec fn view(&self) -> ReviewFlowView {
        match self {
            ReviewFlow::Authorizing { request } => ReviewFlowView::Authorizing {
                request: request@,
            },
            ReviewFlow::Aggregating { aggregation } => ReviewFlowView::Aggregating {
                aggregation: aggregation@,
            },
            ReviewFlow::Listing => ReviewFlowView::Listing,
        }
    }
}

/// The answer to a review that is recorded. It is the same whether or not the
/// mean was written; a mean that could not be read or written is noted as a
/// lag.
pub open spec fn review_created(publication: PublicationView) -> ReplyView {
    ReplyView {
        lag: if publication is ReadFailed || publication is WriteFailed {
            Some(Lag::Rating)
        } else {
            None
        },
        ..status_reply(200, true, "Review created successfully"@)
    }
}

/// The handler's step for a step of the aggregation: the aggregation's
/// request is passed on to the store, and its end is answered with 200 when
/// the review is recorded and with 500 when it is not.
pub open spec fn relay(step: AggregationStepView) -> StepView<ReviewFlowView> {
    match step {
        AggregationStepView::Ask { state, request } => StepView::Do {
            state: ReviewFlowView::Aggregating { aggregation: state },
            action: ActionView::Store(request),
        },
        AggregationStepView::Done(reviewed) => StepView::Reply(
            review_created(reviewed.publication),
        ),
        AggregationStepView::Failed(_) => StepView::Reply(
            refusal(ApiError::StorageError, "Failed to create review"@),
        ),
    }
}

/// The first step of `POST /reviews`.
pub open spec fn creating_review(
    authorization: Option<Seq<char>>,
    request: CreateReviewRequestView,
) -> StepView<ReviewFlowView> {
    authorizing(authorization, ReviewFlowView::Authorizing { request })
}

/// The first step of `GET /reviews/{item_type}/{item_id}`: the reviews of the
/// item are asked for, newest first.
pub open spec fn listing_reviews(item_type: Seq<char>, item_id: Seq<char>) -> StepView<
    ReviewFlowView,
> {
    StepView::Do {
        state: ReviewFlowView::Listing,
        action: ActionView::Store(
            StoreRequestView::FindReviews { item_id, item_type, newest_first: true },
        ),
    }
}

impl ReviewFlowView {
    /// The step that `event`, received at `now`, leads to.
    pub open spec fn resume(self, event: EventView, now: i64) -> StepView<ReviewFlowView> {
        match self {
            ReviewFlowView::Authorizing { request } => match event {
                EventView::Subject(Some(subject)) => relay(
                    submission(
                        new_review(
                            subject,
                            request.item_id,
                            request.item_type,
                            request.rating,
                            request.comment,
                            now,
                        ),
                    ),
                ),
                _ => StepView::Reply(invalid_token()),
            },
            ReviewFlowView::Aggregating { aggregation } => relay(
                aggregation.resume(answer_of(event)),
            ),
            ReviewFlowView::Listing => match event {
                EventView::Store(StoreAnswerView::Reviews(list)) => StepView::Reply(
                    ReplyView { status: 200, body: BodyView::Reviews(list), lag: None },
                ),
                _ => StepView::Reply(refusal(ApiError::StorageError, "Failed to fetch reviews"@)),
            },
        }
    }
}

/// Starts `POST /reviews`: a user reviews a service or a product.
pub fn create_review(authorization: Option<&str>, request: CreateReviewRequest) -> (step: Step<
    ReviewFlow,
>)
    ensures
        step@ == creating_review(authorization.deep_view(), request@),
{
    authorize(authorization, ReviewFlow::Authorizing { request })
}

/// Starts `GET /reviews/{item_type}/{item_id}`.
pub fn get_reviews(item_type: String, item_id: String) -> (step: Step<ReviewFlow>)
    ensures
        step@ == listing_reviews(item_type@, item_id@),
{
    Step::Do {
        state: ReviewFlow::Listing,
        action: Action::Store(StoreRequest::FindReviews { item_id, item_type, newest_first: true }),
    }
}

/// The handler's step for a step of the aggregation.
fn relay_step(step: AggregationStep) -> (next: Step<ReviewFlow>)
    ensures
        next@ == relay(step@),
{
    match step {
        AggregationStep::Ask { state, request } => Step::Do {
            state: ReviewFlow::Aggregating { aggregation: state },
            action: Action::Store(request),
        },
        AggregationStep::Done(reviewed) => {
            let lag = match reviewed.publication {
                crate::aggregation::Publication::ReadFailed => Some(Lag::Rating),
                crate::aggregation::Publication::WriteFailed(_) => Some(Lag::Rating),
                _ => None,
            };
            let reply = Reply::status(200, true, "Review created successfully");
            Step::Reply(Reply { lag, ..reply })
        },
        AggregationStep::Failed(_) => Step::Reply(
            Reply::refusal(ApiError::StorageError, "Failed to create review"),
        ),
    }
}

impl ReviewFlow {
    /// Takes the request one step on, with the event that tells of the
    /// action it was waiting on and the time `now` at which it came.
    pub fn resume_at(self, event: Event, now: i64) -> (step: Step<ReviewFlow>)
        ensures
            step@ == self@.resume(event@, now),
    {
        match self {
            ReviewFlow::Authorizing { request } => match event {
                Event::Subject(Some(subject)) => relay_step(
                    submit_review_at(
                        subject,
                        request.item_id,
                        request.item_type,
                        request.rating,
                        request.comment,
                        now,
                    ),
                ),
                _ => Step::Reply(Reply::refusal(ApiError::Unauthorized, "Invalid token")),
            },
            ReviewFlow::Aggregating { aggregation } => relay_step(
                aggregation.resume(into_answer(event)),
            ),
            ReviewFlow::Listing => match event {
                Event::Store(StoreAnswer::Reviews(list)) => Step::Reply(
                    Reply { status: 200, body: Body::Reviews(list), lag: None },
                ),
                _ => Step::Reply(Reply::refusal(ApiError::StorageError, "Failed to fetch reviews")),
            },
        }
    }

    /// Takes the request one step on, with the event that tells of the
    /// action it was waiting on. A review that this step makes is created at
    /// the time of the call.
    pub fn resume(self, event: Event) -> (step: Step<ReviewFlow>)
        ensures
            exists|now: i64| step@ == #[trigger] self@.resume(event@, now),
    {
        let now: i64 = now_millis();
        self.resume_at(event, now)
    }
}

} // verus!
