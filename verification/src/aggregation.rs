//! Rating aggregation: a review is recorded, and the mean rating of its
//! target is computed afresh from all its reviews and written to the target.
//!
//! The review is the primary record. Reading the reviews again and writing
//! the mean are best effort: when either fails the review stands and the
//! caller is told so, beside the reason why no mean was written.

use crate::clock::now_millis;
use crate::error::ApiError;
use crate::models::{Review, ReviewView};
use crate::oid::{is_object_id_text, object_id_bytes, ObjectId};
use crate::rating::{mean_of, Mean, MeanView};
use crate::store::{
    item_kind_of, ItemKind, StoreAnswer, StoreAnswerView, StoreRequest, StoreRequestView,
};
use vstd::prelude::*;

verus! {

/// What became of the mean after a review was recorded.
#[derive(Debug, Clone, Copy, PartialEq, Eq)]
pub enum Publication {
    /// The store took the write of this mean.
    Written(Mean),
    /// The store did not take the write of this mean; the target keeps the
    /// rating it had.
    WriteFailed(Mean),
    /// The reviews could not be read again, so no mean was computed.
    ReadFailed,
    /// The target's tag names neither a service nor a product, so there is
    /// nothing to write to.
    UnknownKind,
    /// The target's id is not an object id, so there is nothing to write to.
    MalformedTarget,
}

/// The view of [`Publication`].
pub enum PublicationView {
    Written(MeanView),
    WriteFailed(MeanView),
    ReadFailed,
    UnknownKind,
    MalformedTarget,
}

impl View for Publication {
    type V = PublicationView;

    open spec fn view(&self) -> PublicationView {
        match self {
            Publication::Written(mean) => PublicationView::Written(mean@),
            Publication::WriteFailed(mean) => PublicationView::WriteFailed(mean@),
            Publication::ReadFailed => PublicationView::ReadFailed,
            Publication::UnknownKind => PublicationView::UnknownKind,
            Publication::MalformedTarget => PublicationView::MalformedTarget,
        }
    }
}

/// A recorded review, and what became of the mean.
#[derive(Debug, Clone, PartialEq, Eq)]
pub struct Reviewed {
    pub review: Review,
    pub publication: Publication,
}

/// The view of [`Reviewed`].
pub struct ReviewedView {
    pub review: ReviewView,
    pub publication: PublicationView,
}

impl View for Reviewed {
    type V = ReviewedView;

    open spec fn view(&self) -> ReviewedView {
        ReviewedView { review: self.review@, publication: self.publication@ }
    }
}

/// Where an aggregation stands: which answer of the store it waits for.
#[derive(Debug, Clone, PartialEq, Eq)]
pub enum Aggregation {
    /// The review was handed to the store.
    Inserting { review: Review },
    /// The review is recorded; the reviews of its target were asked for.
    Reading { review: Review },
    /// The mean was handed to the store.
    Publishing { review: Review, rating: Mean },
}

/// The view of [`Aggregation`].
pub enum AggregationView {
    Inserting { review: ReviewView },
    Reading { review: ReviewView },
    Publishing { review: ReviewView, rating: MeanView },
}

impl View for Aggregation {
    type V = AggregationView;

    open spec fn view(&self) -> AggregationView {
        match self {
            Aggregation::Inserting { review } => AggregationView::Inserting { review: review@ },
            Aggregation::Reading { review } => AggregationView::Reading { review: review@ },
            Aggregation::Publishing { review, rating } => AggregationView::Publishing {
                review: review@,
                rating: rating@,
            },
        }
    }
}

/// What an aggregation does next.
#[derive(Debug, Clone, PartialEq, Eq)]
pub enum AggregationStep {
    /// It asks the store for `request` and waits in `state` for the answer.
    Ask { state: Aggregation, request: StoreRequest },
    /// It is over and the review is recorded.
    Done(Reviewed),
    /// It is over and nothing is recorded.
    Failed(ApiError),
}

/// The view of [`AggregationStep`].
pub enum AggregationStepView {
    Ask { state: AggregationView, request: StoreRequestView },
    Done(ReviewedView),
    Failed(ApiError),
}

impl View for AggregationStep {
    type V = AggregationStepView;

    open spec fn view(&self) -> AggregationStepView {
        match self {
            AggregationStep::Ask { state, request } => AggregationStepView::Ask {
                state: state@,
                request: request@,
            },
            AggregationStep::Done(reviewed) => AggregationStepView::Done(reviewed@),
            AggregationStep::Failed(error) => AggregationStepView::Failed(*error),
        }
    }
}

impl AggregationStepView {
    /// The mean that the aggregation reports as written, once it has ended
    /// and if it wrote one.
    pub open spec fn written(self) -> Option<MeanView> {
        match self {
            AggregationStepView::Done(
                ReviewedView { publication: PublicationView::Written(mean), .. },
            ) => Some(mean),
            _ => None,
        }
    }
}

/// The review that a submission makes: it has no id yet and was created at
/// `now`.
pub open spec fn new_review(
    author_id: Seq<char>,
    target_id: Seq<char>,
    target_type: Seq<char>,
    rating: i32,
    comment: Seq<char>,
    now: i64,
) -> ReviewView {
    ReviewView {
        id: None,
        user_id: author_id,
        item_id: target_id,
        item_type: target_type,
        rating,
        comment,
        created_at: now,
    }
}

/// The first step of a submission: the review is handed to the store,
/// whatever its target and its rating are.
pub open spec fn submission(review: ReviewView) -> AggregationStepView {
    AggregationStepView::Ask {
        state: AggregationView::Inserting { review },
        request: StoreRequestView::InsertReview { review },
    }
}

/// The end of an aggregation whose review is recorded.
pub open spec fn recorded(review: ReviewView, publication: PublicationView) -> AggregationStepView {
    AggregationStepView::Done(ReviewedView { review, publication })
}

/// What follows the computation of the mean: it is written to the service or
/// the product that the review is about, if the review names one.
pub open spec fn publish(review: ReviewView, rating: MeanView) -> AggregationStepView {
    match item_kind_of(review.item_type) {
        None => recorded(review, PublicationView::UnknownKind),
        Some(kind) => if is_object_id_text(review.item_id) {
            AggregationStepView::Ask {
                state: AggregationView::Publishing { review, rating },
                request: StoreRequestView::SetRating {
                    kind,
                    id: object_id_bytes(review.item_id),
                    rating,
                },
            }
        } else {
            recorded(review, PublicationView::MalformedTarget)
        },
    }
}

impl AggregationView {
    /// The step that the answer `answer` leads to.
    ///
    /// A review that the store did not take ends the aggregation with a
    /// storage error, before anything is read or written. Once it is taken
    /// every end is a success: the reviews of the target are read, all of
    /// them, and their mean is written.
    pub open spec fn resume(self, answer: StoreAnswerView) -> AggregationStepView {
        match self {
            AggregationView::Inserting { review } => match answer {
                StoreAnswerView::Inserted => AggregationStepView::Ask {
                    state: AggregationView::Reading { review },
                    request: StoreRequestView::FindReviews {
                        item_id: review.item_id,
                        item_type: review.item_type,
                        newest_first: false,
                    },
                },
                _ => AggregationStepView::Failed(ApiError::StorageError),
            },
            AggregationView::Reading { review } => match answer {
                StoreAnswerView::Reviews(all) => publish(review, mean_of(all)),
                _ => recorded(review, PublicationView::ReadFailed),
            },
            AggregationView::Publishing { review, rating } => match answer {
                StoreAnswerView::Updated => recorded(review, PublicationView::Written(rating)),
                _ => recorded(review, PublicationView::WriteFailed(rating)),
            },
        }
    }
}

/// Starts the submission of a review created at `now`.
pub fn submit_review_at(
    author_id: String,
    target_id: String,
    target_type: String,
    rating: i32,
    comment: String,
    now: i64,
) -> (step: AggregationStep)
    ensures
        step@ == submission(
            new_review(author_id@, target_id@, target_type@, rating, comment@, now),
        ),
{
    let review = Review {
        id: None,
        user_id: author_id,
        item_id: target_id,
        item_type: target_type,
        rating,
        comment,
        created_at: now,
    };
    let sent = review.clone();
    AggregationStep::Ask {
        state: Aggregation::Inserting { review },
        request: StoreRequest::InsertReview { review: sent },
    }
}

/// Starts the submission of a review: `author_id` rates the item `target_id`
/// of kind `target_type`. The review is created at the time of the call.
pub fn submit_review(
    author_id: String,
    target_id: String,
    target_type: String,
    rating: i32,
    comment: String,
) -> (step: AggregationStep)
    ensures
        exists|now: i64|
            step@ == submission(
                #[trigger] new_review(author_id@, target_id@, target_type@, rating, comment@, now),
            ),
{
    let now: i64 = now_millis();
    submit_review_at(author_id, target_id, target_type, rating, comment, now)
}

/// The end of an aggregation whose review is recorded.
fn finish(review: Review, publication: Publication) -> (step: AggregationStep)
    ensures
        step@ == recorded(review@, publication@),
{
    AggregationStep::Done(Reviewed { review, publication })
}

impl Aggregation {
    /// Takes the aggregation one step on, with the store's answer to the
    /// request it was waiting on.
    pub fn resume(self, answer: StoreAnswer) -> (step: AggregationStep)
        ensures
            step@ == self@.resume(answer@),
    {
        match self {
            Aggregation::Inserting { review } => match answer {
                StoreAnswer::Inserted => {
                    let item_id = review.item_id.clone();
                    let item_type = review.item_type.clone();
                    AggregationStep::Ask {
                        state: Aggregation::Reading { review },
                        request: StoreRequest::FindReviews {
                            item_id,
                            item_type,
                            newest_first: false,
                        },
                    }
                },
                _ => AggregationStep::Failed(ApiError::StorageError),
            },
            Aggregation::Reading { review } => match answer {
                StoreAnswer::Reviews(all) => {
                    let rating = Mean::of(&all);
                    match ItemKind::parse(review.item_type.as_str()) {
                        None => finish(review, Publication::UnknownKind),
                        Some(kind) => match ObjectId::parse_str(review.item_id.as_str()) {
                            Ok(id) => AggregationStep::Ask {
                                state: Aggregation::Publishing { review, rating },
                                request: StoreRequest::SetRating { kind, id, rating },
                            },
                            Err(_) => finish(review, Publication::MalformedTarget),
                        },
                    }
                },
                _ => finish(review, Publication::ReadFailed),
            },
            Aggregation::Publishing { review, rating } => match answer {
                StoreAnswer::Updated => finish(review, Publication::Written(rating)),
                _ => finish(review, Publication::WriteFailed(rating)),
            },
        }
    }
}

} // verus!
