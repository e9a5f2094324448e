//! The mean of review ratings.
//!
//! A mean is kept as the exact quotient of the sum of the ratings by their
//! number, so that nothing is lost before the value leaves the library.

use crate::models::{Review, ReviewView};
use vstd::prelude::*;

verus! {

/// The quotient `sum / count`. With no ratings both are zero and the quotient
/// is not a number.
#[derive(Debug, Clone, Copy, PartialEq, Eq)]
pub struct Mean {
    pub sum: i128,
    pub count: usize,
}

/// The view of [`Mean`].
pub struct MeanView {
    pub sum: int,
    pub count: nat,
}

impl View for Mean {
    type V = MeanView;

    open spec fn view(&self) -> MeanView {
        MeanView { sum: self.sum as int, count: self.count as nat }
    }
}

impl MeanView {
    /// Whether the quotient is a number and equals the whole number `n`.
    pub open spec fn is_exactly(self, n: int) -> bool {
        self.count > 0 && self.sum == n * self.count
    }
}

/// Whether `review` is about the item `item_id` of kind `item_type`.
pub open spec fn is_about(review: ReviewView, item_id: Seq<char>, item_type: Seq<char>) -> bool {
    review.item_id == item_id && review.item_type == item_type
}

/// The reviews among `all` that are about one item, in their order.
pub open spec fn reviews_of(all: Seq<ReviewView>, item_id: Seq<char>, item_type: Seq<char>) -> Seq<
    ReviewView,
> {
    all.filter(|r: ReviewView| is_about(r, item_id, item_type))
}

/// The sum of the ratings of `reviews`.
pub open spec fn rating_total(reviews: Seq<ReviewView>) -> int
    decreases reviews.len(),
{
    if reviews.len() == 0 {
        0
    } else {
        rating_total(reviews.drop_last()) + reviews.last().rating
    }
}

/// The unweighted mean of the ratings of `reviews`.
pub open spec fn mean_of(reviews: Seq<ReviewView>) -> MeanView {
    MeanView { sum: rating_total(reviews), count: reviews.len() }
}

/// A review that is added comes last among the reviews of its item and is
/// not among those of any other.
pub proof fn lemma_reviews_of_push(
    all: Seq<ReviewView>,
    review: ReviewView,
    item_id: Seq<char>,
    item_type: Seq<char>,
)
    ensures
        reviews_of(all.push(review), item_id, item_type) == if is_about(
            review,
            item_id,
            item_type,
        ) {
            reviews_of(all, item_id, item_type).push(review)
        } else {
            reviews_of(all, item_id, item_type)
        },
{
    reveal(Seq::filter);
    assert(all.push(review).drop_last() =~= all);
}

impl MeanView {
    /// Whether the quotient is a number that is at least `low` and at most
    /// `high`.
    pub open spec fn is_within(self, low: int, high: int) -> bool {
        self.count > 0 && low * self.count <= self.sum <= high * self.count
    }
}

/// The mean of ratings lies between the least and the greatest of them: where
/// every rating is at least `low` and at most `high`, so is their mean.
pub proof fn lemma_mean_within_ratings(reviews: Seq<ReviewView>, low: int, high: int)
    requires
        reviews.len() > 0,
        forall|i: int| 0 <= i < reviews.len() ==> low <= (#[trigger] reviews[i]).rating <= high,
    ensures
        mean_of(reviews).is_within(low, high),
    decreases reviews.len(),
{
    let rest = reviews.drop_last();
    let n = rest.len() as int;
    let last = reviews[n];
    assert(low <= last.rating <= high);
    assert(rating_total(reviews) == rating_total(rest) + last.rating);
    if n > 0 {
        assert(forall|i: int| 0 <= i < rest.len() ==> rest[i] == reviews[i]);
        lemma_mean_within_ratings(rest, low, high);
    } else {
        assert(rating_total(rest) == 0);
    }
    assert(low * (n + 1) == low * n + low && high * (n + 1) == high * n + high
        && (n == 0 ==> low * n == 0 && high * n == 0)) by (nonlinear_arith);
}

/// Taking one more review adds its rating to the total.
proof fn lemma_total_step(reviews: Seq<ReviewView>, n: int)
    requires
        0 <= n < reviews.len(),
    ensures
        rating_total(reviews.take(n + 1)) == rating_total(reviews.take(n)) + reviews[n].rating,
{
    assert(reviews.take(n + 1).drop_last() =~= reviews.take(n));
}

impl Mean {
    /// The mean of the ratings of `reviews`.
    pub fn of(reviews: &Vec<Review>) -> (mean: Mean)
        ensures
            mean@ == mean_of(reviews.deep_view()),
    {
        let ghost all: Seq<ReviewView> = reviews.deep_view();
        let mut sum: i128 = 0;
        let mut i: usize = 0;
        while i < reviews.len()
            invariant
                i <= reviews.len(),
                all == reviews.deep_view(),
                sum == rating_total(all.take(i as int)),
                -(i as int) * 0x8000_0000 <= sum <= (i as int) * 0x8000_0000,
            decreases reviews.len() - i,
        {
            proof {
                lemma_total_step(all, i as int);
            }
            sum = sum + reviews[i].rating as i128;
            i = i + 1;
        }
        proof {
            assert(all.take(i as int) =~= all);
        }
        Mean { sum, count: reviews.len() }
    }
}

} // verus!
