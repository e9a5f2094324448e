//! A model of the store, as far as settlement and aggregation read and write
//! it, and of what it may answer.
//!
//! The model is mathematics: it exists to state what the two operations
//! guarantee. It knows the prices, file locations, download counters and
//! ratings of products, the ratings of services, and the purchases and
//! reviews in the order in which they were recorded. An operation on one
//! document either fails and changes nothing, or is carried out whole.

use crate::aggregation::AggregationStepView;
use crate::models::{Double, ProductView, PurchaseView, ReviewView};
use crate::rating::{reviews_of, MeanView};
use crate::settlement::SettlementStepView;
use crate::store::{ItemKind, StoreAnswerView, StoreRequestView};
use vstd::prelude::*;

verus! {

/// What the model knows of a product.
pub struct ProductEntry {
    pub price: Double,
    pub file_url: Seq<char>,
    pub downloads: int,
    pub rating: Option<MeanView>,
}

/// What the model knows of a service.
pub struct ServiceEntry {
    pub rating: Option<MeanView>,
}

/// The state of the store.
pub struct StoreModel {
    /// The products, by id.
    pub products: Map<Seq<u8>, ProductEntry>,
    /// The services, by id.
    pub services: Map<Seq<u8>, ServiceEntry>,
    /// The purchases, oldest first.
    pub purchases: Seq<PurchaseView>,
    /// The reviews, oldest first.
    pub reviews: Seq<ReviewView>,
}

/// Whether `stored` is the purchase `sent` as the store keeps it: the same
/// record, with the id that the store gave it.
pub open spec fn purchase_kept_as(sent: PurchaseView, stored: PurchaseView) -> bool {
    stored.id is Some && stored == (PurchaseView { id: stored.id, ..sent })
}

/// Whether `stored` is the review `sent` as the store keeps it: the same
/// record, with the id that the store gave it.
pub open spec fn review_kept_as(sent: ReviewView, stored: ReviewView) -> bool {
    stored.id is Some && stored == (ReviewView { id: stored.id, ..sent })
}

/// Whether `list` holds `all`, newest first.
pub open spec fn is_newest_first(list: Seq<ReviewView>, all: Seq<ReviewView>) -> bool {
    &&& list.to_multiset() == all.to_multiset()
    &&& forall|i: int, j: int|
        0 <= i < j < list.len() ==> (#[trigger] list[i]).created_at
            >= (#[trigger] list[j]).created_at
}

impl StoreModel {
    /// Whether the store holds the item `id` of kind `kind`.
    pub open spec fn has_item(self, kind: ItemKind, id: Seq<u8>) -> bool {
        match kind {
            ItemKind::Service => self.services.contains_key(id),
            ItemKind::Product => self.products.contains_key(id),
        }
    }

    /// The published rating of an item; none when the item is missing or was
    /// never rated.
    pub open spec fn rating(self, kind: ItemKind, id: Seq<u8>) -> Option<MeanView> {
        if !self.has_item(kind, id) {
            None
        } else {
            match kind {
                ItemKind::Service => self.services[id].rating,
                ItemKind::Product => self.products[id].rating,
            }
        }
    }

    /// The download counter of a product; zero when the product is missing.
    pub open spec fn downloads(self, id: Seq<u8>) -> int {
        if self.products.contains_key(id) {
            self.products[id].downloads
        } else {
            0
        }
    }

    /// The store after `purchase` was added.
    pub open spec fn with_purchase(self, purchase: PurchaseView) -> StoreModel {
        StoreModel { purchases: self.purchases.push(purchase), ..self }
    }

    /// The store after `review` was added.
    pub open spec fn with_review(self, review: ReviewView) -> StoreModel {
        StoreModel { reviews: self.reviews.push(review), ..self }
    }

    /// The store after the download counter of the product `id` was raised by
    /// one. A product that is missing is not made.
    pub open spec fn with_download(self, id: Seq<u8>) -> StoreModel {
        if self.products.contains_key(id) {
            let entry = self.products[id];
            StoreModel {
                products: self.products.insert(
                    id,
                    ProductEntry { downloads: entry.downloads + 1, ..entry },
                ),
                ..self
            }
        } else {
            self
        }
    }

    /// The store after `rating` was written to the item `id` of kind `kind`.
    /// The value replaces the one that was there. An item that is missing is
    /// not made.
    pub open spec fn with_rating(
        self,
        kind: ItemKind,
        id: Seq<u8>,
        rating: MeanView,
    ) -> StoreModel {
        if !self.has_item(kind, id) {
            self
        } else {
            match kind {
                ItemKind::Service => StoreModel {
                    services: self.services.insert(id, ServiceEntry { rating: Some(rating) }),
                    ..self
                },
                ItemKind::Product => StoreModel {
                    products: self.products.insert(
                        id,
                        ProductEntry { rating: Some(rating), ..self.products[id] },
                    ),
                    ..self
                },
            }
        }
    }

    /// Whether `found` is what a lookup of the product `id` may return.
    pub open spec fn shows_product(self, id: Seq<u8>, found: Option<ProductView>) -> bool {
        match found {
            None => !self.products.contains_key(id),
            Some(product) => {
                &&& self.products.contains_key(id)
                &&& product.price == self.products[id].price
                &&& product.file_url == self.products[id].file_url
            },
        }
    }

    /// Whether the store, being in state `self`, may answer `answer` to
    /// `request` and then be in state `after`.
    ///
    /// The requests of settlement and aggregation are modelled; of the others
    /// nothing is said. A request that fails leaves the store as it was.
    pub open spec fn answers(
        self,
        request: StoreRequestView,
        answer: StoreAnswerView,
        after: StoreModel,
    ) -> bool {
        match request {
            StoreRequestView::FindProduct { id } => {
                &&& after == self
                &&& answer matches StoreAnswerView::Product(found) ==> self.shows_product(id, found)
                &&& answer is Product || answer is Failed
            },
            StoreRequestView::InsertPurchase { purchase } => {
                ||| answer is Failed && after == self
                ||| {
                    &&& answer is Inserted
                    &&& exists|stored: PurchaseView|
                        purchase_kept_as(purchase, stored) && after
                            == #[trigger] self.with_purchase(stored)
                }
            },
            StoreRequestView::IncrementDownloads { product } => {
                ||| answer is Failed && after == self
                ||| answer is Updated && after == self.with_download(product)
            },
            StoreRequestView::InsertReview { review } => {
                ||| answer is Failed && after == self
                ||| {
                    &&& answer is Inserted
                    &&& exists|stored: ReviewView|
                        review_kept_as(review, stored) && after
                            == #[trigger] self.with_review(stored)
                }
            },
            StoreRequestView::FindReviews { item_id, item_type, newest_first } => {
                &&& after == self
                &&& answer is Reviews || answer is Failed
                &&& answer matches StoreAnswerView::Reviews(list) ==> if newest_first {
                    is_newest_first(list, reviews_of(self.reviews, item_id, item_type))
                } else {
                    list == reviews_of(self.reviews, item_id, item_type)
                }
            },
            StoreRequestView::SetRating { kind, id, rating } => {
                ||| answer is Failed && after == self
                ||| answer is Updated && after == self.with_rating(kind, id, rating)
            },
            _ => true,
        }
    }
}

/// Whether the model says what the store does on `request`.
pub open spec fn is_modelled(request: StoreRequestView) -> bool {
    ||| request is FindProduct
    ||| request is InsertPurchase
    ||| request is IncrementDownloads
    ||| request is InsertReview
    ||| request is FindReviews
    ||| request is SetRating
}

/// One exchange with the store: the answer it gave, the state it was in
/// afterwards, and the time at which the answer came.
pub struct Exchange {
    pub answer: StoreAnswerView,
    pub after: StoreModel,
    pub now: i64,
}

/// An operation that has run against the store.
pub struct Run<Step> {
    /// The step at which the operation stands.
    pub step: Step,
    /// The state of the store.
    pub store: StoreModel,
    /// The requests that the operation made, in their order.
    pub asked: Seq<StoreRequestView>,
}

/// A settlement that stands at `step`, with the store in state `store`, runs
/// along `trace`: each exchange answers the request that the settlement waits
/// on. The result is where it then stands, or nothing when `trace` is no run
/// of it: the store cannot give one of the answers, or an exchange follows
/// the end of the settlement.
pub open spec fn settlement_run(
    step: SettlementStepView,
    store: StoreModel,
    trace: Seq<Exchange>,
) -> Option<Run<SettlementStepView>>
    decreases trace.len(),
{
    if trace.len() == 0 {
        Some(Run { step, store, asked: Seq::empty() })
    } else {
        match step {
            SettlementStepView::Ask { state, request } => {
                let first = trace[0];
                if store.answers(request, first.answer, first.after) {
                    match settlement_run(
                        state.resume(first.answer, first.now),
                        first.after,
                        trace.drop_first(),
                    ) {
                        Some(rest) => Some(Run { asked: seq![request] + rest.asked, ..rest }),
                        None => None,
                    }
                } else {
                    None
                }
            },
            _ => None,
        }
    }
}

/// The step that follows `step` on the exchange `x`. A settlement that is over
/// stays where it is.
pub open spec fn settlement_after(step: SettlementStepView, x: Exchange) -> SettlementStepView {
    match step {
        SettlementStepView::Ask { state, .. } => state.resume(x.answer, x.now),
        _ => step,
    }
}

/// The step at which a settlement that started at `start` stands after the
/// first `k` exchanges of `trace`, for `k` up to three: a settlement makes no
/// more.
pub open spec fn settlement_stage(
    start: SettlementStepView,
    trace: Seq<Exchange>,
    k: int,
) -> SettlementStepView {
    if k <= 0 {
        start
    } else if k == 1 {
        settlement_after(start, trace[0])
    } else if k == 2 {
        settlement_after(settlement_after(start, trace[0]), trace[1])
    } else {
        settlement_after(settlement_after(settlement_after(start, trace[0]), trace[1]), trace[2])
    }
}

/// The state of the store after the first `k` exchanges of `trace`, having
/// been `store` before the first.
pub open spec fn store_after(store: StoreModel, trace: Seq<Exchange>, k: int) -> StoreModel {
    if k <= 0 {
        store
    } else {
        trace[k - 1].after
    }
}

/// Whether exchange `k` of `trace` answers the request that the settlement
/// then waits on.
pub open spec fn settlement_exchange(
    start: SettlementStepView,
    store: StoreModel,
    trace: Seq<Exchange>,
    k: int,
) -> bool {
    settlement_stage(start, trace, k) matches SettlementStepView::Ask { request, .. }
        && store_after(store, trace, k).answers(request, trace[k].answer, trace[k].after)
}

/// An aggregation that stands at `step`, with the store in state `store`,
/// runs along `trace`. See [`settlement_run`].
pub open spec fn aggregation_run(
    step: AggregationStepView,
    store: StoreModel,
    trace: Seq<Exchange>,
) -> Option<Run<AggregationStepView>>
    decreases trace.len(),
{
    if trace.len() == 0 {
        Some(Run { step, store, asked: Seq::empty() })
    } else {
        match step {
            AggregationStepView::Ask { state, request } => {
                let first = trace[0];
                if store.answers(request, first.answer, first.after) {
                    match aggregation_run(
                        state.resume(first.answer),
                        first.after,
                        trace.drop_first(),
                    ) {
                        Some(rest) => Some(Run { asked: seq![request] + rest.asked, ..rest }),
                        None => None,
                    }
                } else {
                    None
                }
            },
            _ => None,
        }
    }
}

/// The step that follows `step` on the exchange `x`. An aggregation that is
/// over stays where it is.
pub open spec fn aggregation_after(step: AggregationStepView, x: Exchange) -> AggregationStepView {
    match step {
        AggregationStepView::Ask { state, .. } => state.resume(x.answer),
        _ => step,
    }
}

/// The step at which an aggregation that started at `start` stands after the
/// first `k` exchanges of `trace`, for `k` up to three: an aggregation makes
/// no more.
pub open spec fn aggregation_stage(
    start: AggregationStepView,
    trace: Seq<Exchange>,
    k: int,
) -> AggregationStepView {
    if k <= 0 {
        start
    } else if k == 1 {
        aggregation_after(start, trace[0])
    } else if k == 2 {
        aggregation_after(aggregation_after(start, trace[0]), trace[1])
    } else {
        aggregation_after(
            aggregation_after(aggregation_after(start, trace[0]), trace[1]),
            trace[2],
        )
    }
}

/// Whether exchange `k` of `trace` answers the request that the aggregation
/// then waits on.
pub open spec fn aggregation_exchange(
    start: AggregationStepView,
    store: StoreModel,
    trace: Seq<Exchange>,
    k: int,
) -> bool {
    aggregation_stage(start, trace, k) matches AggregationStepView::Ask { request, .. }
        && store_after(store, trace, k).answers(request, trace[k].answer, trace[k].after)
}

/// One exchange of one of two operations that run side by side.
pub struct Turn {
    /// Whether the exchange is the second operation's.
    pub second: bool,
    pub exchange: Exchange,
}

/// Two aggregations that run side by side against one store.
pub struct PairRun {
    pub first: AggregationStepView,
    pub second: AggregationStepView,
    pub store: StoreModel,
}

/// The answer that the store gave to the first request of one of the two
/// operations, the second if so asked, along `trace`; nothing if it made no
/// request.
pub open spec fn first_answer_to(trace: Seq<Turn>, second: bool) -> Option<StoreAnswerView>
    decreases trace.len(),
{
    if trace.len() == 0 {
        None
    } else if trace[0].second == second {
        Some(trace[0].exchange.answer)
    } else {
        first_answer_to(trace.drop_first(), second)
    }
}

/// Whether `answer`, the answer to an insertion if there is one, says that
/// the store took the record.
pub open spec fn is_taken(answer: Option<StoreAnswerView>) -> bool {
    answer == Some(StoreAnswerView::Inserted)
}

/// Whether `answer`, the answer to an insertion if there is one, says that
/// the store did not take the record.
pub open spec fn is_refused(answer: Option<StoreAnswerView>) -> bool {
    answer is Some && !is_taken(answer)
}

/// Two aggregations that stand at `first` and `second` run side by side along
/// `trace`, their exchanges in any order. The result is where they then
/// stand, or nothing when `trace` is no run of the two.
pub open spec fn interleaved_run(
    first: AggregationStepView,
    second: AggregationStepView,
    store: StoreModel,
    trace: Seq<Turn>,
) -> Option<PairRun>
    decreases trace.len(),
{
    if trace.len() == 0 {
        Some(PairRun { first, second, store })
    } else {
        let turn = trace[0];
        let x = turn.exchange;
        match (if turn.second { second } else { first }) {
            AggregationStepView::Ask { state, request } => {
                if store.answers(request, x.answer, x.after) {
                    let next = state.resume(x.answer);
                    if turn.second {
                        interleaved_run(first, next, x.after, trace.drop_first())
                    } else {
                        interleaved_run(next, second, x.after, trace.drop_first())
                    }
                } else {
                    None
                }
            },
            _ => None,
        }
    }
}

} // verus!
