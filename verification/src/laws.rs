//! What settlement and aggregation guarantee, whatever the store answers.
//!
//! Each law speaks of runs of an operation against the model of the store:
//! of every sequence of answers that the store can give, failures included.

use crate::aggregation::{
    submission, AggregationStepView, AggregationView, PublicationView, ReviewedView,
};
use crate::error::ApiError;
use crate::model::{
    aggregation_exchange, aggregation_run, aggregation_stage, first_answer_to, interleaved_run,
    is_modelled, is_refused, is_taken,
    purchase_kept_as, review_kept_as, settlement_exchange, settlement_run, settlement_stage,
    store_after, Exchange, PairRun, Run, StoreModel, Turn,
};
use crate::models::{PurchaseView, ReviewView};
use crate::oid::{is_object_id_text, object_id_bytes};
use crate::rating::{
    is_about, lemma_mean_within_ratings, lemma_reviews_of_push, mean_of, reviews_of, MeanView,
};
use crate::settlement::{settlement, SettledView, SettlementStepView};
use crate::store::{item_kind_of, ItemKind, StoreAnswerView, StoreRequestView};
use vstd::prelude::*;

verus! {

/// A run of a settlement from its start, exchange by exchange: it makes at
/// most three, each answers the request that the settlement then waits on,
/// and the run ends at the step and in the state that the last one leaves.
proof fn lemma_settlement_unrolls(
    buyer_id: Seq<char>,
    product_id: Seq<char>,
    payment_method: Seq<char>,
    store: StoreModel,
    trace: Seq<Exchange>,
    run: Run<SettlementStepView>,
)
    requires
        settlement_run(settlement(buyer_id, product_id, payment_method), store, trace) == Some(
            run,
        ),
    ensures
        trace.len() <= 3,
        trace.len() >= 1 ==> settlement_exchange(
            settlement(buyer_id, product_id, payment_method),
            store,
            trace,
            0,
        ),
        trace.len() >= 2 ==> settlement_exchange(
            settlement(buyer_id, product_id, payment_method),
            store,
            trace,
            1,
        ),
        trace.len() >= 3 ==> settlement_exchange(
            settlement(buyer_id, product_id, payment_method),
            store,
            trace,
            2,
        ),
        run.step == settlement_stage(
            settlement(buyer_id, product_id, payment_method),
            trace,
            trace.len() as int,
        ),
        run.store == store_after(store, trace, trace.len() as int),
        run.asked == Seq::new(
            trace.len(),
            |k: int|
                settlement_stage(
                    settlement(buyer_id, product_id, payment_method),
                    trace,
                    k,
                )->request,
        ),
{
    reveal_with_fuel(settlement_run, 5);
    let start = settlement(buyer_id, product_id, payment_method);
    let asked = Seq::new(trace.len(), |k: int| settlement_stage(start, trace, k)->request);
    if trace.len() > 0 {
        let t1 = trace.drop_first();
        let s1 = settlement_stage(start, trace, 1);
        assert(settlement_run(s1, trace[0].after, t1) is Some);
        if t1.len() > 0 {
            let t2 = t1.drop_first();
            let s2 = settlement_stage(start, trace, 2);
            assert(settlement_run(s2, t1[0].after, t2) is Some);
            if t2.len() > 0 {
                let t3 = t2.drop_first();
                let s3 = settlement_stage(start, trace, 3);
                assert(settlement_run(s3, t2[0].after, t3) is Some);
                assert(t3.len() == 0);
            }
        }
    }
    assert(run.asked =~= asked);
}

/// A run of an aggregation from its start, exchange by exchange: it makes at
/// most three, each answers the request that the aggregation then waits on,
/// and the run ends at the step and in the state that the last one leaves.
proof fn lemma_aggregation_unrolls(
    review: ReviewView,
    store: StoreModel,
    trace: Seq<Exchange>,
    run: Run<AggregationStepView>,
)
    requires
        aggregation_run(submission(review), store, trace) == Some(run),
    ensures
        trace.len() <= 3,
        trace.len() >= 1 ==> aggregation_exchange(submission(review), store, trace, 0),
        trace.len() >= 2 ==> aggregation_exchange(submission(review), store, trace, 1),
        trace.len() >= 3 ==> aggregation_exchange(submission(review), store, trace, 2),
        run.step == aggregation_stage(submission(review), trace, trace.len() as int),
        run.store == store_after(store, trace, trace.len() as int),
        run.asked == Seq::new(
            trace.len(),
            |k: int| aggregation_stage(submission(review), trace, k)->request,
        ),
{
    reveal_with_fuel(aggregation_run, 5);
    let start = submission(review);
    let asked = Seq::new(trace.len(), |k: int| aggregation_stage(start, trace, k)->request);
    if trace.len() > 0 {
        let t1 = trace.drop_first();
        let s1 = aggregation_stage(start, trace, 1);
        assert(aggregation_run(s1, trace[0].after, t1) is Some);
        if t1.len() > 0 {
            let t2 = t1.drop_first();
            let s2 = aggregation_stage(start, trace, 2);
            assert(aggregation_run(s2, t1[0].after, t2) is Some);
            if t2.len() > 0 {
                let t3 = t2.drop_first();
                let s3 = aggregation_stage(start, trace, 3);
                assert(aggregation_run(s3, t2[0].after, t3) is Some);
                assert(t3.len() == 0);
            }
        }
    }
    assert(run.asked =~= asked);
}

/// A successful settlement copies the price and the file location that the
/// product had when it was looked up, which is when the settlement began,
/// and adds exactly that purchase to the store.
pub proof fn law_purchase_copies_price_at_call(
    buyer_id: Seq<char>,
    product_id: Seq<char>,
    payment_method: Seq<char>,
    store: StoreModel,
    trace: Seq<Exchange>,
    settled: SettledView,
)
    requires
        settlement_run(settlement(buyer_id, product_id, payment_method), store, trace) matches Some(
            run,
        ) && run.step == SettlementStepView::Done(settled),
    ensures
        is_object_id_text(product_id),
        store.products.contains_key(object_id_bytes(product_id)),
        settled.purchase.amount == store.products[object_id_bytes(product_id)].price,
        settled.purchase.download_url == store.products[object_id_bytes(product_id)].file_url,
        settled.purchase.customer_id == buyer_id,
        settled.purchase.product_id == product_id,
        settled.purchase.payment_method == payment_method,
        settled.purchase.status == "completed"@,
        exists|stored: PurchaseView|
            purchase_kept_as(settled.purchase, stored) && settlement_run(
                settlement(buyer_id, product_id, payment_method),
                store,
                trace,
            ).unwrap().store.purchases == #[trigger] store.purchases.push(stored),
{
    let start = settlement(buyer_id, product_id, payment_method);
    let run = settlement_run(start, store, trace).unwrap();
    lemma_settlement_unrolls(buyer_id, product_id, payment_method, store, trace, run);
    let stored = choose|stored: PurchaseView|
        purchase_kept_as(settled.purchase, stored) && trace[1].after == store.with_purchase(stored);
    assert(run.store.purchases == store.purchases.push(stored));
}

/// A purchase that the store holds is never revised: whatever settlement or
/// aggregation asks of the store afterwards, and so whatever becomes of the
/// product, the purchase stays as it was recorded.
pub proof fn law_recorded_purchases_stay(
    before: StoreModel,
    request: StoreRequestView,
    answer: StoreAnswerView,
    after: StoreModel,
    i: int,
)
    requires
        is_modelled(request),
        before.answers(request, answer, after),
        0 <= i < before.purchases.len(),
    ensures
        i < after.purchases.len(),
        after.purchases[i] == before.purchases[i],
{
}

/// A settlement for a product that the store does not hold, or whose id is
/// not an object id, asks for no purchase to be recorded and leaves the store
/// as it was. It ends with `InvalidReference` where the id is not an object
/// id, with `NotFound` where the store answered the lookup, and with a
/// storage error where it did not.
pub proof fn law_missing_product_records_nothing(
    buyer_id: Seq<char>,
    product_id: Seq<char>,
    payment_method: Seq<char>,
    store: StoreModel,
    trace: Seq<Exchange>,
    run: Run<SettlementStepView>,
)
    requires
        is_object_id_text(product_id) ==> !store.products.contains_key(
            object_id_bytes(product_id),
        ),
        settlement_run(settlement(buyer_id, product_id, payment_method), store, trace) == Some(
            run,
        ),
    ensures
        run.store == store,
        forall|i: int| 0 <= i < run.asked.len() ==> !(#[trigger] run.asked[i] is InsertPurchase),
        !(run.step is Ask) ==> run.step == SettlementStepView::Failed(
            if !is_object_id_text(product_id) {
                ApiError::InvalidReference
            } else if trace[0].answer is Product {
                ApiError::NotFound
            } else {
                ApiError::StorageError
            },
        ),
{
    lemma_settlement_unrolls(buyer_id, product_id, payment_method, store, trace, run);
}

/// The download counter never runs ahead of the purchases: along every run of
/// a settlement, complete or not, the counter of any product rises by at most
/// the number of purchases recorded, and at most one purchase is recorded.
/// A counter is raised only after the store has taken the purchase.
pub proof fn law_counter_never_leads(
    buyer_id: Seq<char>,
    product_id: Seq<char>,
    payment_method: Seq<char>,
    store: StoreModel,
    trace: Seq<Exchange>,
    run: Run<SettlementStepView>,
    product: Seq<u8>,
)
    requires
        settlement_run(settlement(buyer_id, product_id, payment_method), store, trace) == Some(
            run,
        ),
    ensures
        0 <= run.store.downloads(product) - store.downloads(product) <= run.store.purchases.len()
            - store.purchases.len() <= 1,
{
    lemma_settlement_unrolls(buyer_id, product_id, payment_method, store, trace, run);
}

/// A settlement that succeeds has raised the download counter of its product
/// by one if it reports the purchase as counted, and has left it as it was if
/// not. The counters of all other products are as they were.
pub proof fn law_counted_purchase_raises_counter(
    buyer_id: Seq<char>,
    product_id: Seq<char>,
    payment_method: Seq<char>,
    store: StoreModel,
    trace: Seq<Exchange>,
    run: Run<SettlementStepView>,
    settled: SettledView,
    other: Seq<u8>,
)
    requires
        settlement_run(settlement(buyer_id, product_id, payment_method), store, trace) == Some(
            run,
        ),
        run.step == SettlementStepView::Done(settled),
        other != object_id_bytes(product_id),
    ensures
        run.store.downloads(object_id_bytes(product_id)) == store.downloads(
            object_id_bytes(product_id),
        ) + if settled.counted {
            1int
        } else {
            0int
        },
        run.store.downloads(other) == store.downloads(other),
{
    lemma_settlement_unrolls(buyer_id, product_id, payment_method, store, trace, run);
}

/// A settlement that ends in failure has changed nothing: no purchase is
/// recorded and no counter is raised.
pub proof fn law_failed_settlement_changes_nothing(
    buyer_id: Seq<char>,
    product_id: Seq<char>,
    payment_method: Seq<char>,
    store: StoreModel,
    trace: Seq<Exchange>,
    run: Run<SettlementStepView>,
)
    requires
        settlement_run(settlement(buyer_id, product_id, payment_method), store, trace) == Some(
            run,
        ),
        run.step is Failed,
    ensures
        run.store == store,
        forall|i: int|
            0 <= i < run.asked.len() ==> !(#[trigger] run.asked[i] is IncrementDownloads),
{
    lemma_settlement_unrolls(buyer_id, product_id, payment_method, store, trace, run);
}

/// An aggregation fails only when the store does not take the review, and
/// then with a storage error. It has then asked for nothing else and changed
/// nothing: no review is recorded and no rating is written.
pub proof fn law_failed_aggregation_changes_nothing(
    review: ReviewView,
    store: StoreModel,
    trace: Seq<Exchange>,
    run: Run<AggregationStepView>,
)
    requires
        aggregation_run(submission(review), store, trace) == Some(run),
        run.step is Failed,
    ensures
        run.step == AggregationStepView::Failed(ApiError::StorageError),
        run.store == store,
        run.asked == seq![StoreRequestView::InsertReview { review }],
{
    lemma_aggregation_unrolls(review, store, trace, run);
    assert(run.asked =~= seq![StoreRequestView::InsertReview { review }]);
}

/// Whenever an aggregation reports that it wrote a mean, that mean is the
/// mean of all the reviews of the target that the store then holds, the new
/// one among them, whatever rating the target had before. The target's tag
/// names a kind, its id is an object id, and if the store holds the target
/// its rating is that mean. By `law_seen_mean_lies_between_ratings` the mean
/// lies between the least and the greatest of the ratings.
pub proof fn law_written_rating_is_mean_of_all_reviews(
    review: ReviewView,
    store: StoreModel,
    trace: Seq<Exchange>,
    run: Run<AggregationStepView>,
    rating: MeanView,
)
    requires
        aggregation_run(submission(review), store, trace) == Some(run),
        run.step matches AggregationStepView::Done(reviewed) && reviewed.publication
            == PublicationView::Written(rating),
    ensures
        rating == mean_of(reviews_of(run.store.reviews, review.item_id, review.item_type)),
        rating.count >= 1,
        is_object_id_text(review.item_id),
        item_kind_of(review.item_type) matches Some(kind) && (run.store.has_item(
            kind,
            object_id_bytes(review.item_id),
        ) ==> run.store.rating(kind, object_id_bytes(review.item_id)) == Some(rating)),
        exists|stored: ReviewView|
            review_kept_as(review, stored) && run.store.reviews == #[trigger] store.reviews.push(
                stored,
            ),
        is_mean_over(rating, review, run.store.reviews),
{
    lemma_aggregation_unrolls(review, store, trace, run);
    let stored = choose|stored: ReviewView|
        review_kept_as(review, stored) && trace[0].after == store.with_review(stored);
    lemma_reviews_of_push(store.reviews, stored, review.item_id, review.item_type);
    assert(run.store.reviews == store.reviews.push(stored));
    assert(review_kept_as(review, run.store.reviews[store.reviews.len() as int]));
}

/// After a review with rating `r` of a target that had no review, an
/// aggregation that reports a written mean has written exactly `r`.
pub proof fn law_first_review_sets_rating(
    review: ReviewView,
    store: StoreModel,
    trace: Seq<Exchange>,
    run: Run<AggregationStepView>,
    rating: MeanView,
)
    requires
        reviews_of(store.reviews, review.item_id, review.item_type).len() == 0,
        aggregation_run(submission(review), store, trace) == Some(run),
        run.step matches AggregationStepView::Done(reviewed) && reviewed.publication
            == PublicationView::Written(rating),
    ensures
        rating == (MeanView { sum: review.rating as int, count: 1 }),
        rating.is_exactly(review.rating as int),
        item_kind_of(review.item_type) matches Some(kind) && (run.store.has_item(
            kind,
            object_id_bytes(review.item_id),
        ) ==> run.store.rating(kind, object_id_bytes(review.item_id)) == Some(rating)),
{
    law_written_rating_is_mean_of_all_reviews(review, store, trace, run, rating);
    let stored = choose|stored: ReviewView|
        review_kept_as(review, stored) && run.store.reviews == store.reviews.push(stored);
    lemma_reviews_of_push(store.reviews, stored, review.item_id, review.item_type);
    let mine = reviews_of(run.store.reviews, review.item_id, review.item_type);
    assert(mine =~= seq![stored]);
    assert(mine.drop_last() =~= Seq::<ReviewView>::empty());
    reveal_with_fuel(crate::rating::rating_total, 2);
}

/// A review whose tag names neither a service nor a product is handed to the
/// store like any other, and is recorded when the store takes it; but along
/// every run of its aggregation no rating is ever asked to be written, and
/// the products and services stay as they were.
pub proof fn law_unknown_kind_writes_no_rating(
    review: ReviewView,
    store: StoreModel,
    trace: Seq<Exchange>,
    run: Run<AggregationStepView>,
)
    requires
        item_kind_of(review.item_type) is None,
        aggregation_run(submission(review), store, trace) == Some(run),
    ensures
        forall|i: int| 0 <= i < run.asked.len() ==> !(#[trigger] run.asked[i] is SetRating),
        run.store.products == store.products,
        run.store.services == store.services,
        trace.len() >= 1 ==> run.asked.len() >= 1 && run.asked[0]
            == (StoreRequestView::InsertReview { review }),
        run.step matches AggregationStepView::Done(reviewed) ==> {
            &&& reviewed.review == review
            &&& reviewed.publication is UnknownKind || reviewed.publication is ReadFailed
            &&& exists|stored: ReviewView|
                review_kept_as(review, stored) && run.store.reviews
                    == #[trigger] store.reviews.push(stored)
        },
{
    lemma_aggregation_unrolls(review, store, trace, run);
    if trace.len() >= 2 {
        let stored = choose|stored: ReviewView|
            review_kept_as(review, stored) && trace[0].after == store.with_review(stored);
        assert(run.store.reviews == store.reviews.push(stored));
    }
}

/// Whether `mean` is the mean of the reviews of the target of `own` among
/// `seen`, and `own` as the store keeps it is one of them.
pub open spec fn is_mean_over(mean: MeanView, own: ReviewView, seen: Seq<ReviewView>) -> bool {
    &&& mean == mean_of(reviews_of(seen, own.item_id, own.item_type))
    &&& exists|i: int| 0 <= i < seen.len() && review_kept_as(own, #[trigger] seen[i])
}

/// Whether `mean` is the mean of what the aggregation of `own` saw of
/// `reviews` when it read them: the reviews that were recorded by then, its
/// own among them.
pub open spec fn is_mean_seen(mean: MeanView, own: ReviewView, reviews: Seq<ReviewView>) -> bool {
    exists|n: int| 0 <= n <= reviews.len() && is_mean_over(mean, own, #[trigger] reviews.take(n))
}

/// A mean over reviews of which one is about the target is a number.
proof fn lemma_mean_over_counts(mean: MeanView, own: ReviewView, seen: Seq<ReviewView>)
    requires
        is_mean_over(mean, own, seen),
    ensures
        mean.count >= 1,
{
    let i = choose|i: int| 0 <= i < seen.len() && review_kept_as(own, #[trigger] seen[i]);
    let about = |r: ReviewView| is_about(r, own.item_id, own.item_type);
    assert(about(seen[i]));
    seen.lemma_filter_contains(about, i);
}

/// Whether `step` is a step of the aggregation of `own` for the item `id` of
/// kind `kind`, waits on the request that its state calls for, and has seen
/// of `reviews` what its state says.
spec fn in_order(
    step: AggregationStepView,
    own: ReviewView,
    kind: ItemKind,
    id: Seq<u8>,
    reviews: Seq<ReviewView>,
) -> bool {
    &&& item_kind_of(own.item_type) == Some(kind)
    &&& is_object_id_text(own.item_id)
    &&& object_id_bytes(own.item_id) == id
    &&& match step {
        AggregationStepView::Ask { state, request } => match state {
            AggregationView::Inserting { review } => {
                &&& review == own
                &&& request == (StoreRequestView::InsertReview { review })
            },
            AggregationView::Reading { review } => {
                &&& review == own
                &&& request == (StoreRequestView::FindReviews {
                    item_id: own.item_id,
                    item_type: own.item_type,
                    newest_first: false,
                })
                &&& exists|i: int|
                    0 <= i < reviews.len() && review_kept_as(own, #[trigger] reviews[i])
            },
            AggregationView::Publishing { review, rating } => {
                &&& review == own
                &&& request == (StoreRequestView::SetRating { kind, id, rating })
                &&& is_mean_seen(rating, own, reviews)
            },
        },
        AggregationStepView::Done(reviewed) => {
            &&& reviewed.review == own
            &&& reviewed.publication matches PublicationView::Written(mean) ==> is_mean_seen(
                mean,
                own,
                reviews,
            )
        },
        AggregationStepView::Failed(_) => true,
    }
}

/// An exchange of an aggregation keeps it in order.
proof fn lemma_moves_in_order(
    step: AggregationStepView,
    own: ReviewView,
    kind: ItemKind,
    id: Seq<u8>,
    store: StoreModel,
    x: Exchange,
)
    requires
        in_order(step, own, kind, id, store.reviews),
        step matches AggregationStepView::Ask { request, .. } && store.answers(
            request,
            x.answer,
            x.after,
        ),
    ensures
        in_order(step->state.resume(x.answer), own, kind, id, x.after.reviews),
{
    let next = step->state.resume(x.answer);
    match step->state {
        AggregationView::Inserting { .. } => {
            if x.answer is Inserted {
                let stored = choose|stored: ReviewView|
                    review_kept_as(own, stored) && x.after == store.with_review(stored);
                let i = store.reviews.len() as int;
                assert(review_kept_as(own, x.after.reviews[i]));
            }
        },
        AggregationView::Reading { .. } => {
            if let StoreAnswerView::Reviews(all) = x.answer {
                let n = store.reviews.len() as int;
                assert(store.reviews.take(n) =~= store.reviews);
                assert(is_mean_over(mean_of(all), own, store.reviews.take(n)));
            }
        },
        AggregationView::Publishing { rating, .. } => {
            assert(x.after.reviews == store.reviews);
        },
    }
}

/// An exchange of another operation keeps an aggregation in order: reviews
/// are only ever added at the end.
proof fn lemma_stays_in_order(
    step: AggregationStepView,
    own: ReviewView,
    kind: ItemKind,
    id: Seq<u8>,
    store: StoreModel,
    request: StoreRequestView,
    x: Exchange,
)
    requires
        in_order(step, own, kind, id, store.reviews),
        is_modelled(request),
        store.answers(request, x.answer, x.after),
    ensures
        in_order(step, own, kind, id, x.after.reviews),
{
    assert(forall|i: int|
        0 <= i < store.reviews.len() ==> #[trigger] x.after.reviews[i] == store.reviews[i]);
    assert(store.reviews.len() <= x.after.reviews.len());
    if let Some(mean) = seen_by(step) {
        let n = choose|n: int|
            0 <= n <= store.reviews.len() && is_mean_over(
                mean,
                own,
                #[trigger] store.reviews.take(n),
            );
        assert(x.after.reviews.take(n) =~= store.reviews.take(n));
    }
    if step matches AggregationStepView::Ask { state: AggregationView::Reading { .. }, .. } {
        let i = choose|i: int|
            0 <= i < store.reviews.len() && review_kept_as(own, #[trigger] store.reviews[i]);
        assert(review_kept_as(own, x.after.reviews[i]));
    }
}

/// The mean that an aggregation has computed, once it has.
spec fn seen_by(step: AggregationStepView) -> Option<MeanView> {
    match step {
        AggregationStepView::Ask { state: AggregationView::Publishing { rating, .. }, .. } => Some(
            rating,
        ),
        AggregationStepView::Done(
            ReviewedView { publication: PublicationView::Written(mean), .. },
        ) => Some(mean),
        _ => None,
    }
}

/// What holds while two aggregations for one item run side by side: each is
/// in order; as long as neither has written, the item's rating is `before`,
/// the one it had; and as soon as one of them has written, it is a mean that
/// one of them wrote.
spec fn one_writer_wins(
    pair: PairRun,
    first: ReviewView,
    second: ReviewView,
    kind: ItemKind,
    id: Seq<u8>,
    before: Option<MeanView>,
) -> bool {
    &&& in_order(pair.first, first, kind, id, pair.store.reviews)
    &&& in_order(pair.second, second, kind, id, pair.store.reviews)
    &&& pair.store.has_item(kind, id)
    &&& pair.first.written() is None && pair.second.written() is None ==> pair.store.rating(
        kind,
        id,
    ) == before
    &&& pair.first.written() is Some || pair.second.written() is Some ==> {
        ||| pair.first.written() is Some && pair.store.rating(kind, id) == pair.first.written()
        ||| pair.second.written() is Some && pair.store.rating(kind, id) == pair.second.written()
    }
}

/// Every exchange of either aggregation keeps `one_writer_wins`.
proof fn lemma_one_writer_wins(
    a: AggregationStepView,
    b: AggregationStepView,
    store: StoreModel,
    trace: Seq<Turn>,
    first: ReviewView,
    second: ReviewView,
    kind: ItemKind,
    id: Seq<u8>,
    before: Option<MeanView>,
)
    requires
        one_writer_wins(PairRun { first: a, second: b, store }, first, second, kind, id, before),
        interleaved_run(a, b, store, trace) is Some,
    ensures
        one_writer_wins(
            interleaved_run(a, b, store, trace).unwrap(),
            first,
            second,
            kind,
            id,
            before,
        ),
    decreases trace.len(),
{
    if trace.len() > 0 {
        let turn = trace[0];
        let x = turn.exchange;
        if turn.second {
            let next = b->state.resume(x.answer);
            lemma_moves_in_order(b, second, kind, id, store, x);
            lemma_stays_in_order(a, first, kind, id, store, b->request, x);
            assert(one_writer_wins(
                PairRun { first: a, second: next, store: x.after },
                first,
                second,
                kind,
                id,
                before,
            ));
            lemma_one_writer_wins(
                a,
                next,
                x.after,
                trace.drop_first(),
                first,
                second,
                kind,
                id,
                before,
            );
        } else {
            let next = a->state.resume(x.answer);
            lemma_moves_in_order(a, first, kind, id, store, x);
            lemma_stays_in_order(b, second, kind, id, store, a->request, x);
            assert(one_writer_wins(
                PairRun { first: next, second: b, store: x.after },
                first,
                second,
                kind,
                id,
                before,
            ));
            lemma_one_writer_wins(
                next,
                b,
                x.after,
                trace.drop_first(),
                first,
                second,
                kind,
                id,
                before,
            );
        }
    }
}

/// Two aggregations for one item that run side by side, their exchanges with
/// the store in any order, leave the item with a mean that one of them
/// computed and wrote: the later write replaces the earlier, the two are
/// never merged, and nothing else is ever written. If neither wrote, the
/// item keeps the rating it had. Each mean that was written is a number: the
/// mean of the reviews of the target that were recorded when its aggregation
/// read them, its own review among them.
pub proof fn law_concurrent_reviews_settle_on_one_mean(
    first: ReviewView,
    second: ReviewView,
    store: StoreModel,
    trace: Seq<Turn>,
    end: PairRun,
    kind: ItemKind,
    id: Seq<u8>,
)
    requires
        item_kind_of(first.item_type) == Some(kind),
        item_kind_of(second.item_type) == Some(kind),
        is_object_id_text(first.item_id),
        is_object_id_text(second.item_id),
        object_id_bytes(first.item_id) == id,
        object_id_bytes(second.item_id) == id,
        store.has_item(kind, id),
        interleaved_run(submission(first), submission(second), store, trace) == Some(end),
    ensures
        end.store.has_item(kind, id),
        end.first.written() is None && end.second.written() is None ==> end.store.rating(kind, id)
            == store.rating(kind, id),
        end.first.written() is Some || end.second.written() is Some ==> {
            ||| end.first.written() is Some && end.store.rating(kind, id) == end.first.written()
            ||| end.second.written() is Some && end.store.rating(kind, id)
                == end.second.written()
        },
        end.first.written() matches Some(mean) ==> mean.count >= 1 && is_mean_seen(
            mean,
            first,
            end.store.reviews,
        ),
        end.second.written() matches Some(mean) ==> mean.count >= 1 && is_mean_seen(
            mean,
            second,
            end.store.reviews,
        ),
{
    lemma_one_writer_wins(
        submission(first),
        submission(second),
        store,
        trace,
        first,
        second,
        kind,
        id,
        store.rating(kind, id),
    );
    if let Some(mean) = end.first.written() {
        let n = choose|n: int|
            0 <= n <= end.store.reviews.len() && is_mean_over(
                mean,
                first,
                #[trigger] end.store.reviews.take(n),
            );
        lemma_mean_over_counts(mean, first, end.store.reviews.take(n));
    }
    if let Some(mean) = end.second.written() {
        let n = choose|n: int|
            0 <= n <= end.store.reviews.len() && is_mean_over(
                mean,
                second,
                #[trigger] end.store.reviews.take(n),
            );
        lemma_mean_over_counts(mean, second, end.store.reviews.take(n));
    }
}

/// The mean of what an aggregation saw lies between the least and the
/// greatest rating that it saw: where every review of the target among `seen`
/// rates it at least `low` and at most `high`, so does their mean, which is a
/// number.
pub proof fn law_seen_mean_lies_between_ratings(
    mean: MeanView,
    own: ReviewView,
    seen: Seq<ReviewView>,
    low: int,
    high: int,
)
    requires
        is_mean_over(mean, own, seen),
        forall|i: int|
            0 <= i < seen.len() && is_about(#[trigger] seen[i], own.item_id, own.item_type) ==> low
                <= seen[i].rating <= high,
    ensures
        mean.is_within(low, high),
{
    lemma_mean_over_counts(mean, own, seen);
    let about = |r: ReviewView| is_about(r, own.item_id, own.item_type);
    let read = reviews_of(seen, own.item_id, own.item_type);
    assert forall|j: int| 0 <= j < read.len() implies low <= (#[trigger] read[j]).rating
        <= high by {
        seen.lemma_filter_pred(about, j);
        seen.lemma_filter_contains_rev(about, read[j]);
        let i = choose|i: int| 0 <= i < seen.len() && seen[i] == read[j];
        assert(is_about(seen[i], own.item_id, own.item_type));
    }
    lemma_mean_within_ratings(read, low, high);
}

/// Whether the review of `step` is recorded: the aggregation has gone on past
/// the insertion.
spec fn is_past_insertion(step: AggregationStepView) -> bool {
    match step {
        AggregationStepView::Ask { state, .. } => !(state is Inserting),
        AggregationStepView::Done(_) => true,
        AggregationStepView::Failed(_) => false,
    }
}

/// How the end of one of two aggregations that run side by side follows from
/// where it stood and from the answer to its first request.
spec fn ends_as_inserted(
    before: AggregationStepView,
    end: AggregationStepView,
    first_answer: Option<StoreAnswerView>,
) -> bool {
    match before {
        AggregationStepView::Ask { state: AggregationView::Inserting { .. }, .. } => {
            &&& end is Done ==> is_taken(first_answer)
            &&& end is Failed ==> is_refused(first_answer)
            &&& first_answer is None ==> end == before
        },
        AggregationStepView::Ask { .. } => is_past_insertion(end),
        _ => end == before,
    }
}

/// Along every run of two aggregations, each ends as the answer to its own
/// insertion says.
proof fn lemma_ends_as_inserted(
    a: AggregationStepView,
    b: AggregationStepView,
    store: StoreModel,
    trace: Seq<Turn>,
)
    requires
        interleaved_run(a, b, store, trace) is Some,
    ensures
        ends_as_inserted(
            a,
            interleaved_run(a, b, store, trace).unwrap().first,
            first_answer_to(trace, false),
        ),
        ends_as_inserted(
            b,
            interleaved_run(a, b, store, trace).unwrap().second,
            first_answer_to(trace, true),
        ),
    decreases trace.len(),
{
    if trace.len() > 0 {
        let turn = trace[0];
        let x = turn.exchange;
        if turn.second {
            lemma_ends_as_inserted(a, b->state.resume(x.answer), x.after, trace.drop_first());
        } else {
            lemma_ends_as_inserted(a->state.resume(x.answer), b, x.after, trace.drop_first());
        }
    }
}

/// Of two aggregations that run side by side, each succeeds exactly when the
/// store took its own review, whatever becomes of the other and of the mean:
/// one that has ended in success had its insertion taken, and one that has
/// ended in failure had it refused.
pub proof fn law_concurrent_reviews_succeed_when_recorded(
    first: ReviewView,
    second: ReviewView,
    store: StoreModel,
    trace: Seq<Turn>,
    end: PairRun,
)
    requires
        interleaved_run(submission(first), submission(second), store, trace) == Some(end),
    ensures
        end.first is Done ==> is_taken(first_answer_to(trace, false)),
        end.first is Failed ==> is_refused(first_answer_to(trace, false)),
        end.second is Done ==> is_taken(first_answer_to(trace, true)),
        end.second is Failed ==> is_refused(first_answer_to(trace, true)),
{
    lemma_ends_as_inserted(submission(first), submission(second), store, trace);
}

/// An aggregation that runs alone succeeds exactly when the store took its
/// review: it ends in success if the answer to its first request is that the
/// review was inserted, and in failure on any other answer.
pub proof fn law_review_succeeds_when_recorded(
    review: ReviewView,
    store: StoreModel,
    trace: Seq<Exchange>,
    run: Run<AggregationStepView>,
)
    requires
        aggregation_run(submission(review), store, trace) == Some(run),
        !(run.step is Ask),
    ensures
        trace.len() >= 1,
        run.step is Done <==> trace[0].answer is Inserted,
        run.step is Failed <==> !(trace[0].answer is Inserted),
{
    lemma_aggregation_unrolls(review, store, trace, run);
}

} // verus!
