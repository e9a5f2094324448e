//! Purchase settlement: a purchase of a product is recorded, and the
//! product's download counter is raised by one.
//!
//! The purchase is the primary record. It copies the product's price and file
//! location as they are when the product is looked up, and is not touched
//! again. The counter is raised only after the store has taken the purchase,
//! and on a best-effort basis: when that fails the purchase stands and the
//! caller is told that the counter lags.

use crate::clock::now_millis;
use crate::error::ApiError;
use crate::models::{Product, ProductView, Purchase, PurchaseView};
use crate::oid::{is_object_id_text, object_id_bytes, ObjectId};
use crate::store::{StoreAnswer, StoreAnswerView, StoreRequest, StoreRequestView};
use crate::text::owned;
use vstd::prelude::*;

verus! {

/// A recorded purchase, and whether the product's download counter was
/// raised for it.
#[derive(Debug, Clone, PartialEq, Eq)]
pub struct Settled {
    pub purchase: Purchase,
    pub counted: bool,
}

/// The view of [`Settled`].
pub struct SettledView {
    pub purchase: PurchaseView,
    pub counted: bool,
}

impl View for Settled {
    type V = SettledView;

    open spec fn view(&self) -> SettledView {
        SettledView { purchase: self.purchase@, counted: self.counted }
    }
}

/// Where a settlement stands: which answer of the store it waits for.
#[derive(Debug, Clone, PartialEq, Eq)]
pub enum Settlement {
    /// The product was asked for.
    Resolving {
        customer_id: String,
        product_id: String,
        payment_method: String,
        product: ObjectId,
    },
    /// The purchase was handed to the store.
    Recording { purchase: Purchase, product: ObjectId },
    /// The purchase is recorded; the store was asked to raise the counter.
    Counting { purchase: Purchase },
}

/// The view of [`Settlement`].
pub enum SettlementView {
    Resolving {
        customer_id: Seq<char>,
        product_id: Seq<char>,
        payment_method: Seq<char>,
        product: Seq<u8>,
    },
    Recording { purchase: PurchaseView, product: Seq<u8> },
    Counting { purchase: PurchaseView },
}

impl View for Settlement {
    type V = SettlementView;

    open spec fn view(&self) -> SettlementView {
        match self {
            Settlement::Resolving {
                customer_id,
                product_id,
                payment_method,
                product,
            } => SettlementView::Resolving {
                customer_id: customer_id@,
                product_id: product_id@,
                payment_method: payment_method@,
                product: product@,
            },
            Settlement::Recording { purchase, product } => SettlementView::Recording {
                purchase: purchase@,
                product: product@,
            },
            Settlement::Counting { purchase } => SettlementView::Counting { purchase: purchase@ },
        }
    }
}

/// What a settlement does next.
#[derive(Debug, Clone, PartialEq, Eq)]
pub enum SettlementStep {
    /// It asks the store for `request` and waits in `state` for the answer.
    Ask { state: Settlement, request: StoreRequest },
    /// It is over and the purchase is recorded.
    Done(Settled),
    /// It is over and nothing is recorded.
    Failed(ApiError),
}

/// The view of [`SettlementStep`].
pub enum SettlementStepView {
    Ask { state: SettlementView, request: StoreRequestView },
    Done(SettledView),
    Failed(ApiError),
}

impl View for SettlementStep {
    type V = SettlementStepView;

    open spec fn view(&self) -> SettlementStepView {
        match self {
            SettlementStep::Ask { state, request } => SettlementStepView::Ask {
                state: state@,
                request: request@,
            },
            SettlementStep::Done(settled) => SettlementStepView::Done(settled@),
            SettlementStep::Failed(error) => SettlementStepView::Failed(*error),
        }
    }
}

/// The first step of a settlement. A product id that is not an object id is
/// an invalid reference and nothing is asked of the store; otherwise the
/// product is looked up.
pub open spec fn settlement(
    buyer_id: Seq<char>,
    product_id: Seq<char>,
    payment_method: Seq<char>,
) -> SettlementStepView {
    if is_object_id_text(product_id) {
        SettlementStepView::Ask {
            state: SettlementView::Resolving {
                customer_id: buyer_id,
                product_id,
                payment_method,
                product: object_id_bytes(product_id),
            },
            request: StoreRequestView::FindProduct { id: object_id_bytes(product_id) },
        }
    } else {
        SettlementStepView::Failed(ApiError::InvalidReference)
    }
}

/// The purchase that is made of `product` at `now`: the amount is the
/// product's price and the download location its file location, both as
/// `product` holds them, and the purchase counts as completed at once.
pub open spec fn snapshot(
    customer_id: Seq<char>,
    product_id: Seq<char>,
    payment_method: Seq<char>,
    product: ProductView,
    now: i64,
) -> PurchaseView {
    PurchaseView {
        id: None,
        customer_id,
        product_id,
        payment_method,
        amount: product.price,
        status: "completed"@,
        download_url: product.file_url,
        created_at: now,
    }
}

impl SettlementView {
    /// The step that the answer `answer`, received at `now`, leads to.
    ///
    /// A lookup that shows no product ends the settlement with `NotFound`,
    /// and a lookup that the store did not answer ends it with a storage
    /// error. Anything but the insertion of the purchase ends it with a
    /// storage error, and the counter is not touched. Once the purchase is
    /// recorded the settlement succeeds, whatever becomes of the counter.
    pub open spec fn resume(self, answer: StoreAnswerView, now: i64) -> SettlementStepView {
        match self {
            SettlementView::Resolving {
                customer_id,
                product_id,
                payment_method,
                product,
            } => match answer {
                StoreAnswerView::Product(Some(found)) => {
                    let purchase = snapshot(customer_id, product_id, payment_method, found, now);
                    SettlementStepView::Ask {
                        state: SettlementView::Recording { purchase, product },
                        request: StoreRequestView::InsertPurchase { purchase },
                    }
                },
                StoreAnswerView::Product(None) => SettlementStepView::Failed(ApiError::NotFound),
                _ => SettlementStepView::Failed(ApiError::StorageError),
            },
            SettlementView::Recording { purchase, product } => match answer {
                StoreAnswerView::Inserted => SettlementStepView::Ask {
                    state: SettlementView::Counting { purchase },
                    request: StoreRequestView::IncrementDownloads { product },
                },
                _ => SettlementStepView::Failed(ApiError::StorageError),
            },
            SettlementView::Counting { purchase } => match answer {
                StoreAnswerView::Updated => SettlementStepView::Done(
                    SettledView { purchase, counted: true },
                ),
                _ => SettlementStepView::Done(SettledView { purchase, counted: false }),
            },
        }
    }
}

/// Starts the settlement of a purchase: `buyer_id` buys the product
/// `product_id` and pays by `payment_method`.
pub fn settle_purchase(buyer_id: String, product_id: String, payment_method: String) -> (step:
    SettlementStep)
    ensures
        step@ == settlement(buyer_id@, product_id@, payment_method@),
{
    match ObjectId::parse_str(product_id.as_str()) {
        Ok(product) => SettlementStep::Ask {
            state: Settlement::Resolving {
                customer_id: buyer_id,
                product_id,
                payment_method,
                product,
            },
            request: StoreRequest::FindProduct { id: product },
        },
        Err(_) => SettlementStep::Failed(ApiError::InvalidReference),
    }
}

/// The purchase that is made of `product` at `now`.
pub fn take_snapshot(
    customer_id: String,
    product_id: String,
    payment_method: String,
    product: Product,
    now: i64,
) -> (purchase: Purchase)
    ensures
        purchase@ == snapshot(customer_id@, product_id@, payment_method@, product@, now),
{
    Purchase {
        id: None,
        customer_id,
        product_id,
        payment_method,
        amount: product.price,
        status: owned("completed"),
        download_url: product.file_url,
        created_at: now,
    }
}

impl Settlement {
    /// Takes the settlement one step on, with the store's answer to the
    /// request it was waiting on and the time `now` at which it came.
    pub fn resume_at(self, answer: StoreAnswer, now: i64) -> (step: SettlementStep)
        ensures
            step@ == self@.resume(answer@, now),
    {
        match self {
            Settlement::Resolving {
                customer_id,
                product_id,
                payment_method,
                product,
            } => match answer {
                StoreAnswer::Product(Some(found)) => {
                    let purchase = take_snapshot(
                        customer_id,
                        product_id,
                        payment_method,
                        found,
                        now,
                    );
                    let sent = purchase.clone();
                    SettlementStep::Ask {
                        state: Settlement::Recording { purchase, product },
                        request: StoreRequest::InsertPurchase { purchase: sent },
                    }
                },
                StoreAnswer::Product(None) => SettlementStep::Failed(ApiError::NotFound),
                _ => SettlementStep::Failed(ApiError::StorageError),
            },
            Settlement::Recording { purchase, product } => match answer {
                StoreAnswer::Inserted => SettlementStep::Ask {
                    state: Settlement::Counting { purchase },
                    request: StoreRequest::IncrementDownloads { product },
                },
                _ => SettlementStep::Failed(ApiError::StorageError),
            },
            Settlement::Counting { purchase } => match answer {
                StoreAnswer::Updated => SettlementStep::Done(Settled { purchase, counted: true }),
                _ => SettlementStep::Done(Settled { purchase, counted: false }),
            },
        }
    }

    /// Takes the settlement one step on, with the store's answer to the
    /// request it was waiting on. A purchase that this step makes is created
    /// at the time of the call.
    pub fn resume(self, answer: StoreAnswer) -> (step: SettlementStep)
        ensures
            exists|now: i64| step@ == #[trigger] self@.resume(answer@, now),
    {
        let now: i64 = now_millis();
        self.resume_at(answer, now)
    }
}

} // verus!
