//! `POST /purchases` and `GET /purchases`.

use crate::clock::now_millis;
use crate::error::ApiError;
use crate::http::{
    answer_of, authorize, authorizing, into_answer, invalid_token, refusal, Action, ActionView,
    Body, BodyView, Event, EventView, Lag, Reply, ReplyView, Step, StepView,
};
use crate::models::{CreatePurchaseRequest, CreatePurchaseRequestView};
use crate::settlement::{
    settle_purchase, settlement, SettledView, Settlement, SettlementStep, SettlementStepView,
    SettlementView,
};
use crate::store::{StoreAnswer, StoreAnswerView, StoreRequest, StoreRequestView};
use crate::text::owned;
use vstd::prelude::*;

verus! {

/// Where a request on purchases stands.
#[derive(Debug, Clone, PartialEq, Eq)]
pub enum PurchaseFlow {
    /// A purchase was asked for; the token service was asked whose token
    /// came with it.
    Authorizing { request: CreatePurchaseRequest },
    /// The purchase is being settled.
    Settling { settlement: Settlement },
    /// The list of purchases was asked for; the token service was asked
    /// whose token came with the request.
    AuthorizingList,
    /// The store was asked for the purchases of the customer.
    Listing,
}

/// The view of [`PurchaseFlow`].
pub enum PurchaseFlowView {
    Authorizing { request: CreatePurchaseRequestView },
    Settling { settlement: SettlementView },
    AuthorizingList,
    Listing,
}

impl View for PurchaseFlow {
    type V = PurchaseFlowView;

    open spec fn view(&self) -> PurchaseFlowView {
        match self {
            PurchaseFlow::Authorizing { request } => PurchaseFlowView::Authorizing {
                request: request@,
            },
            PurchaseFlow::Settling { settlement } => PurchaseFlowView::Settling {
                settlement: settlement@,
            },
            PurchaseFlow::AuthorizingList => PurchaseFlowView::AuthorizingList,
            PurchaseFlow::Listing => PurchaseFlowView::Listing,
        }
    }
}

/// The answer to a purchase that is recorded: it gives the download location
/// that the purchase holds. It is the same whether or not the download
/// counter was raised; a counter that was not is noted as a lag.
pub open spec fn purchase_made(settled: SettledView) -> ReplyView {
    ReplyView {
        status: 200,
        body: BodyView::Purchased {
            success: true,
            message: "Purchase successful"@,
            download_url: settled.purchase.download_url,
        },
        lag: if settled.counted {
            None
        } else {
            Some(Lag::Downloads)
        },
    }
}

/// The answer to a purchase that is not recorded.
pub open spec fn purchase_refused(error: ApiError) -> ReplyView {
    match error {
        ApiError::InvalidReference => refusal(ApiError::InvalidReference, "Invalid product ID"@),
        ApiError::NotFound => refusal(ApiError::NotFound, "Product not found"@),
        _ => refusal(ApiError::StorageError, "Failed to create purchase"@),
    }
}

/// The handler's step for a step of the settlement: the settlement's request
/// is passed on to the store, and its end is answered.
pub open spec fn relay(step: SettlementStepView) -> StepView<PurchaseFlowView> {
    match step {
        SettlementStepView::Ask { state, request } => StepView::Do {
            state: PurchaseFlowView::Settling { settlement: state },
            action: ActionView::Store(request),
        },
        SettlementStepView::Done(settled) => StepView::Reply(purchase_made(settled)),
        SettlementStepView::Failed(error) => StepView::Reply(purchase_refused(error)),
    }
}

/// The first step of `POST /purchases`.
pub open spec fn creating_purchase(
    authorization: Option<Seq<char>>,
    request: CreatePurchaseRequestView,
) -> StepView<PurchaseFlowView> {
    authorizing(authorization, PurchaseFlowView::Authorizing { request })
}

/// The first step of `GET /purchases`.
pub open spec fn listing_purchases(authorization: Option<Seq<char>>) -> StepView<
    PurchaseFlowView,
> {
    authorizing(authorization, PurchaseFlowView::AuthorizingList)
}

impl PurchaseFlowView {
    /// The step that `event`, received at `now`, leads to.
    pub open spec fn resume(self, event: EventView, now: i64) -> StepView<PurchaseFlowView> {
        match self {
            PurchaseFlowView::Authorizing { request } => match event {
                EventView::Subject(Some(subject)) => relay(
                    settlement(subject, request.product_id, request.payment_method),
                ),
                _ => StepView::Reply(invalid_token()),
            },
            PurchaseFlowView::Settling { settlement } => relay(
                settlement.resume(answer_of(event), now),
            ),
            PurchaseFlowView::AuthorizingList => match event {
                EventView::Subject(Some(subject)) => StepView::Do {
                    state: PurchaseFlowView::Listing,
                    action: ActionView::Store(
                        StoreRequestView::FindPurchases { customer_id: subject },
                    ),
                },
                _ => StepView::Reply(invalid_token()),
            },
            PurchaseFlowView::Listing => match event {
                EventView::Store(StoreAnswerView::Purchases(list)) => StepView::Reply(
                    ReplyView { status: 200, body: BodyView::Purchases(list), lag: None },
                ),
                _ => StepView::Reply(refusal(ApiError::StorageError, "Failed to fetch purchases"@)),
            },
        }
    }
}

/// Starts `POST /purchases`: a customer buys a product.
pub fn create_purchase(authorization: Option<&str>, request: CreatePurchaseRequest) -> (step:
    Step<PurchaseFlow>)
    ensures
        step@ == creating_purchase(authorization.deep_view(), request@),
{
    authorize(authorization, PurchaseFlow::Authorizing { request })
}

/// Starts `GET /purchases`: the purchases of the customer, newest first.
pub fn get_user_purchases(authorization: Option<&str>) -> (step: Step<PurchaseFlow>)
    ensures
        step@ == listing_purchases(authorization.deep_view()),
{
    authorize(authorization, PurchaseFlow::AuthorizingList)
}

/// The handler's step for a step of the settlement.
fn relay_step(step: SettlementStep) -> (next: Step<PurchaseFlow>)
    ensures
        next@ == relay(step@),
{
    match step {
        SettlementStep::Ask { state, request } => Step::Do {
            state: PurchaseFlow::Settling { settlement: state },
            action: Action::Store(request),
        },
        SettlementStep::Done(settled) => {
            let lag = if settled.counted {
                None
            } else {
                Some(Lag::Downloads)
            };
            Step::Reply(
                Reply {
                    status: 200,
                    body: Body::Purchased {
                        success: true,
                        message: owned("Purchase successful"),
                        download_url: settled.purchase.download_url,
                    },
                    lag,
                },
            )
        },
        SettlementStep::Failed(error) => Step::Reply(
            match error {
                ApiError::InvalidReference => Reply::refusal(
                    ApiError::InvalidReference,
                    "Invalid product ID",
                ),
                ApiError::NotFound => Reply::refusal(ApiError::NotFound, "Product not found"),
                _ => Reply::refusal(ApiError::StorageError, "Failed to create purchase"),
            },
        ),
    }
}

impl PurchaseFlow {
    /// Takes the request one step on, with the event that tells of the
    /// action it was waiting on and the time `now` at which it came.
    pub fn resume_at(self, event: Event, now: i64) -> (step: Step<PurchaseFlow>)
        ensures
            step@ == self@.resume(event@, now),
    {
        match self {
            PurchaseFlow::Authorizing { request } => match event {
                Event::Subject(Some(subject)) => relay_step(
                    settle_purchase(subject, request.product_id, request.payment_method),
                ),
                _ => Step::Reply(Reply::refusal(ApiError::Unauthorized, "Invalid token")),
            },
            PurchaseFlow::Settling { settlement } => relay_step(
                settlement.resume_at(into_answer(event), now),
            ),
            PurchaseFlow::AuthorizingList => match event {
                Event::Subject(Some(subject)) => Step::Do {
                    state: PurchaseFlow::Listing,
                    action: Action::Store(StoreRequest::FindPurchases { customer_id: subject }),
                },
                _ => Step::Reply(Reply::refusal(ApiError::Unauthorized, "Invalid token")),
            },
            PurchaseFlow::Listing => match event {
                Event::Store(StoreAnswer::Purchases(list)) => Step::Reply(
                    Reply { status: 200, body: Body::Purchases(list), lag: None },
                ),
                _ => Step::Reply(
                    Reply::refusal(ApiError::StorageError, "Failed to fetch purchases"),
                ),
            },
        }
    }

    /// Takes the request one step on, with the event that tells of the
    /// action it was waiting on. A purchase that this step makes is created
    /// at the time of the call.
    pub fn resume(self, event: Event) -> (step: Step<PurchaseFlow>)
        ensures
            exists|now: i64| step@ == #[trigger] self@.resume(event@, now),
    {
        let now: i64 = now_millis();
        self.resume_at(event, now)
    }
}

} // verus!
