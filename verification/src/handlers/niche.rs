//! `GET /niche/{niche_type}`: the products of a niche.

use crate::error::ApiError;
use crate::http::{
    refusal, Action, ActionView, Body, BodyView, Event, EventView, Reply, ReplyView, Step, StepView,
};
use crate::query::{
    niche_of, sort_key_of, CategoryFilter, CategoryFilterView, NicheType, ProductQuery,
    ProductQueryView, SortKey,
};
use crate::store::{StoreAnswer, StoreAnswerView, StoreRequest, StoreRequestView};
use vstd::prelude::*;

verus! {

/// Where a request for the products of a niche stands.
#[derive(Debug, Clone, Copy, PartialEq, Eq, Structural)]
pub enum NicheFlow {
    /// The store was asked for the products.
    Listing,
}

impl View for NicheFlow {
    type V = NicheFlow;

    open spec fn view(&self) -> NicheFlow {
        *self
    }
}

/// The products that a request for a niche asks the store for: those whose
/// category is one of the niche's three and, if `search` is present, whose
/// title or description matches it; in the order that `sort` names, and
/// newest first when it names none.
pub open spec fn niche_query(
    niche: NicheType,
    search: Option<Seq<char>>,
    sort: Option<Seq<char>>,
) -> ProductQueryView {
    ProductQueryView {
        categories: CategoryFilterView::OneOf(niche.categories_spec()),
        search,
        sort: Some(sort_key_of(sort)),
    }
}

/// The first step of `GET /niche/{niche_type}`: an unknown niche is answered
/// with 400, and the products of any other are asked for.
pub open spec fn listing_niche(
    niche_type: Seq<char>,
    search: Option<Seq<char>>,
    sort: Option<Seq<char>>,
) -> StepView<NicheFlow> {
    match niche_of(niche_type) {
        Some(niche) => StepView::Do {
            state: NicheFlow::Listing,
            action: ActionView::Store(
                StoreRequestView::FindProducts { query: niche_query(niche, search, sort) },
            ),
        },
        None => StepView::Reply(refusal(ApiError::ValidationError, "Invalid niche type"@)),
    }
}

impl NicheFlow {
    /// The step that `event` leads to.
    pub open spec fn resume_spec(self, event: EventView) -> StepView<NicheFlow> {
        match event {
            EventView::Store(StoreAnswerView::Products(list)) => StepView::Reply(
                ReplyView { status: 200, body: BodyView::Products(list), lag: None },
            ),
            _ => StepView::Reply(
                refusal(ApiError::StorageError, "Failed to fetch niche products"@),
            ),
        }
    }

    /// Takes the request one step on, with the event that tells of the
    /// action it was waiting on.
    pub fn resume(self, event: Event) -> (step: Step<NicheFlow>)
        ensures
            step@ == self.resume_spec(event@),
    {
        match event {
            Event::Store(StoreAnswer::Products(list)) => Step::Reply(
                Reply { status: 200, body: Body::Products(list), lag: None },
            ),
            _ => Step::Reply(
                Reply::refusal(ApiError::StorageError, "Failed to fetch niche products"),
            ),
        }
    }
}

/// Starts `GET /niche/{niche_type}`: the products of the niche `niche_type`
/// that match `search`, in the order that `sort` names.
pub fn get_niche_products(niche_type: &str, search: Option<String>, sort: Option<&str>) -> (step:
    Step<NicheFlow>)
    ensures
        step@ == listing_niche(niche_type@, search.deep_view(), sort.deep_view()),
{
    match NicheType::parse(niche_type) {
        Ok(niche) => {
            let query = ProductQuery {
                categories: CategoryFilter::OneOf(niche.categories()),
                search,
                sort: Some(SortKey::parse(sort)),
            };
            Step::Do {
                state: NicheFlow::Listing,
                action: Action::Store(StoreRequest::FindProducts { query }),
            }
        },
        Err(_) => Step::Reply(Reply::refusal(ApiError::ValidationError, "Invalid niche type")),
    }
}

} // verus!
