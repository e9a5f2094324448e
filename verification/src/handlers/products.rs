//! `GET /products`, `GET /products/{id}` and `POST /products`.

use crate::clock::now_millis;
use crate::error::ApiError;
use crate::http::{
    authorize, authorizing, invalid_token, refusal, status_reply, Action, ActionView, Body,
    BodyView, Event, EventView, Reply, ReplyView, Step, StepView,
};
use crate::models::{CreateProductRequest, CreateProductRequestView, Product, ProductView};
use crate::oid::{is_object_id_text, object_id_bytes, ObjectId};
use crate::query::{CategoryFilter, CategoryFilterView, ProductQuery, ProductQueryView};
use crate::store::{StoreAnswer, StoreAnswerView, StoreRequest, StoreRequestView};
use vstd::prelude::*;

verus! {

/// Where a request on products stands.
#[derive(Debug, Clone, PartialEq, Eq)]
pub enum ProductFlow {
    /// The store was asked for a list of products.
    Listing,
    /// The store was asked for one product.
    Finding,
    /// A product was sent in; the token service was asked whose token came with
    /// it.
    Authorizing { request: CreateProductRequest },
    /// The product was handed to the store.
    Inserting,
}

/// The view of [`ProductFlow`].
pub enum ProductFlowView {
    Listing,
    Finding,
    Authorizing { request: CreateProductRequestView },
    Inserting,
}

impl View for ProductFlow {
    type V = ProductFlowView;

    open spec fn view(&self) -> ProductFlowView {
        match self {
            ProductFlow::Listing => ProductFlowView::Listing,
            ProductFlow::Finding => ProductFlowView::Finding,
            ProductFlow::Authorizing { request } => ProductFlowView::Authorizing {
                request: request@,
            },
            ProductFlow::Inserting => ProductFlowView::Inserting,
        }
    }
}

/// The product that `owner` offers by `request` at `now`: it has no id yet,
/// no download and no rating.
pub open spec fn new_product(
    owner: Seq<char>,
    request: CreateProductRequestView,
    now: i64,
) -> ProductView {
    ProductView {
        id: None,
        seller_id: owner,
        title: request.title,
        description: request.description,
        category: request.category,
        price: request.price,
        file_type: request.file_type,
        file_url: request.file_url,
        icon: request.icon,
        rating: None,
        downloads: 0,
        created_at: now,
    }
}

/// The first step of `GET /products`: the products that the parameters keep,
/// in the store's own order.
pub open spec fn listing_products(
    category: Option<Seq<char>>,
    search: Option<Seq<char>>,
) -> StepView<ProductFlowView> {
    StepView::Do {
        state: ProductFlowView::Listing,
        action: ActionView::Store(
            StoreRequestView::FindProducts {
                query: ProductQueryView {
                    categories: match category {
                        Some(c) => CategoryFilterView::Exactly(c),
                        None => CategoryFilterView::Any,
                    },
                    search,
                    sort: None,
                },
            },
        ),
    }
}

/// The first step of `GET /products/{id}`: an id that is not an object id is
/// answered with 400, and the product with any other id is looked up.
pub open spec fn finding_product(id: Seq<char>) -> StepView<ProductFlowView> {
    if is_object_id_text(id) {
        StepView::Do {
            state: ProductFlowView::Finding,
            action: ActionView::Store(StoreRequestView::FindProduct { id: object_id_bytes(id) }),
        }
    } else {
        StepView::Reply(refusal(ApiError::InvalidReference, "Invalid product ID"@))
    }
}

/// The first step of `POST /products`.
pub open spec fn creating_product(
    authorization: Option<Seq<char>>,
    request: CreateProductRequestView,
) -> StepView<ProductFlowView> {
    authorizing(authorization, ProductFlowView::Authorizing { request })
}

impl ProductFlowView {
    /// The step that `event`, received at `now`, leads to.
    pub open spec fn resume(self, event: EventView, now: i64) -> StepView<ProductFlowView> {
        match self {
            ProductFlowView::Listing => match event {
                EventView::Store(StoreAnswerView::Products(list)) => StepView::Reply(
                    ReplyView { status: 200, body: BodyView::Products(list), lag: None },
                ),
                _ => StepView::Reply(refusal(ApiError::StorageError, "Failed to fetch products"@)),
            },
            ProductFlowView::Finding => match event {
                EventView::Store(StoreAnswerView::Product(Some(product))) => StepView::Reply(
                    ReplyView { status: 200, body: BodyView::Product(product), lag: None },
                ),
                EventView::Store(StoreAnswerView::Product(None)) => StepView::Reply(
                    refusal(ApiError::NotFound, "Product not found"@),
                ),
                _ => StepView::Reply(refusal(ApiError::StorageError, "Failed to fetch product"@)),
            },
            ProductFlowView::Authorizing { request } => match event {
                EventView::Subject(Some(subject)) => StepView::Do {
                    state: ProductFlowView::Inserting,
                    action: ActionView::Store(
                        StoreRequestView::InsertProduct {
                            product: new_product(subject, request, now),
                        },
                    ),
                },
                _ => StepView::Reply(invalid_token()),
            },
            ProductFlowView::Inserting => match event {
                EventView::Store(StoreAnswerView::Inserted) => StepView::Reply(
                    status_reply(200, true, "Product created successfully"@),
                ),
                _ => StepView::Reply(refusal(ApiError::StorageError, "Failed to create product"@)),
            },
        }
    }
}

/// Starts `GET /products`: the products that the parameters keep, in the
/// store's own order.
pub fn get_products(category: Option<String>, search: Option<String>) -> (step: Step<ProductFlow>)
    ensures
        step@ == listing_products(category.deep_view(), search.deep_view()),
{
    let query = ProductQuery {
        categories: match category {
            Some(c) => CategoryFilter::Exactly(c),
            None => CategoryFilter::Any,
        },
        search,
        sort: None,
    };
    Step::Do {
        state: ProductFlow::Listing,
        action: Action::Store(StoreRequest::FindProducts { query }),
    }
}

/// Starts `GET /products/{id}`: the product with the id `id`.
pub fn get_product_by_id(id: &str) -> (step: Step<ProductFlow>)
    ensures
        step@ == finding_product(id@),
{
    match ObjectId::parse_str(id) {
        Ok(id) => Step::Do {
            state: ProductFlow::Finding,
            action: Action::Store(StoreRequest::FindProduct { id }),
        },
        Err(_) => Step::Reply(Reply::refusal(ApiError::InvalidReference, "Invalid product ID")),
    }
}

/// Starts `POST /products`: a user offers a product.
pub fn create_product(authorization: Option<&str>, request: CreateProductRequest) -> (step: Step<
    ProductFlow,
>)
    ensures
        step@ == creating_product(authorization.deep_view(), request@),
{
    authorize(authorization, ProductFlow::Authorizing { request })
}

impl ProductFlow {
    /// Takes the request one step on, with the event that tells of the
    /// action it was waiting on and the time `now` at which it came.
    pub fn resume_at(self, event: Event, now: i64) -> (step: Step<ProductFlow>)
        ensures
            step@ == self@.resume(event@, now),
    {
        match self {
            ProductFlow::Listing => match event {
                Event::Store(StoreAnswer::Products(list)) => Step::Reply(
                    Reply { status: 200, body: Body::Products(list), lag: None },
                ),
                _ => Step::Reply(
                    Reply::refusal(ApiError::StorageError, "Failed to fetch products"),
                ),
            },
            ProductFlow::Finding => match event {
                Event::Store(StoreAnswer::Product(Some(product))) => Step::Reply(
                    Reply { status: 200, body: Body::Product(product), lag: None },
                ),
                Event::Store(StoreAnswer::Product(None)) => Step::Reply(
                    Reply::refusal(ApiError::NotFound, "Product not found"),
                ),
                _ => Step::Reply(Reply::refusal(ApiError::StorageError, "Failed to fetch product")),
            },
            ProductFlow::Authorizing { request } => match event {
                Event::Subject(Some(subject)) => {
                    let product = Product {
                        id: None,
                        seller_id: subject,
                        title: request.title,
                        description: request.description,
                        category: request.category,
                        price: request.price,
                        file_type: request.file_type,
                        file_url: request.file_url,
                        icon: request.icon,
                        rating: None,
                        downloads: 0,
                        created_at: now,
                    };
                    Step::Do {
                        state: ProductFlow::Inserting,
                        action: Action::Store(StoreRequest::InsertProduct { product }),
                    }
                },
                _ => Step::Reply(Reply::refusal(ApiError::Unauthorized, "Invalid token")),
            },
            ProductFlow::Inserting => match event {
                Event::Store(StoreAnswer::Inserted) => Step::Reply(
                    Reply::status(200, true, "Product created successfully"),
                ),
                _ => Step::Reply(
                    Reply::refusal(ApiError::StorageError, "Failed to create product"),
                ),
            },
        }
    }

    /// Takes the request one step on, with the event that tells of the
    /// action it was waiting on. A product that this step makes is created at
    /// the time of the call.
    pub fn resume(self, event: Event) -> (step: Step<ProductFlow>)
        ensures
            exists|now: i64| step@ == #[trigger] self@.resume(event@, now),
    {
        let now: i64 = now_millis();
        self.resume_at(event, now)
    }
}

} // verus!
