//! The conversation with the document store.
//!
//! The library never reaches the store itself. It names one operation at a
//! time, a [`StoreRequest`], and is told what became of it, a
//! [`StoreAnswer`]. Every operation touches a single document or lists one
//! collection; nothing spans two of them.

use crate::models::{
    Booking, BookingView, Product, ProductView, Purchase, PurchaseView, Review, ReviewView,
    Service, ServiceView, User, UserView,
};
use crate::oid::ObjectId;
use crate::query::{
    push_clause, Clause, ClauseView, Field, ProductQuery, ProductQueryView, ServiceQuery,
    ServiceQueryView, Sort,
};
use crate::rating::{Mean, MeanView};
use crate::text::same_text;
use vstd::prelude::*;

verus! {

/// The collections of the store, one per kind of record.
#[derive(Debug, Clone, Copy, PartialEq, Eq, Structural)]
pub enum Collection {
    Users,
    Services,
    Products,
    Bookings,
    Purchases,
    Reviews,
}

impl Collection {
    /// The name of the collection in the store.
    pub open spec fn name_text(self) -> Seq<char> {
        match self {
            Collection::Users => "users"@,
            Collection::Services => "services"@,
            Collection::Products => "products"@,
            Collection::Bookings => "bookings"@,
            Collection::Purchases => "purchases"@,
            Collection::Reviews => "reviews"@,
        }
    }

    /// The name of the collection in the store.
    pub fn name(&self) -> (name: &'static str)
        ensures
            name@ == self.name_text(),
    {
        match self {
            Collection::Users => "users",
            Collection::Services => "services",
            Collection::Products => "products",
            Collection::Bookings => "bookings",
            Collection::Purchases => "purchases",
            Collection::Reviews => "reviews",
        }
    }
}

/// The two kinds of item that carry a rating.
#[derive(Debug, Clone, Copy, PartialEq, Eq, Structural)]
pub enum ItemKind {
    Service,
    Product,
}

/// The kind that the tag `item_type` names: `service` or `product`, and no
/// kind for any other tag.
pub open spec fn item_kind_of(item_type: Seq<char>) -> Option<ItemKind> {
    if item_type == "service"@ {
        Some(ItemKind::Service)
    } else if item_type == "product"@ {
        Some(ItemKind::Product)
    } else {
        None
    }
}

impl ItemKind {
    /// Reads the tag of a review's target.
    pub fn parse(item_type: &str) -> (kind: Option<ItemKind>)
        ensures
            kind == item_kind_of(item_type@),
    {
        if same_text(item_type, "service") {
            Some(ItemKind::Service)
        } else if same_text(item_type, "product") {
            Some(ItemKind::Product)
        } else {
            None
        }
    }

    /// The collection that holds the items of this kind.
    pub open spec fn collection_spec(self) -> Collection {
        match self {
            ItemKind::Service => Collection::Services,
            ItemKind::Product => Collection::Products,
        }
    }

    /// The collection that holds the items of this kind.
    pub fn collection(&self) -> (collection: Collection)
        ensures
            collection == self.collection_spec(),
    {
        match self {
            ItemKind::Service => Collection::Services,
            ItemKind::Product => Collection::Products,
        }
    }
}

/// A secondary index: the fields it is keyed by, in ascending order, and
/// whether it refuses a second record with the same key.
#[derive(Debug, Clone, PartialEq, Eq)]
pub struct Index {
    pub keys: Vec<Field>,
    pub unique: bool,
}

/// The view of [`Index`].
pub struct IndexView {
    pub keys: Seq<Field>,
    pub unique: bool,
}

impl View for Index {
    type V = IndexView;

    open spec fn view(&self) -> IndexView {
        IndexView { keys: self.keys@, unique: self.unique }
    }
}

impl DeepView for Index {
    type V = IndexView;

    open spec fn deep_view(&self) -> IndexView {
        self@
    }
}

/// One operation on the store.
#[derive(Debug, Clone, PartialEq, Eq)]
pub enum StoreRequest {
    /// The user with this e-mail address.
    FindUserByEmail { email: String },
    InsertUser { user: User },
    /// The services that the query keeps.
    FindServices { query: ServiceQuery },
    /// The service with this id.
    FindService { id: ObjectId },
    InsertService { service: Service },
    /// The products that the query keeps, in its order.
    FindProducts { query: ProductQuery },
    /// The product with this id.
    FindProduct { id: ObjectId },
    InsertProduct { product: Product },
    InsertBooking { booking: Booking },
    /// The bookings of one customer, newest first.
    FindBookings { customer_id: String },
    InsertPurchase { purchase: Purchase },
    /// The purchases of one customer, newest first.
    FindPurchases { customer_id: String },
    /// Adds one to the download counter of a product.
    IncrementDownloads { product: ObjectId },
    InsertReview { review: Review },
    /// The reviews of one item, newest first if so asked and in the store's
    /// own order otherwise.
    FindReviews { item_id: String, item_type: String, newest_first: bool },
    /// Writes the rating of a service or a product.
    SetRating { kind: ItemKind, id: ObjectId, rating: Mean },
    /// Builds one index on a collection.
    CreateIndex { collection: Collection, index: Index },
    /// Builds several indexes on a collection.
    CreateIndexes { collection: Collection, indexes: Vec<Index> },
}

/// The view of [`StoreRequest`].
pub enum StoreRequestView {
    FindUserByEmail { email: Seq<char> },
    InsertUser { user: UserView },
    FindServices { query: ServiceQueryView },
    FindService { id: Seq<u8> },
    InsertService { service: ServiceView },
    FindProducts { query: ProductQueryView },
    FindProduct { id: Seq<u8> },
    InsertProduct { product: ProductView },
    InsertBooking { booking: BookingView },
    FindBookings { customer_id: Seq<char> },
    InsertPurchase { purchase: PurchaseView },
    FindPurchases { customer_id: Seq<char> },
    IncrementDownloads { product: Seq<u8> },
    InsertReview { review: ReviewView },
    FindReviews { item_id: Seq<char>, item_type: Seq<char>, newest_first: bool },
    SetRating { kind: ItemKind, id: Seq<u8>, rating: MeanView },
    CreateIndex { collection: Collection, index: IndexView },
    CreateIndexes { collection: Collection, indexes: Seq<IndexView> },
}

impl View for StoreRequest {
    type V = StoreRequestView;

    open spec fn view(&self) -> StoreRequestView {
        match self {
            StoreRequest::FindUserByEmail { email } => StoreRequestView::FindUserByEmail {
                email: email@,
            },
            StoreRequest::InsertUser { user } => StoreRequestView::InsertUser { user: user@ },
            StoreRequest::FindServices { query } => StoreRequestView::FindServices {
                query: query@,
            },
            StoreRequest::FindService { id } => StoreRequestView::FindService { id: id@ },
            StoreRequest::InsertService { service } => StoreRequestView::InsertService {
                service: service@,
            },
            StoreRequest::FindProducts { query } => StoreRequestView::FindProducts {
                query: query@,
            },
            StoreRequest::FindProduct { id } => StoreRequestView::FindProduct { id: id@ },
            StoreRequest::InsertProduct { product } => StoreRequestView::InsertProduct {
                product: product@,
            },
            StoreRequest::InsertBooking { booking } => StoreRequestView::InsertBooking {
                booking: booking@,
            },
            StoreRequest::FindBookings { customer_id } => StoreRequestView::FindBookings {
                customer_id: customer_id@,
            },
            StoreRequest::InsertPurchase { purchase } => StoreRequestView::InsertPurchase {
                purchase: purchase@,
            },
            StoreRequest::FindPurchases { customer_id } => StoreRequestView::FindPurchases {
                customer_id: customer_id@,
            },
            StoreRequest::IncrementDownloads { product } => StoreRequestView::IncrementDownloads {
                product: product@,
            },
            StoreRequest::InsertReview { review } => StoreRequestView::InsertReview {
                review: review@,
            },
            StoreRequest::FindReviews {
                item_id,
                item_type,
                newest_first,
            } => StoreRequestView::FindReviews {
                item_id: item_id@,
                item_type: item_type@,
                newest_first: *newest_first,
            },
            StoreRequest::SetRating { kind, id, rating } => StoreRequestView::SetRating {
                kind: *kind,
                id: id@,
                rating: rating@,
            },
            StoreRequest::CreateIndex { collection, index } => StoreRequestView::CreateIndex {
                collection: *collection,
                index: index@,
            },
            StoreRequest::CreateIndexes { collection, indexes } => StoreRequestView::CreateIndexes {
                collection: *collection,
                indexes: indexes.deep_view(),
            },
        }
    }
}

/// The clause that keeps the records whose `field` is exactly `value`.
pub open spec fn equals_clause(field: Field, value: Seq<char>) -> ClauseView {
    ClauseView::Equals { field, value }
}

/// Newest first.
pub open spec fn newest_first() -> Sort {
    Sort { field: Field::CreatedAt, descending: true }
}

impl StoreRequestView {
    /// The collection that the operation works on.
    pub open spec fn collection(self) -> Collection {
        match self {
            StoreRequestView::FindUserByEmail { .. } => Collection::Users,
            StoreRequestView::InsertUser { .. } => Collection::Users,
            StoreRequestView::FindServices { .. } => Collection::Services,
            StoreRequestView::FindService { .. } => Collection::Services,
            StoreRequestView::InsertService { .. } => Collection::Services,
            StoreRequestView::FindProducts { .. } => Collection::Products,
            StoreRequestView::FindProduct { .. } => Collection::Products,
            StoreRequestView::InsertProduct { .. } => Collection::Products,
            StoreRequestView::InsertBooking { .. } => Collection::Bookings,
            StoreRequestView::FindBookings { .. } => Collection::Bookings,
            StoreRequestView::InsertPurchase { .. } => Collection::Purchases,
            StoreRequestView::FindPurchases { .. } => Collection::Purchases,
            StoreRequestView::IncrementDownloads { .. } => Collection::Products,
            StoreRequestView::InsertReview { .. } => Collection::Reviews,
            StoreRequestView::FindReviews { .. } => Collection::Reviews,
            StoreRequestView::SetRating { kind, .. } => kind.collection_spec(),
            StoreRequestView::CreateIndex { collection, .. } => collection,
            StoreRequestView::CreateIndexes { collection, .. } => collection,
        }
    }

    /// The filter of an operation that looks records up by their fields; the
    /// empty filter for every other operation.
    pub open spec fn filter(self) -> Seq<ClauseView> {
        match self {
            StoreRequestView::FindUserByEmail { email } => seq![
                equals_clause(Field::Email, email),
            ],
            StoreRequestView::FindServices { query } => query.clauses(),
            StoreRequestView::FindProducts { query } => query.clauses(),
            StoreRequestView::FindBookings { customer_id } => seq![
                equals_clause(Field::CustomerId, customer_id),
            ],
            StoreRequestView::FindPurchases { customer_id } => seq![
                equals_clause(Field::CustomerId, customer_id),
            ],
            StoreRequestView::FindReviews { item_id, item_type, .. } => seq![
                equals_clause(Field::ItemId, item_id),
                equals_clause(Field::ItemType, item_type),
            ],
            _ => Seq::empty(),
        }
    }

    /// The order in which a listing is asked for, if it asks for one.
    pub open spec fn order(self) -> Option<Sort> {
        match self {
            StoreRequestView::FindProducts { query } => query.order(),
            StoreRequestView::FindBookings { .. } => Some(newest_first()),
            StoreRequestView::FindPurchases { .. } => Some(newest_first()),
            StoreRequestView::FindReviews { newest_first: true, .. } => Some(newest_first()),
            _ => None,
        }
    }
}

/// The filter that holds the one clause `field == value`.
fn one_equals(field: Field, value: &String) -> (filter: Vec<Clause>)
    ensures
        filter.deep_view() == seq![equals_clause(field, value@)],
{
    let mut filter: Vec<Clause> = Vec::new();
    filter.push(Clause::Equals { field, value: value.clone() });
    assert(filter.deep_view() =~= seq![equals_clause(field, value@)]);
    filter
}

impl StoreRequest {
    /// The collection that the operation works on.
    pub fn collection(&self) -> (collection: Collection)
        ensures
            collection == self@.collection(),
    {
        match self {
            StoreRequest::FindUserByEmail { .. } => Collection::Users,
            StoreRequest::InsertUser { .. } => Collection::Users,
            StoreRequest::FindServices { .. } => Collection::Services,
            StoreRequest::FindService { .. } => Collection::Services,
            StoreRequest::InsertService { .. } => Collection::Services,
            StoreRequest::FindProducts { .. } => Collection::Products,
            StoreRequest::FindProduct { .. } => Collection::Products,
            StoreRequest::InsertProduct { .. } => Collection::Products,
            StoreRequest::InsertBooking { .. } => Collection::Bookings,
            StoreRequest::FindBookings { .. } => Collection::Bookings,
            StoreRequest::InsertPurchase { .. } => Collection::Purchases,
            StoreRequest::FindPurchases { .. } => Collection::Purchases,
            StoreRequest::IncrementDownloads { .. } => Collection::Products,
            StoreRequest::InsertReview { .. } => Collection::Reviews,
            StoreRequest::FindReviews { .. } => Collection::Reviews,
            StoreRequest::SetRating { kind, .. } => kind.collection(),
            StoreRequest::CreateIndex { collection, .. } => *collection,
            StoreRequest::CreateIndexes { collection, .. } => *collection,
        }
    }

    /// The filter of an operation that looks records up by their fields; the
    /// empty filter for every other operation.
    pub fn filter(&self) -> (filter: Vec<Clause>)
        ensures
            filter.deep_view() == self@.filter(),
    {
        match self {
            StoreRequest::FindUserByEmail { email } => one_equals(Field::Email, email),
            StoreRequest::FindServices { query } => query.clauses(),
            StoreRequest::FindProducts { query } => query.clauses(),
            StoreRequest::FindBookings { customer_id } => one_equals(
                Field::CustomerId,
                customer_id,
            ),
            StoreRequest::FindPurchases { customer_id } => one_equals(
                Field::CustomerId,
                customer_id,
            ),
            StoreRequest::FindReviews { item_id, item_type, .. } => {
                let mut filter = one_equals(Field::ItemId, item_id);
                push_clause(
                    &mut filter,
                    Clause::Equals { field: Field::ItemType, value: item_type.clone() },
                );
                assert(filter.deep_view() =~= seq![
                    equals_clause(Field::ItemId, item_id@),
                    equals_clause(Field::ItemType, item_type@),
                ]);
                filter
            },
            _ => {
                let filter: Vec<Clause> = Vec::new();
                assert(filter.deep_view() =~= Seq::<ClauseView>::empty());
                filter
            },
        }
    }

    /// The order in which a listing is asked for, if it asks for one.
    pub fn order(&self) -> (sort: Option<Sort>)
        ensures
            sort == self@.order(),
    {
        match self {
            StoreRequest::FindProducts { query } => query.order(),
            StoreRequest::FindBookings { .. } => Some(
                Sort { field: Field::CreatedAt, descending: true },
            ),
            StoreRequest::FindPurchases { .. } => Some(
                Sort { field: Field::CreatedAt, descending: true },
            ),
            StoreRequest::FindReviews { newest_first, .. } => {
                if *newest_first {
                    Some(Sort { field: Field::CreatedAt, descending: true })
                } else {
                    None
                }
            },
            _ => None,
        }
    }
}

/// What became of an operation.
#[derive(Debug, Clone, PartialEq, Eq)]
pub enum StoreAnswer {
    /// The store did not carry the operation out.
    Failed,
    /// The record was inserted.
    Inserted,
    /// The update was applied to the record, if there is one.
    Updated,
    /// The indexes were built.
    Indexed,
    User(Option<User>),
    Service(Option<Service>),
    Product(Option<Product>),
    Services(Vec<Service>),
    Products(Vec<Product>),
    Bookings(Vec<Booking>),
    Purchases(Vec<Purchase>),
    Reviews(Vec<Review>),
}

/// The view of [`StoreAnswer`].
pub enum StoreAnswerView {
    Failed,
    Inserted,
    Updated,
    Indexed,
    User(Option<UserView>),
    Service(Option<ServiceView>),
    Product(Option<ProductView>),
    Services(Seq<ServiceView>),
    Products(Seq<ProductView>),
    Bookings(Seq<BookingView>),
    Purchases(Seq<PurchaseView>),
    Reviews(Seq<ReviewView>),
}

impl View for StoreAnswer {
    type V = StoreAnswerView;

    open spec fn view(&self) -> StoreAnswerView {
        match self {
            StoreAnswer::Failed => StoreAnswerView::Failed,
            StoreAnswer::Inserted => StoreAnswerView::Inserted,
            StoreAnswer::Updated => StoreAnswerView::Updated,
            StoreAnswer::Indexed => StoreAnswerView::Indexed,
            StoreAnswer::User(user) => StoreAnswerView::User(user.deep_view()),
            StoreAnswer::Service(service) => StoreAnswerView::Service(service.deep_view()),
            StoreAnswer::Product(product) => StoreAnswerView::Product(product.deep_view()),
            StoreAnswer::Services(list) => StoreAnswerView::Services(list.deep_view()),
            StoreAnswer::Products(list) => StoreAnswerView::Products(list.deep_view()),
            StoreAnswer::Bookings(list) => StoreAnswerView::Bookings(list.deep_view()),
            StoreAnswer::Purchases(list) => StoreAnswerView::Purchases(list.deep_view()),
            StoreAnswer::Reviews(list) => StoreAnswerView::Reviews(list.deep_view()),
        }
    }
}

} // verus!
