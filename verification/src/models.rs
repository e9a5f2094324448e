//! The records that the store holds and the bodies of the requests that make
//! them. Each type has a view in which text is a sequence of characters and an
//! object id is its twelve bytes.

use crate::oid::ObjectId;
use vstd::prelude::*;

verus! {

/// A double-precision number, held as its IEEE 754 bit pattern. Prices and
/// stored ratings are of this type: the library copies and compares them and
/// never computes with them. Two values are equal when their bits are.
#[derive(Debug, Clone, Copy, PartialEq, Eq, Structural)]
pub struct Double {
    pub bits: u64,
}

/// A copy of an optional text.
pub fn clone_text(text: &Option<String>) -> (copy: Option<String>)
    ensures
        copy.deep_view() == text.deep_view(),
{
    match text {
        Some(t) => Some(t.clone()),
        None => None,
    }
}

/// A registered account.
#[derive(Debug, PartialEq, Eq)]
pub struct User {
    pub id: Option<ObjectId>,
    pub name: String,
    pub email: String,
    pub password_hash: String,
    pub user_type: String,
    pub created_at: i64,
}

/// The view of [`User`].
pub struct UserView {
    pub id: Option<Seq<u8>>,
    pub name: Seq<char>,
    pub email: Seq<char>,
    pub password_hash: Seq<char>,
    pub user_type: Seq<char>,
    pub created_at: i64,
}

impl View for User {
    type V = UserView;

    open spec fn view(&self) -> UserView {
        UserView {
            id: self.id.deep_view(),
            name: self.name@,
            email: self.email@,
            password_hash: self.password_hash@,
            user_type: self.user_type@,
            created_at: self.created_at,
        }
    }
}

impl DeepView for User {
    type V = UserView;

    open spec fn deep_view(&self) -> UserView {
        self@
    }
}

impl Clone for User {
    fn clone(&self) -> (copy: Self)
        ensures
            copy@ == self@,
    {
        User {
            id: self.id,
            name: self.name.clone(),
            email: self.email.clone(),
            password_hash: self.password_hash.clone(),
            user_type: self.user_type.clone(),
            created_at: self.created_at,
        }
    }
}

/// The body of a request to register an account.
#[derive(Debug, Clone, PartialEq, Eq)]
pub struct SignupRequest {
    pub name: String,
    pub email: String,
    pub password: String,
    pub user_type: String,
}

/// The view of [`SignupRequest`].
pub struct SignupRequestView {
    pub name: Seq<char>,
    pub email: Seq<char>,
    pub password: Seq<char>,
    pub user_type: Seq<char>,
}

impl View for SignupRequest {
    type V = SignupRequestView;

    open spec fn view(&self) -> SignupRequestView {
        SignupRequestView {
            name: self.name@,
            email: self.email@,
            password: self.password@,
            user_type: self.user_type@,
        }
    }
}

impl DeepView for SignupRequest {
    type V = SignupRequestView;

    open spec fn deep_view(&self) -> SignupRequestView {
        self@
    }
}

/// The body of a request to log in.
#[derive(Debug, Clone, PartialEq, Eq)]
pub struct LoginRequest {
    pub email: String,
    pub password: String,
}

/// The view of [`LoginRequest`].
pub struct LoginRequestView {
    pub email: Seq<char>,
    pub password: Seq<char>,
}

impl View for LoginRequest {
    type V = LoginRequestView;

    open spec fn view(&self) -> LoginRequestView {
        LoginRequestView {
            email: self.email@,
            password: self.password@,
        }
    }
}

impl DeepView for LoginRequest {
    type V = LoginRequestView;

    open spec fn deep_view(&self) -> LoginRequestView {
        self@
    }
}

/// What a login discloses of the account.
#[derive(Debug, Clone, PartialEq, Eq)]
pub struct UserResponse {
    pub id: String,
    pub name: String,
    pub email: String,
    pub user_type: String,
}

/// The view of [`UserResponse`].
pub struct UserResponseView {
    pub id: Seq<char>,
    pub name: Seq<char>,
    pub email: Seq<char>,
    pub user_type: Seq<char>,
}

impl View for UserResponse {
    type V = UserResponseView;

    open spec fn view(&self) -> UserResponseView {
        UserResponseView {
            id: self.id@,
            name: self.name@,
            email: self.email@,
            user_type: self.user_type@,
        }
    }
}

impl DeepView for UserResponse {
    type V = UserResponseView;

    open spec fn deep_view(&self) -> UserResponseView {
        self@
    }
}

/// The answer to a successful login: a token and the account it is bound to.
#[derive(Debug, Clone, PartialEq, Eq)]
pub struct AuthResponse {
    pub token: String,
    pub user: UserResponse,
}

/// The view of [`AuthResponse`].
pub struct AuthResponseView {
    pub token: Seq<char>,
    pub user: UserResponseView,
}

impl View for AuthResponse {
    type V = AuthResponseView;

    open spec fn view(&self) -> AuthResponseView {
        AuthResponseView {
            token: self.token@,
            user: self.user@,
        }
    }
}

impl DeepView for AuthResponse {
    type V = AuthResponseView;

    open spec fn deep_view(&self) -> AuthResponseView {
        self@
    }
}

/// A service on offer.
#[derive(Debug, PartialEq, Eq)]
pub struct Service {
    pub id: Option<ObjectId>,
    pub provider_id: String,
    pub title: String,
    pub description: String,
    pub category: String,
    pub price: Double,
    pub location: String,
    pub icon: Option<String>,
    pub rating: Option<Double>,
    pub created_at: i64,
}

/// The view of [`Service`].
pub struct ServiceView {
    pub id: Option<Seq<u8>>,
    pub provider_id: Seq<char>,
    pub title: Seq<char>,
    pub description: Seq<char>,
    pub category: Seq<char>,
    pub price: Double,
    pub location: Seq<char>,
    pub icon: Option<Seq<char>>,
    pub rating: Option<Double>,
    pub created_at: i64,
}

impl View for Service {
    type V = ServiceView;

    open spec fn view(&self) -> ServiceView {
        ServiceView {
            id: self.id.deep_view(),
            provider_id: self.provider_id@,
            title: self.title@,
            description: self.description@,
            category: self.category@,
            price: self.price,
            location: self.location@,
            icon: self.icon.deep_view(),
            rating: self.rating,
            created_at: self.created_at,
        }
    }
}

impl DeepView for Service {
    type V = ServiceView;

    open spec fn deep_view(&self) -> ServiceView {
        self@
    }
}

impl Clone for Service {
    fn clone(&self) -> (copy: Self)
        ensures
            copy@ == self@,
    {
        Service {
            id: self.id,
            provider_id: self.provider_id.clone(),
            title: self.title.clone(),
            description: self.description.clone(),
            category: self.category.clone(),
            price: self.price,
            location: self.location.clone(),
            icon: clone_text(&self.icon),
            rating: self.rating,
            created_at: self.created_at,
        }
    }
}

/// The body of a request to offer a service.
#[derive(Debug, Clone, PartialEq, Eq)]
pub struct CreateServiceRequest {
    pub title: String,
    pub description: String,
    pub category: String,
    pub price: Double,
    pub location: String,
    pub icon: Option<String>,
}

/// The view of [`CreateServiceRequest`].
pub struct CreateServiceRequestView {
    pub title: Seq<char>,
    pub description: Seq<char>,
    pub category: Seq<char>,
    pub price: Double,
    pub location: Seq<char>,
    pub icon: Option<Seq<char>>,
}

impl View for CreateServiceRequest {
    type V = CreateServiceRequestView;

    open spec fn view(&self) -> CreateServiceRequestView {
        CreateServiceRequestView {
            title: self.title@,
            description: self.description@,
            category: self.category@,
            price: self.price,
            location: self.location@,
            icon: self.icon.deep_view(),
        }
    }
}

impl DeepView for CreateServiceRequest {
    type V = CreateServiceRequestView;

    open spec fn deep_view(&self) -> CreateServiceRequestView {
        self@
    }
}

/// A digital product on offer.
#[derive(Debug, PartialEq, Eq)]
pub struct Product {
    pub id: Option<ObjectId>,
    pub seller_id: String,
    pub title: String,
    pub description: String,
    pub category: String,
    pub price: Double,
    pub file_type: String,
    pub file_url: String,
    pub icon: Option<String>,
    pub rating: Option<Double>,
    pub downloads: i32,
    pub created_at: i64,
}

/// The view of [`Product`].
pub struct ProductView {
    pub id: Option<Seq<u8>>,
    pub seller_id: Seq<char>,
    pub title: Seq<char>,
    pub description: Seq<char>,
    pub category: Seq<char>,
    pub price: Double,
    pub file_type: Seq<char>,
    pub file_url: Seq<char>,
    pub icon: Option<Seq<char>>,
    pub rating: Option<Double>,
    pub downloads: i32,
    pub created_at: i64,
}

impl View for Product {
    type V = ProductView;

    open spec fn view(&self) -> ProductView {
        ProductView {
            id: self.id.deep_view(),
            seller_id: self.seller_id@,
            title: self.title@,
            description: self.description@,
            category: self.category@,
            price: self.price,
            file_type: self.file_type@,
            file_url: self.file_url@,
            icon: self.icon.deep_view(),
            rating: self.rating,
            downloads: self.downloads,
            created_at: self.created_at,
        }
    }
}

impl DeepView for Product {
    type V = ProductView;

    open spec fn deep_view(&self) -> ProductView {
        self@
    }
}

impl Clone for Product {
    fn clone(&self) -> (copy: Self)
        ensures
            copy@ == self@,
    {
        Product {
            id: self.id,
            seller_id: self.seller_id.clone(),
            title: self.title.clone(),
            description: self.description.clone(),
            category: self.category.clone(),
            price: self.price,
            file_type: self.file_type.clone(),
            file_url: self.file_url.clone(),
            icon: clone_text(&self.icon),
            rating: self.rating,
            downloads: self.downloads,
            created_at: self.created_at,
        }
    }
}

/// The body of a request to offer a product.
#[derive(Debug, Clone, PartialEq, Eq)]
pub struct CreateProductRequest {
    pub title: String,
    pub description: String,
    pub category: String,
    pub price: Double,
    pub file_type: String,
    pub file_url: String,
    pub icon: Option<String>,
}

/// The view of [`CreateProductRequest`].
pub struct CreateProductRequestView {
    pub title: Seq<char>,
    pub description: Seq<char>,
    pub category: Seq<char>,
    pub price: Double,
    pub file_type: Seq<char>,
    pub file_url: Seq<char>,
    pub icon: Option<Seq<char>>,
}

impl View for CreateProductRequest {
    type V = CreateProductRequestView;

    open spec fn view(&self) -> CreateProductRequestView {
        CreateProductRequestView {
            title: self.title@,
            description: self.description@,
            category: self.category@,
            price: self.price,
            file_type: self.file_type@,
            file_url: self.file_url@,
            icon: self.icon.deep_view(),
        }
    }
}

impl DeepView for CreateProductRequest {
    type V = CreateProductRequestView;

    open spec fn deep_view(&self) -> CreateProductRequestView {
        self@
    }
}

/// A customer's booking of a service.
#[derive(Debug, PartialEq, Eq)]
pub struct Booking {
    pub id: Option<ObjectId>,
    pub customer_id: String,
    pub service_id: String,
    pub booking_date: String,
    pub booking_time: String,
    pub notes: Option<String>,
    pub status: String,
    pub created_at: i64,
}

/// The view of [`Booking`].
pub struct BookingView {
    pub id: Option<Seq<u8>>,
    pub customer_id: Seq<char>,
    pub service_id: Seq<char>,
    pub booking_date: Seq<char>,
    pub booking_time: Seq<char>,
    pub notes: Option<Seq<char>>,
    pub status: Seq<char>,
    pub created_at: i64,
}

impl View for Booking {
    type V = BookingView;

    open spec fn view(&self) -> BookingView {
        BookingView {
            id: self.id.deep_view(),
            customer_id: self.customer_id@,
            service_id: self.service_id@,
            booking_date: self.booking_date@,
            booking_time: self.booking_time@,
            notes: self.notes.deep_view(),
            status: self.status@,
            created_at: self.created_at,
        }
    }
}

impl DeepView for Booking {
    type V = BookingView;

    open spec fn deep_view(&self) -> BookingView {
        self@
    }
}

impl Clone for Booking {
    fn clone(&self) -> (copy: Self)
        ensures
            copy@ == self@,
    {
        Booking {
            id: self.id,
            customer_id: self.customer_id.clone(),
            service_id: self.service_id.clone(),
            booking_date: self.booking_date.clone(),
            booking_time: self.booking_time.clone(),
            notes: clone_text(&self.notes),
            status: self.status.clone(),
            created_at: self.created_at,
        }
    }
}

/// The body of a request to book a service.
#[derive(Debug, Clone, PartialEq, Eq)]
pub struct CreateBookingRequest {
    pub service_id: String,
    pub booking_date: String,
    pub booking_time: String,
    pub notes: Option<String>,
}

/// The view of [`CreateBookingRequest`].
pub struct CreateBookingRequestView {
    pub service_id: Seq<char>,
    pub booking_date: Seq<char>,
    pub booking_time: Seq<char>,
    pub notes: Option<Seq<char>>,
}

impl View for CreateBookingRequest {
    type V = CreateBookingRequestView;

    open spec fn view(&self) -> CreateBookingRequestView {
        CreateBookingRequestView {
            service_id: self.service_id@,
            booking_date: self.booking_date@,
            booking_time: self.booking_time@,
            notes: self.notes.deep_view(),
        }
    }
}

impl DeepView for CreateBookingRequest {
    type V = CreateBookingRequestView;

    open spec fn deep_view(&self) -> CreateBookingRequestView {
        self@
    }
}

/// The record of a product bought. `amount` and `download_url` are copies of the
/// product's price and file location taken when the purchase was made.
#[derive(Debug, PartialEq, Eq)]
pub struct Purchase {
    pub id: Option<ObjectId>,
    pub customer_id: String,
    pub product_id: String,
    pub payment_method: String,
    pub amount: Double,
    pub status: String,
    pub download_url: String,
    pub created_at: i64,
}

/// The view of [`Purchase`].
pub struct PurchaseView {
    pub id: Option<Seq<u8>>,
    pub customer_id: Seq<char>,
    pub product_id: Seq<char>,
    pub payment_method: Seq<char>,
    pub amount: Double,
    pub status: Seq<char>,
    pub download_url: Seq<char>,
    pub created_at: i64,
}

impl View for Purchase {
    type V = PurchaseView;

    open spec fn view(&self) -> PurchaseView {
        PurchaseView {
            id: self.id.deep_view(),
            customer_id: self.customer_id@,
            product_id: self.product_id@,
            payment_method: self.payment_method@,
            amount: self.amount,
            status: self.status@,
            download_url: self.download_url@,
            created_at: self.created_at,
        }
    }
}

impl DeepView for Purchase {
    type V = PurchaseView;

    open spec fn deep_view(&self) -> PurchaseView {
        self@
    }
}

impl Clone for Purchase {
    fn clone(&self) -> (copy: Self)
        ensures
            copy@ == self@,
    {
        Purchase {
            id: self.id,
            customer_id: self.customer_id.clone(),
            product_id: self.product_id.clone(),
            payment_method: self.payment_method.clone(),
            amount: self.amount,
            status: self.status.clone(),
            download_url: self.download_url.clone(),
            created_at: self.created_at,
        }
    }
}

/// The body of a request to buy a product.
#[derive(Debug, Clone, PartialEq, Eq)]
pub struct CreatePurchaseRequest {
    pub product_id: String,
    pub payment_method: String,
}

/// The view of [`CreatePurchaseRequest`].
pub struct CreatePurchaseRequestView {
    pub product_id: Seq<char>,
    pub payment_method: Seq<char>,
}

impl View for CreatePurchaseRequest {
    type V = CreatePurchaseRequestView;

    open spec fn view(&self) -> CreatePurchaseRequestView {
        CreatePurchaseRequestView {
            product_id: self.product_id@,
            payment_method: self.payment_method@,
        }
    }
}

impl DeepView for CreatePurchaseRequest {
    type V = CreatePurchaseRequestView;

    open spec fn deep_view(&self) -> CreatePurchaseRequestView {
        self@
    }
}

/// A rating and a comment that a user left on a service or a product.
#[derive(Debug, PartialEq, Eq)]
pub struct Review {
    pub id: Option<ObjectId>,
    pub user_id: String,
    pub item_id: String,
    pub item_type: String,
    pub rating: i32,
    pub comment: String,
    pub created_at: i64,
}

/// The view of [`Review`].
pub struct ReviewView {
    pub id: Option<Seq<u8>>,
    pub user_id: Seq<char>,
    pub item_id: Seq<char>,
    pub item_type: Seq<char>,
    pub rating: i32,
    pub comment: Seq<char>,
    pub created_at: i64,
}

impl View for Review {
    type V = ReviewView;

    open spec fn view(&self) -> ReviewView {
        ReviewView {
            id: self.id.deep_view(),
            user_id: self.user_id@,
            item_id: self.item_id@,
            item_type: self.item_type@,
            rating: self.rating,
            comment: self.comment@,
            created_at: self.created_at,
        }
    }
}

impl DeepView for Review {
    type V = ReviewView;

    open spec fn deep_view(&self) -> ReviewView {
        self@
    }
}

impl Clone for Review {
    fn clone(&self) -> (copy: Self)
        ensures
            copy@ == self@,
    {
        Review {
            id: self.id,
            user_id: self.user_id.clone(),
            item_id: self.item_id.clone(),
            item_type: self.item_type.clone(),
            rating: self.rating,
            comment: self.comment.clone(),
            created_at: self.created_at,
        }
    }
}

/// The body of a request to review a service or a product.
#[derive(Debug, Clone, PartialEq, Eq)]
pub struct CreateReviewRequest {
    pub item_id: String,
    pub item_type: String,
    pub rating: i32,
    pub comment: String,
}

/// The view of [`CreateReviewRequest`].
pub struct CreateReviewRequestView {
    pub item_id: Seq<char>,
    pub item_type: Seq<char>,
    pub rating: i32,
    pub comment: Seq<char>,
}

impl View for CreateReviewRequest {
    type V = CreateReviewRequestView;

    open spec fn view(&self) -> CreateReviewRequestView {
        CreateReviewRequestView {
            item_id: self.item_id@,
            item_type: self.item_type@,
            rating: self.rating,
            comment: self.comment@,
        }
    }
}

impl DeepView for CreateReviewRequest {
    type V = CreateReviewRequestView;

    open spec fn deep_view(&self) -> CreateReviewRequestView {
        self@
    }
}

/// The envelope of a JSON answer: whether the request was served, what it
/// produced, and a message.
#[derive(Debug, Clone, PartialEq, Eq)]
pub struct ApiResponse<T> {
    pub success: bool,
    pub data: Option<T>,
    pub message: Option<String>,
}

} // verus!
