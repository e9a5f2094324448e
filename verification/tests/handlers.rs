use marketplace::db::{init_db, InitDb, InitStep};
use marketplace::error::ApiError;
use marketplace::handlers::auth::{grant, login, signup, signup_with, AuthFlow};
use marketplace::handlers::bookings::{create_booking, get_user_bookings, BookingFlow};
use marketplace::handlers::niche::{get_niche_products, NicheFlow};
use marketplace::handlers::products::{
    create_product, get_product_by_id, get_products, ProductFlow,
};
use marketplace::handlers::purchases::{create_purchase, get_user_purchases, PurchaseFlow};
use marketplace::handlers::reviews::{create_review, get_reviews, ReviewFlow};
use marketplace::handlers::services::{
    create_service, get_service_by_id, get_services, ServiceFlow,
};
use marketplace::http::{request_token, Action, Body, Event, Lag, Reply, Step};
use marketplace::models::{
    AuthResponse, Booking, CreateBookingRequest, CreateProductRequest, CreatePurchaseRequest,
    CreateReviewRequest, CreateServiceRequest, Double, LoginRequest, Product, Purchase, Review,
    Service, SignupRequest, User, UserResponse,
};
use marketplace::oid::ObjectId;
use marketplace::password::{hash_password, password_matches};
use marketplace::query::{
    CategoryFilter, Clause, Field, ProductQuery, ServiceQuery, Sort, SortKey,
};
use marketplace::rating::Mean;
use marketplace::store::{Collection, Index, ItemKind, StoreAnswer, StoreRequest};

const PRODUCT: &str = "507f1f77bcf86cd799439011";

fn text(status: u16, message: &str) -> Reply {
    Reply { status, body: Body::Text(message.to_string()), lag: None }
}

fn status(status: u16, success: bool, message: &str) -> Reply {
    Reply { status, body: Body::Status { success, message: message.to_string() }, lag: None }
}

fn money(amount: f64) -> Double {
    Double { bits: amount.to_bits() }
}

fn product() -> Product {
    Product {
        id: Some(ObjectId::parse_str(PRODUCT).unwrap()),
        seller_id: "seller".to_string(),
        title: "Resume template".to_string(),
        description: "A clean CV".to_string(),
        category: "resume".to_string(),
        price: money(9.99),
        file_type: "pdf".to_string(),
        file_url: "https://files.example/resume.pdf".to_string(),
        icon: Some("icon.png".to_string()),
        rating: Some(money(4.5)),
        downloads: 3,
        created_at: 1,
    }
}

fn service() -> Service {
    Service {
        id: Some(ObjectId::parse_str(PRODUCT).unwrap()),
        provider_id: "provider".to_string(),
        title: "Tutoring".to_string(),
        description: "Maths".to_string(),
        category: "education".to_string(),
        price: money(30.0),
        location: "Paris".to_string(),
        icon: None,
        rating: None,
        created_at: 1,
    }
}

fn review(rating: i32) -> Review {
    Review {
        id: Some(ObjectId { bytes: [rating as u8; 12] }),
        user_id: "u".to_string(),
        item_id: PRODUCT.to_string(),
        item_type: "product".to_string(),
        rating,
        comment: String::new(),
        created_at: 0,
    }
}

fn expect_do<S: std::fmt::Debug>(step: Step<S>) -> (S, Action) {
    match step {
        Step::Do { state, action } => (state, action),
        other => panic!("unexpected step {:?}", other),
    }
}

fn expect_reply<S: std::fmt::Debug>(step: Step<S>) -> Reply {
    match step {
        Step::Reply(reply) => reply,
        other => panic!("unexpected step {:?}", other),
    }
}

fn subject(name: &str) -> Event {
    Event::Subject(Some(name.to_string()))
}

// ---- the token ----

#[test]
fn request_without_authorization_is_refused() {
    assert_eq!(request_token(None), Err(text(401, "Missing authorization")));
}

#[test]
fn request_token_is_what_follows_bearer() {
    assert_eq!(request_token(Some("Bearer abc")), Ok("abc".to_string()));
    assert_eq!(request_token(Some("abc")), Ok(String::new()));
    assert_eq!(request_token(Some("")), Ok(String::new()));
}

#[test]
fn every_guarded_route_refuses_a_request_without_authorization() {
    let missing = text(401, "Missing authorization");
    let purchase = CreatePurchaseRequest {
        product_id: PRODUCT.to_string(),
        payment_method: "card".to_string(),
    };
    assert_eq!(expect_reply(create_purchase(None, purchase)), missing);
    assert_eq!(expect_reply(get_user_purchases(None)), missing);
    assert_eq!(expect_reply(get_user_bookings(None)), missing);
    assert_eq!(expect_reply(create_booking(None, booking_request())), missing);
    assert_eq!(expect_reply(create_review(None, review_request("product"))), missing);
    assert_eq!(expect_reply(create_service(None, service_request())), missing);
    assert_eq!(expect_reply(create_product(None, product_request())), missing);
}

#[test]
fn every_guarded_route_hands_the_token_to_the_token_service() {
    let verify = Action::VerifyToken { token: "tok".to_string() };
    let header = Some("Bearer tok");
    let purchase = CreatePurchaseRequest {
        product_id: PRODUCT.to_string(),
        payment_method: "card".to_string(),
    };
    assert_eq!(expect_do(create_purchase(header, purchase)).1, verify);
    assert_eq!(expect_do(get_user_purchases(header)).1, verify);
    assert_eq!(expect_do(get_user_bookings(header)).1, verify);
    assert_eq!(expect_do(create_booking(header, booking_request())).1, verify);
    assert_eq!(expect_do(create_review(header, review_request("product"))).1, verify);
    assert_eq!(expect_do(create_service(header, service_request())).1, verify);
    assert_eq!(expect_do(create_product(header, product_request())).1, verify);
}

#[test]
fn every_guarded_route_refuses_a_token_that_is_not_accepted() {
    let invalid = text(401, "Invalid token");
    let header = Some("Bearer tok");
    let purchase = CreatePurchaseRequest {
        product_id: PRODUCT.to_string(),
        payment_method: "card".to_string(),
    };
    let (state, _) = expect_do(create_purchase(header, purchase));
    assert_eq!(expect_reply(state.resume(Event::Subject(None))), invalid);
    let (state, _) = expect_do(get_user_purchases(header));
    assert_eq!(expect_reply(state.resume(Event::Subject(None))), invalid);
    let (state, _) = expect_do(get_user_bookings(header));
    assert_eq!(expect_reply(state.resume(Event::Subject(None))), invalid);
    let (state, _) = expect_do(create_booking(header, booking_request()));
    assert_eq!(expect_reply(state.resume(Event::Subject(None))), invalid);
    let (state, _) = expect_do(create_review(header, review_request("product")));
    assert_eq!(expect_reply(state.resume(Event::Subject(None))), invalid);
    let (state, _) = expect_do(create_service(header, service_request()));
    assert_eq!(expect_reply(state.resume(Event::Subject(None))), invalid);
    let (state, _) = expect_do(create_product(header, product_request()));
    assert_eq!(expect_reply(state.resume(Event::Subject(None))), invalid);
}

#[test]
fn header_without_bearer_gives_the_empty_token() {
    assert_eq!(
        expect_do(get_user_bookings(Some("Token tok"))).1,
        Action::VerifyToken { token: String::new() }
    );
}

// ---- purchases ----

fn purchase_up_to_lookup(product_id: &str) -> Step<PurchaseFlow> {
    let request = CreatePurchaseRequest {
        product_id: product_id.to_string(),
        payment_method: "card".to_string(),
    };
    let (state, _) = expect_do(create_purchase(Some("Bearer t"), request));
    state.resume(subject("buyer"))
}

#[test]
fn purchase_is_answered_with_the_download_location() {
    let (state, action) = expect_do(purchase_up_to_lookup(PRODUCT));
    let id = ObjectId::parse_str(PRODUCT).unwrap();
    assert_eq!(action, Action::Store(StoreRequest::FindProduct { id }));
    let (state, action) =
        expect_do(state.resume_at(Event::Store(StoreAnswer::Product(Some(product()))), 99));
    let expected = Purchase {
        id: None,
        customer_id: "buyer".to_string(),
        product_id: PRODUCT.to_string(),
        payment_method: "card".to_string(),
        amount: money(9.99),
        status: "completed".to_string(),
        download_url: "https://files.example/resume.pdf".to_string(),
        created_at: 99,
    };
    assert_eq!(action, Action::Store(StoreRequest::InsertPurchase { purchase: expected }));
    let (state, action) = expect_do(state.resume(Event::Store(StoreAnswer::Inserted)));
    assert_eq!(action, Action::Store(StoreRequest::IncrementDownloads { product: id }));
    let reply = expect_reply(state.resume(Event::Store(StoreAnswer::Updated)));
    assert_eq!(
        reply,
        Reply {
            status: 200,
            body: Body::Purchased {
                success: true,
                message: "Purchase successful".to_string(),
                download_url: "https://files.example/resume.pdf".to_string(),
            },
            lag: None,
        }
    );
}

#[test]
fn purchase_whose_counter_fails_is_answered_alike_and_notes_the_lag() {
    let (state, _) = expect_do(purchase_up_to_lookup(PRODUCT));
    let (state, _) = expect_do(state.resume(Event::Store(StoreAnswer::Product(Some(product())))));
    let (state, _) = expect_do(state.resume(Event::Store(StoreAnswer::Inserted)));
    let reply = expect_reply(state.resume(Event::Store(StoreAnswer::Failed)));
    assert_eq!(reply.status, 200);
    assert_eq!(reply.lag, Some(Lag::Downloads));
    assert_eq!(
        reply.body,
        Body::Purchased {
            success: true,
            message: "Purchase successful".to_string(),
            download_url: "https://files.example/resume.pdf".to_string(),
        }
    );
}

#[test]
fn purchase_with_a_malformed_id_is_a_bad_request() {
    assert_eq!(expect_reply(purchase_up_to_lookup("xyz")), text(400, "Invalid product ID"));
}

#[test]
fn purchase_of_a_missing_product_is_not_found() {
    let (state, _) = expect_do(purchase_up_to_lookup(PRODUCT));
    assert_eq!(
        expect_reply(state.resume(Event::Store(StoreAnswer::Product(None)))),
        text(404, "Product not found")
    );
}

#[test]
fn purchase_whose_lookup_fails_is_a_server_error() {
    let (state, _) = expect_do(purchase_up_to_lookup(PRODUCT));
    assert_eq!(
        expect_reply(state.resume(Event::Store(StoreAnswer::Failed))),
        text(500, "Failed to create purchase")
    );
}

#[test]
fn purchase_that_is_not_inserted_is_a_server_error() {
    let (state, _) = expect_do(purchase_up_to_lookup(PRODUCT));
    let (state, _) = expect_do(state.resume(Event::Store(StoreAnswer::Product(Some(product())))));
    assert_eq!(
        expect_reply(state.resume(Event::Store(StoreAnswer::Failed))),
        text(500, "Failed to create purchase")
    );
}

#[test]
fn purchases_of_the_customer_are_listed() {
    let (state, _) = expect_do(get_user_purchases(Some("Bearer t")));
    let (state, action) = expect_do(state.resume(subject("buyer")));
    assert_eq!(
        action,
        Action::Store(StoreRequest::FindPurchases { customer_id: "buyer".to_string() })
    );
    assert_eq!(
        expect_reply(state.clone().resume(Event::Store(StoreAnswer::Purchases(Vec::new())))),
        Reply { status: 200, body: Body::Purchases(Vec::new()), lag: None }
    );
    assert_eq!(
        expect_reply(state.resume(Event::Store(StoreAnswer::Failed))),
        text(500, "Failed to fetch purchases")
    );
}

// ---- bookings ----

fn booking_request() -> CreateBookingRequest {
    CreateBookingRequest {
        service_id: "s1".to_string(),
        booking_date: "2024-05-01".to_string(),
        booking_time: "10:00".to_string(),
        notes: Some("ring twice".to_string()),
    }
}

#[test]
fn booking_starts_pending() {
    let (state, _) = expect_do(create_booking(Some("Bearer t"), booking_request()));
    let (state, action) = expect_do(state.resume_at(subject("cust"), 1234));
    let expected = Booking {
        id: None,
        customer_id: "cust".to_string(),
        service_id: "s1".to_string(),
        booking_date: "2024-05-01".to_string(),
        booking_time: "10:00".to_string(),
        notes: Some("ring twice".to_string()),
        status: "pending".to_string(),
        created_at: 1234,
    };
    assert_eq!(action, Action::Store(StoreRequest::InsertBooking { booking: expected }));
    assert_eq!(state, BookingFlow::Inserting);
    assert_eq!(
        expect_reply(state.clone().resume(Event::Store(StoreAnswer::Inserted))),
        status(200, true, "Booking created successfully")
    );
    assert_eq!(
        expect_reply(state.resume(Event::Store(StoreAnswer::Failed))),
        text(500, "Failed to create booking")
    );
}

#[test]
fn bookings_of_the_customer_are_listed() {
    let (state, _) = expect_do(get_user_bookings(Some("Bearer t")));
    let (state, action) = expect_do(state.resume(subject("cust")));
    assert_eq!(
        action,
        Action::Store(StoreRequest::FindBookings { customer_id: "cust".to_string() })
    );
    assert_eq!(
        expect_reply(state.clone().resume(Event::Store(StoreAnswer::Bookings(Vec::new())))),
        Reply { status: 200, body: Body::Bookings(Vec::new()), lag: None }
    );
    assert_eq!(
        expect_reply(state.resume(Event::Store(StoreAnswer::Purchases(Vec::new())))),
        text(500, "Failed to fetch bookings")
    );
}

// ---- services ----

fn service_request() -> CreateServiceRequest {
    CreateServiceRequest {
        title: "Tutoring".to_string(),
        description: "Maths".to_string(),
        category: "education".to_string(),
        price: money(30.0),
        location: "Paris".to_string(),
        icon: None,
    }
}

#[test]
fn services_are_listed_by_the_parameters() {
    let (state, action) = expect_do(get_services(
        Some("education".to_string()),
        None,
        Some("math".to_string()),
    ));
    assert_eq!(state, ServiceFlow::Listing);
    let query = ServiceQuery {
        category: Some("education".to_string()),
        location: None,
        search: Some("math".to_string()),
    };
    assert_eq!(action, Action::Store(StoreRequest::FindServices { query }));
    assert_eq!(
        expect_reply(state.clone().resume(Event::Store(StoreAnswer::Services(vec![service()])))),
        Reply { status: 200, body: Body::Services(vec![service()]), lag: None }
    );
    assert_eq!(
        expect_reply(state.resume(Event::Store(StoreAnswer::Failed))),
        text(500, "Failed to fetch services")
    );
}

#[test]
fn service_is_found_by_its_id() {
    let (state, action) = expect_do(get_service_by_id(PRODUCT));
    let id = ObjectId::parse_str(PRODUCT).unwrap();
    assert_eq!(action, Action::Store(StoreRequest::FindService { id }));
    assert_eq!(
        expect_reply(state.clone().resume(Event::Store(StoreAnswer::Service(Some(service()))))),
        Reply { status: 200, body: Body::Service(service()), lag: None }
    );
    assert_eq!(
        expect_reply(state.clone().resume(Event::Store(StoreAnswer::Service(None)))),
        text(404, "Service not found")
    );
    assert_eq!(
        expect_reply(state.resume(Event::Store(StoreAnswer::Failed))),
        text(500, "Failed to fetch service")
    );
    assert_eq!(expect_reply(get_service_by_id("12345")), text(400, "Invalid service ID"));
}

#[test]
fn service_is_created_without_a_rating() {
    let (state, _) = expect_do(create_service(Some("Bearer t"), service_request()));
    let (state, action) = expect_do(state.resume_at(subject("prov"), 55));
    let expected = Service {
        id: None,
        provider_id: "prov".to_string(),
        title: "Tutoring".to_string(),
        description: "Maths".to_string(),
        category: "education".to_string(),
        price: money(30.0),
        location: "Paris".to_string(),
        icon: None,
        rating: None,
        created_at: 55,
    };
    assert_eq!(action, Action::Store(StoreRequest::InsertService { service: expected }));
    assert_eq!(
        expect_reply(state.clone().resume(Event::Store(StoreAnswer::Inserted))),
        status(200, true, "Service created successfully")
    );
    assert_eq!(
        expect_reply(state.resume(Event::Store(StoreAnswer::Failed))),
        text(500, "Failed to create service")
    );
}

// ---- products ----

fn product_request() -> CreateProductRequest {
    CreateProductRequest {
        title: "Resume template".to_string(),
        description: "A clean CV".to_string(),
        category: "resume".to_string(),
        price: money(9.99),
        file_type: "pdf".to_string(),
        file_url: "https://files.example/resume.pdf".to_string(),
        icon: Some("icon.png".to_string()),
    }
}

#[test]
fn products_are_listed_by_the_parameters() {
    let (state, action) = expect_do(get_products(Some("resume".to_string()), None));
    assert_eq!(state, ProductFlow::Listing);
    let query = ProductQuery {
        categories: CategoryFilter::Exactly("resume".to_string()),
        search: None,
        sort: None,
    };
    assert_eq!(action, Action::Store(StoreRequest::FindProducts { query }));
    let (_, action) = expect_do(get_products(None, Some("cv".to_string())));
    let query = ProductQuery {
        categories: CategoryFilter::Any,
        search: Some("cv".to_string()),
        sort: None,
    };
    assert_eq!(action, Action::Store(StoreRequest::FindProducts { query }));
    assert_eq!(
        expect_reply(state.clone().resume(Event::Store(StoreAnswer::Products(vec![product()])))),
        Reply { status: 200, body: Body::Products(vec![product()]), lag: None }
    );
    assert_eq!(
        expect_reply(state.resume(Event::Store(StoreAnswer::Failed))),
        text(500, "Failed to fetch products")
    );
}

#[test]
fn product_is_found_by_its_id() {
    let (state, action) = expect_do(get_product_by_id(PRODUCT));
    let id = ObjectId::parse_str(PRODUCT).unwrap();
    assert_eq!(action, Action::Store(StoreRequest::FindProduct { id }));
    assert_eq!(
        expect_reply(state.clone().resume(Event::Store(StoreAnswer::Product(Some(product()))))),
        Reply { status: 200, body: Body::Product(product()), lag: None }
    );
    assert_eq!(
        expect_reply(state.clone().resume(Event::Store(StoreAnswer::Product(None)))),
        text(404, "Product not found")
    );
    assert_eq!(
        expect_reply(state.resume(Event::Store(StoreAnswer::Failed))),
        text(500, "Failed to fetch product")
    );
    assert_eq!(expect_reply(get_product_by_id("zz")), text(400, "Invalid product ID"));
}

#[test]
fn product_is_created_with_no_download_and_no_rating() {
    let (state, _) = expect_do(create_product(Some("Bearer t"), product_request()));
    let (state, action) = expect_do(state.resume_at(subject("seller"), 56));
    let expected = Product {
        id: None,
        seller_id: "seller".to_string(),
        title: "Resume template".to_string(),
        description: "A clean CV".to_string(),
        category: "resume".to_string(),
        price: money(9.99),
        file_type: "pdf".to_string(),
        file_url: "https://files.example/resume.pdf".to_string(),
        icon: Some("icon.png".to_string()),
        rating: None,
        downloads: 0,
        created_at: 56,
    };
    assert_eq!(action, Action::Store(StoreRequest::InsertProduct { product: expected }));
    assert_eq!(
        expect_reply(state.clone().resume(Event::Store(StoreAnswer::Inserted))),
        status(200, true, "Product created successfully")
    );
    assert_eq!(
        expect_reply(state.resume(Event::Store(StoreAnswer::Failed))),
        text(500, "Failed to create product")
    );
}

// ---- niche ----

#[test]
fn unknown_niche_is_a_bad_request() {
    assert_eq!(
        expect_reply(get_niche_products("unknown", None, None)),
        text(400, "Invalid niche type")
    );
    assert_eq!(
        expect_reply(get_niche_products("", Some("cv".to_string()), Some("recent"))),
        text(400, "Invalid niche type")
    );
}

#[test]
fn resume_niche_with_search_asks_for_its_categories_and_the_pattern() {
    let (state, action) = expect_do(get_niche_products("resume", Some("cv".to_string()), None));
    assert_eq!(state, NicheFlow::Listing);
    let request = match action {
        Action::Store(request) => request,
        other => panic!("unexpected action {:?}", other),
    };
    assert_eq!(
        request,
        StoreRequest::FindProducts {
            query: ProductQuery {
                categories: CategoryFilter::OneOf(vec![
                    "career".to_string(),
                    "resume".to_string(),
                    "cv".to_string()
                ]),
                search: Some("cv".to_string()),
                sort: Some(SortKey::Recent),
            }
        }
    );
    assert_eq!(request.collection(), Collection::Products);
    assert_eq!(
        request.filter(),
        vec![
            Clause::Within {
                field: Field::Category,
                values: vec!["career".to_string(), "resume".to_string(), "cv".to_string()]
            },
            Clause::AnyLike {
                fields: vec![Field::Title, Field::Description],
                pattern: "cv".to_string()
            },
        ]
    );
    assert_eq!(request.order(), Some(Sort { field: Field::CreatedAt, descending: true }));
}

#[test]
fn niche_without_search_filters_by_category_only() {
    let (_, action) = expect_do(get_niche_products("developer", None, Some("price-low")));
    let request = match action {
        Action::Store(request) => request,
        other => panic!("unexpected action {:?}", other),
    };
    assert_eq!(
        request.filter(),
        vec![Clause::Within {
            field: Field::Category,
            values: vec!["development".to_string(), "code".to_string(), "api".to_string()]
        }]
    );
    assert_eq!(request.order(), Some(Sort { field: Field::Price, descending: false }));
}

#[test]
fn niche_sort_words() {
    let order = |word: Option<&str>| match expect_do(get_niche_products("student", None, word)).1 {
        Action::Store(request) => request.order(),
        other => panic!("unexpected action {:?}", other),
    };
    assert_eq!(order(Some("popular")), Some(Sort { field: Field::Downloads, descending: true }));
    assert_eq!(order(Some("recent")), Some(Sort { field: Field::CreatedAt, descending: true }));
    assert_eq!(order(Some("price-high")), Some(Sort { field: Field::Price, descending: true }));
    assert_eq!(order(Some("other")), Some(Sort { field: Field::CreatedAt, descending: true }));
    assert_eq!(order(None), Some(Sort { field: Field::CreatedAt, descending: true }));
}

#[test]
fn niche_products_are_answered_as_a_list() {
    let (state, _) = expect_do(get_niche_products("resume", None, None));
    assert_eq!(
        expect_reply(state.resume(Event::Store(StoreAnswer::Products(vec![product()])))),
        Reply { status: 200, body: Body::Products(vec![product()]), lag: None }
    );
    assert_eq!(
        expect_reply(state.resume(Event::Store(StoreAnswer::Failed))),
        text(500, "Failed to fetch niche products")
    );
}

// ---- reviews ----

fn review_request(item_type: &str) -> CreateReviewRequest {
    CreateReviewRequest {
        item_id: PRODUCT.to_string(),
        item_type: item_type.to_string(),
        rating: 4,
        comment: "good".to_string(),
    }
}

fn review_up_to_insert(item_type: &str) -> (ReviewFlow, Action) {
    let (state, _) = expect_do(create_review(Some("Bearer t"), review_request(item_type)));
    expect_do(state.resume_at(subject("author"), 7))
}

#[test]
fn review_is_recorded_read_again_and_published() {
    let (state, action) = review_up_to_insert("product");
    let sent = Review {
        id: None,
        user_id: "author".to_string(),
        item_id: PRODUCT.to_string(),
        item_type: "product".to_string(),
        rating: 4,
        comment: "good".to_string(),
        created_at: 7,
    };
    assert_eq!(action, Action::Store(StoreRequest::InsertReview { review: sent }));
    let (state, action) = expect_do(state.resume(Event::Store(StoreAnswer::Inserted)));
    assert_eq!(
        action,
        Action::Store(StoreRequest::FindReviews {
            item_id: PRODUCT.to_string(),
            item_type: "product".to_string(),
            newest_first: false
        })
    );
    let all = vec![review(5), review(3), review(4)];
    let (state, action) = expect_do(state.resume(Event::Store(StoreAnswer::Reviews(all))));
    assert_eq!(
        action,
        Action::Store(StoreRequest::SetRating {
            kind: ItemKind::Product,
            id: ObjectId::parse_str(PRODUCT).unwrap(),
            rating: Mean { sum: 12, count: 3 },
        })
    );
    assert_eq!(
        expect_reply(state.resume(Event::Store(StoreAnswer::Updated))),
        status(200, true, "Review created successfully")
    );
}

#[test]
fn review_that_is_not_inserted_is_a_server_error() {
    let (state, _) = review_up_to_insert("product");
    assert_eq!(
        expect_reply(state.resume(Event::Store(StoreAnswer::Failed))),
        text(500, "Failed to create review")
    );
}

#[test]
fn review_is_answered_alike_when_the_mean_is_not_written() {
    let created = status(200, true, "Review created successfully");
    let lagging = Reply { lag: Some(Lag::Rating), ..created.clone() };

    let (state, _) = review_up_to_insert("product");
    let (state, _) = expect_do(state.resume(Event::Store(StoreAnswer::Inserted)));
    assert_eq!(expect_reply(state.resume(Event::Store(StoreAnswer::Failed))), lagging);

    let (state, _) = review_up_to_insert("product");
    let (state, _) = expect_do(state.resume(Event::Store(StoreAnswer::Inserted)));
    let (state, _) = expect_do(state.resume(Event::Store(StoreAnswer::Reviews(vec![review(4)]))));
    assert_eq!(expect_reply(state.resume(Event::Store(StoreAnswer::Failed))), lagging);

    let (state, _) = review_up_to_insert("gadget");
    let (state, _) = expect_do(state.resume(Event::Store(StoreAnswer::Inserted)));
    assert_eq!(
        expect_reply(state.resume(Event::Store(StoreAnswer::Reviews(vec![review(4)])))),
        created
    );
}

#[test]
fn reviews_of_an_item_are_listed_newest_first() {
    let (state, action) = expect_do(get_reviews("service".to_string(), "abc".to_string()));
    assert_eq!(state, ReviewFlow::Listing);
    assert_eq!(
        action,
        Action::Store(StoreRequest::FindReviews {
            item_id: "abc".to_string(),
            item_type: "service".to_string(),
            newest_first: true
        })
    );
    assert_eq!(
        expect_reply(state.clone().resume(Event::Store(StoreAnswer::Reviews(vec![review(2)])))),
        Reply { status: 200, body: Body::Reviews(vec![review(2)]), lag: None }
    );
    assert_eq!(
        expect_reply(state.resume(Event::Store(StoreAnswer::Failed))),
        text(500, "Failed to fetch reviews")
    );
}

// ---- signing up and logging in ----

fn signup_request() -> SignupRequest {
    SignupRequest {
        name: "Ada".to_string(),
        email: "ada@example.org".to_string(),
        password: "s3cret".to_string(),
        user_type: "customer".to_string(),
    }
}

fn stored_user(password: &str) -> User {
    User {
        id: Some(ObjectId::parse_str(PRODUCT).unwrap()),
        name: "Ada".to_string(),
        email: "ada@example.org".to_string(),
        password_hash: hash_password(password).unwrap(),
        user_type: "customer".to_string(),
        created_at: 3,
    }
}

#[test]
fn signup_hashes_the_password_and_looks_the_address_up() {
    let (state, action) = expect_do(signup(signup_request()));
    assert_eq!(
        action,
        Action::Store(StoreRequest::FindUserByEmail { email: "ada@example.org".to_string() })
    );
    match state {
        AuthFlow::CheckingEmail { request, password_hash } => {
            assert_eq!(request, signup_request());
            assert_ne!(password_hash, "s3cret");
            assert!(password_matches("s3cret", &password_hash));
        }
        other => panic!("unexpected state {:?}", other),
    }
}

#[test]
fn signup_without_a_hash_is_a_server_error() {
    assert_eq!(
        expect_reply(signup_with(signup_request(), None)),
        text(500, "Failed to hash password")
    );
}

#[test]
fn signup_inserts_the_user_with_the_hash() {
    let (state, _) = expect_do(signup_with(signup_request(), Some("HASH".to_string())));
    let (state, action) = expect_do(state.resume_at(Event::Store(StoreAnswer::User(None)), 11));
    let expected = User {
        id: None,
        name: "Ada".to_string(),
        email: "ada@example.org".to_string(),
        password_hash: "HASH".to_string(),
        user_type: "customer".to_string(),
        created_at: 11,
    };
    assert_eq!(action, Action::Store(StoreRequest::InsertUser { user: expected }));
    assert_eq!(state, AuthFlow::InsertingUser);
    assert_eq!(
        expect_reply(state.clone().resume(Event::Store(StoreAnswer::Inserted))),
        status(200, true, "User created successfully")
    );
    assert_eq!(
        expect_reply(state.resume(Event::Store(StoreAnswer::Failed))),
        status(500, false, "Failed to create user")
    );
}

#[test]
fn signup_with_a_taken_address_is_refused() {
    let (state, _) = expect_do(signup_with(signup_request(), Some("HASH".to_string())));
    let taken = Event::Store(StoreAnswer::User(Some(stored_user("other"))));
    assert_eq!(expect_reply(state.resume(taken)), status(400, false, "Email already exists"));
}

#[test]
fn signup_goes_on_when_the_lookup_fails() {
    let (state, _) = expect_do(signup_with(signup_request(), Some("HASH".to_string())));
    let (state, action) = expect_do(state.resume(Event::Store(StoreAnswer::Failed)));
    assert_eq!(state, AuthFlow::InsertingUser);
    assert!(matches!(action, Action::Store(StoreRequest::InsertUser { .. })));
}

fn login_request(password: &str) -> LoginRequest {
    LoginRequest { email: "ada@example.org".to_string(), password: password.to_string() }
}

#[test]
fn login_with_the_right_password_gets_a_token_for_the_id() {
    let (state, action) = expect_do(login(login_request("s3cret")));
    assert_eq!(
        action,
        Action::Store(StoreRequest::FindUserByEmail { email: "ada@example.org".to_string() })
    );
    let found = Event::Store(StoreAnswer::User(Some(stored_user("s3cret"))));
    let (state, action) = expect_do(state.resume(found));
    assert_eq!(action, Action::IssueToken { subject: PRODUCT.to_string() });
    let reply = expect_reply(state.resume(Event::Token("jwt".to_string())));
    assert_eq!(
        reply,
        Reply {
            status: 200,
            body: Body::Login(AuthResponse {
                token: "jwt".to_string(),
                user: UserResponse {
                    id: PRODUCT.to_string(),
                    name: "Ada".to_string(),
                    email: "ada@example.org".to_string(),
                    user_type: "customer".to_string(),
                },
            }),
            lag: None,
        }
    );
}

#[test]
fn login_with_a_wrong_password_is_refused() {
    let refused = status(401, false, "Invalid credentials");
    let (state, _) = expect_do(login(login_request("guess")));
    let found = Event::Store(StoreAnswer::User(Some(stored_user("s3cret"))));
    assert_eq!(expect_reply(state.resume(found)), refused);
}

#[test]
fn login_of_an_unknown_address_is_refused_alike() {
    let refused = status(401, false, "Invalid credentials");
    let (state, _) = expect_do(login(login_request("s3cret")));
    assert_eq!(expect_reply(state.clone().resume(Event::Store(StoreAnswer::User(None)))), refused);
    assert_eq!(expect_reply(state.resume(Event::Store(StoreAnswer::Failed))), refused);
}

#[test]
fn login_against_an_unreadable_hash_is_refused() {
    let mut user = stored_user("s3cret");
    user.password_hash = "s3cret".to_string();
    let (state, _) = expect_do(login(login_request("s3cret")));
    assert_eq!(
        expect_reply(state.resume(Event::Store(StoreAnswer::User(Some(user))))),
        status(401, false, "Invalid credentials")
    );
}

#[test]
fn grant_follows_the_check_of_the_password() {
    let user = stored_user("pw");
    assert_eq!(
        expect_reply(grant(user.clone(), false)),
        status(401, false, "Invalid credentials")
    );
    let (state, action) = expect_do(grant(user, true));
    assert_eq!(action, Action::IssueToken { subject: PRODUCT.to_string() });
    assert_eq!(
        state,
        AuthFlow::IssuingToken {
            user: UserResponse {
                id: PRODUCT.to_string(),
                name: "Ada".to_string(),
                email: "ada@example.org".to_string(),
                user_type: "customer".to_string(),
            }
        }
    );
}

// ---- the indexes ----

fn on(key: Field) -> Index {
    Index { keys: vec![key], unique: false }
}

#[test]
fn indexes_are_built_collection_by_collection() {
    let mut step = init_db();
    let mut asked: Vec<StoreRequest> = Vec::new();
    loop {
        step = match step {
            InitStep::Ask { state, request } => {
                asked.push(request);
                state.resume(StoreAnswer::Indexed)
            }
            other => {
                assert_eq!(other, InitStep::Done);
                break;
            }
        };
    }
    assert_eq!(
        asked,
        vec![
            StoreRequest::CreateIndex {
                collection: Collection::Users,
                index: Index { keys: vec![Field::Email], unique: true },
            },
            StoreRequest::CreateIndexes {
                collection: Collection::Services,
                indexes: vec![on(Field::Category), on(Field::Location), on(Field::ProviderId)],
            },
            StoreRequest::CreateIndexes {
                collection: Collection::Products,
                indexes: vec![on(Field::Category), on(Field::SellerId)],
            },
            StoreRequest::CreateIndexes {
                collection: Collection::Bookings,
                indexes: vec![on(Field::CustomerId), on(Field::ServiceId)],
            },
            StoreRequest::CreateIndexes {
                collection: Collection::Purchases,
                indexes: vec![on(Field::CustomerId), on(Field::ProductId)],
            },
            StoreRequest::CreateIndexes {
                collection: Collection::Reviews,
                indexes: vec![
                    Index { keys: vec![Field::ItemId, Field::ItemType], unique: false },
                    on(Field::UserId)
                ],
            },
        ]
    );
}

#[test]
fn index_building_stops_at_the_first_failure() {
    let state = match init_db() {
        InitStep::Ask { state, .. } => state,
        other => panic!("unexpected step {:?}", other),
    };
    assert_eq!(state, InitDb { built: 0 });
    let state = match state.resume(StoreAnswer::Indexed) {
        InitStep::Ask { state, .. } => state,
        other => panic!("unexpected step {:?}", other),
    };
    assert_eq!(state, InitDb { built: 1 });
    assert_eq!(state.resume(StoreAnswer::Failed), InitStep::Failed(ApiError::StorageError));
    assert_eq!(state.resume(StoreAnswer::Inserted), InitStep::Failed(ApiError::StorageError));
}

#[test]
fn index_building_ends_after_the_sixth_collection() {
    assert_eq!(InitDb { built: 5 }.resume(StoreAnswer::Indexed), InitStep::Done);
    assert_eq!(InitDb { built: 200 }.resume(StoreAnswer::Indexed), InitStep::Done);
}
