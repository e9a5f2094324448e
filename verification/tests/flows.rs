use marketplace::aggregation::{
    submit_review, submit_review_at, AggregationStep, Publication, Reviewed,
};
use marketplace::error::ApiError;
use marketplace::models::{Double, Product, Purchase, Review, Service};
use marketplace::oid::ObjectId;
use marketplace::rating::Mean;
use marketplace::settlement::{settle_purchase, take_snapshot, Settled, SettlementStep};
use marketplace::store::{ItemKind, StoreAnswer, StoreRequest};

const PRODUCT: &str = "507f1f77bcf86cd799439011";
const SERVICE: &str = "65a1b2c3d4e5f60718293a4b";
const ABSENT: &str = "000000000000000000000000";

fn money(amount: f64) -> Double {
    Double { bits: amount.to_bits() }
}

fn quotient(mean: Mean) -> f64 {
    mean.sum as f64 / mean.count as f64
}

/// A store in memory that does what the document store does on the requests
/// of settlement and aggregation, and fails on the kinds of request it is
/// told to fail on.
struct Shop {
    products: Vec<Product>,
    services: Vec<Service>,
    purchases: Vec<Purchase>,
    reviews: Vec<Review>,
    asked: Vec<StoreRequest>,
    failing: Vec<&'static str>,
    ids: u8,
}

fn kind_of(request: &StoreRequest) -> &'static str {
    match request {
        StoreRequest::FindProduct { .. } => "find_product",
        StoreRequest::InsertPurchase { .. } => "insert_purchase",
        StoreRequest::IncrementDownloads { .. } => "increment",
        StoreRequest::InsertReview { .. } => "insert_review",
        StoreRequest::FindReviews { .. } => "find_reviews",
        StoreRequest::SetRating { .. } => "set_rating",
        _ => "other",
    }
}

impl Shop {
    fn new() -> Shop {
        let product = Product {
            id: Some(ObjectId::parse_str(PRODUCT).unwrap()),
            seller_id: "seller".to_string(),
            title: "Resume template".to_string(),
            description: "A clean CV".to_string(),
            category: "resume".to_string(),
            price: money(9.99),
            file_type: "pdf".to_string(),
            file_url: "https://files.example/resume.pdf".to_string(),
            icon: None,
            rating: None,
            downloads: 0,
            created_at: 1,
        };
        let service = Service {
            id: Some(ObjectId::parse_str(SERVICE).unwrap()),
            provider_id: "provider".to_string(),
            title: "Tutoring".to_string(),
            description: "Maths".to_string(),
            category: "education".to_string(),
            price: money(30.0),
            location: "Paris".to_string(),
            icon: None,
            rating: None,
            created_at: 1,
        };
        Shop {
            products: vec![product],
            services: vec![service],
            purchases: Vec::new(),
            reviews: Vec::new(),
            asked: Vec::new(),
            failing: Vec::new(),
            ids: 0,
        }
    }

    fn fresh_id(&mut self) -> ObjectId {
        self.ids += 1;
        ObjectId { bytes: [self.ids; 12] }
    }

    fn answer(&mut self, request: StoreRequest) -> StoreAnswer {
        self.asked.push(request.clone());
        if self.failing.contains(&kind_of(&request)) {
            return StoreAnswer::Failed;
        }
        match request {
            StoreRequest::FindProduct { id } => StoreAnswer::Product(
                self.products.iter().find(|p| p.id == Some(id)).cloned(),
            ),
            StoreRequest::InsertPurchase { mut purchase } => {
                purchase.id = Some(self.fresh_id());
                self.purchases.push(purchase);
                StoreAnswer::Inserted
            }
            StoreRequest::IncrementDownloads { product } => {
                for p in self.products.iter_mut().filter(|p| p.id == Some(product)) {
                    p.downloads += 1;
                }
                StoreAnswer::Updated
            }
            StoreRequest::InsertReview { mut review } => {
                review.id = Some(self.fresh_id());
                self.reviews.push(review);
                StoreAnswer::Inserted
            }
            StoreRequest::FindReviews { item_id, item_type, .. } => StoreAnswer::Reviews(
                self.reviews
                    .iter()
                    .filter(|r| r.item_id == item_id && r.item_type == item_type)
                    .cloned()
                    .collect(),
            ),
            StoreRequest::SetRating { kind, id, rating } => {
                let value = Some(money(quotient(rating)));
                match kind {
                    ItemKind::Product => {
                        for p in self.products.iter_mut().filter(|p| p.id == Some(id)) {
                            p.rating = value;
                        }
                    }
                    ItemKind::Service => {
                        for s in self.services.iter_mut().filter(|s| s.id == Some(id)) {
                            s.rating = value;
                        }
                    }
                }
                StoreAnswer::Updated
            }
            _ => StoreAnswer::Failed,
        }
    }

    fn settle(&mut self, buyer: &str, product: &str, payment: &str) -> Result<Settled, ApiError> {
        let mut step = settle_purchase(buyer.to_string(), product.to_string(), payment.to_string());
        loop {
            step = match step {
                SettlementStep::Ask { state, request } => state.resume(self.answer(request)),
                SettlementStep::Done(settled) => return Ok(settled),
                SettlementStep::Failed(error) => return Err(error),
            };
        }
    }

    fn review(
        &mut self,
        author: &str,
        item: &str,
        kind: &str,
        rating: i32,
    ) -> Result<Reviewed, ApiError> {
        let mut step = submit_review(
            author.to_string(),
            item.to_string(),
            kind.to_string(),
            rating,
            "fine".to_string(),
        );
        loop {
            step = match step {
                AggregationStep::Ask { state, request } => state.resume(self.answer(request)),
                AggregationStep::Done(reviewed) => return Ok(reviewed),
                AggregationStep::Failed(error) => return Err(error),
            };
        }
    }

    fn product_rating(&self) -> Option<f64> {
        self.products[0].rating.map(|r| f64::from_bits(r.bits))
    }

    fn service_rating(&self) -> Option<f64> {
        self.services[0].rating.map(|r| f64::from_bits(r.bits))
    }

    fn kinds_asked(&self) -> Vec<&'static str> {
        self.asked.iter().map(kind_of).collect()
    }
}

#[test]
fn purchase_amount_is_the_price_at_the_time_of_the_call() {
    let mut shop = Shop::new();
    let settled = shop.settle("buyer", PRODUCT, "card").unwrap();
    shop.products[0].price = money(19.99);
    shop.products[0].file_url = "https://files.example/v2.pdf".to_string();
    assert_eq!(settled.purchase.amount, money(9.99));
    assert_eq!(settled.purchase.download_url, "https://files.example/resume.pdf");
    assert_eq!(shop.purchases.len(), 1);
    assert_eq!(shop.purchases[0].amount, money(9.99));
    assert_eq!(shop.purchases[0].download_url, "https://files.example/resume.pdf");
}

#[test]
fn purchase_after_a_price_change_takes_the_new_price() {
    let mut shop = Shop::new();
    let first = shop.settle("buyer", PRODUCT, "card").unwrap();
    shop.products[0].price = money(19.99);
    let second = shop.settle("buyer", PRODUCT, "card").unwrap();
    assert_eq!(first.purchase.amount, money(9.99));
    assert_eq!(second.purchase.amount, money(19.99));
    assert_eq!(shop.purchases[0].amount, money(9.99));
    assert_eq!(shop.purchases[1].amount, money(19.99));
}

#[test]
fn purchase_records_buyer_product_and_payment() {
    let mut shop = Shop::new();
    let settled = shop.settle("buyer-7", PRODUCT, "paypal").unwrap();
    assert_eq!(settled.purchase.id, None);
    assert_eq!(settled.purchase.customer_id, "buyer-7");
    assert_eq!(settled.purchase.product_id, PRODUCT);
    assert_eq!(settled.purchase.payment_method, "paypal");
    assert_eq!(settled.purchase.status, "completed");
    assert!(settled.counted);
    assert!(settled.purchase.created_at > 1_600_000_000_000);
}

#[test]
fn purchase_keeps_the_product_id_as_it_was_written() {
    let mut shop = Shop::new();
    let upper = PRODUCT.to_uppercase();
    let settled = shop.settle("buyer", &upper, "card").unwrap();
    assert_eq!(settled.purchase.product_id, upper);
    assert_eq!(shop.products[0].downloads, 1);
}

#[test]
fn purchase_asks_for_lookup_insert_and_counter_in_that_order() {
    let mut shop = Shop::new();
    shop.settle("buyer", PRODUCT, "card").unwrap();
    assert_eq!(shop.kinds_asked(), vec!["find_product", "insert_purchase", "increment"]);
    let id = ObjectId::parse_str(PRODUCT).unwrap();
    assert_eq!(shop.asked[0], StoreRequest::FindProduct { id });
    assert_eq!(shop.asked[2], StoreRequest::IncrementDownloads { product: id });
    assert_eq!(shop.products[0].downloads, 1);
}

#[test]
fn purchase_of_a_missing_product_is_not_found_and_records_nothing() {
    let mut shop = Shop::new();
    assert_eq!(shop.settle("buyer", ABSENT, "card"), Err(ApiError::NotFound));
    assert!(shop.purchases.is_empty());
    assert_eq!(shop.kinds_asked(), vec!["find_product"]);
    assert_eq!(shop.products[0].downloads, 0);
}

#[test]
fn purchase_with_a_malformed_id_is_an_invalid_reference() {
    let mut shop = Shop::new();
    assert_eq!(shop.settle("buyer", "not-an-id", "card"), Err(ApiError::InvalidReference));
    assert_eq!(shop.settle("buyer", "", "card"), Err(ApiError::InvalidReference));
    assert!(shop.asked.is_empty());
    assert!(shop.purchases.is_empty());
}

#[test]
fn purchase_whose_lookup_fails_is_a_storage_error() {
    let mut shop = Shop::new();
    shop.failing = vec!["find_product"];
    assert_eq!(shop.settle("buyer", PRODUCT, "card"), Err(ApiError::StorageError));
    assert!(shop.purchases.is_empty());
    assert_eq!(shop.kinds_asked(), vec!["find_product"]);
}

#[test]
fn purchase_that_is_not_inserted_is_a_storage_error_and_counts_nothing() {
    let mut shop = Shop::new();
    shop.failing = vec!["insert_purchase"];
    assert_eq!(shop.settle("buyer", PRODUCT, "card"), Err(ApiError::StorageError));
    assert!(shop.purchases.is_empty());
    assert_eq!(shop.kinds_asked(), vec!["find_product", "insert_purchase"]);
    assert_eq!(shop.products[0].downloads, 0);
}

#[test]
fn purchase_stands_when_the_counter_fails() {
    let mut shop = Shop::new();
    shop.failing = vec!["increment"];
    let settled = shop.settle("buyer", PRODUCT, "card").unwrap();
    assert!(!settled.counted);
    assert_eq!(settled.purchase.amount, money(9.99));
    assert_eq!(shop.purchases.len(), 1);
    assert_eq!(shop.products[0].downloads, 0);
}

#[test]
fn purchases_raise_the_counter_once_each() {
    let mut shop = Shop::new();
    shop.settle("a", PRODUCT, "card").unwrap();
    shop.settle("b", PRODUCT, "card").unwrap();
    shop.settle("c", PRODUCT, "card").unwrap();
    assert_eq!(shop.products[0].downloads, 3);
    assert_eq!(shop.purchases.len(), 3);
}

#[test]
fn settlement_resumed_with_an_unrelated_answer_fails_safely() {
    let id = ObjectId::parse_str(PRODUCT).unwrap();
    let step = settle_purchase("b".to_string(), PRODUCT.to_string(), "card".to_string());
    let state = match step {
        SettlementStep::Ask { state, request } => {
            assert_eq!(request, StoreRequest::FindProduct { id });
            state
        }
        other => panic!("unexpected step {:?}", other),
    };
    assert_eq!(
        state.clone().resume_at(StoreAnswer::Inserted, 5),
        SettlementStep::Failed(ApiError::StorageError)
    );
    assert_eq!(
        state.clone().resume_at(StoreAnswer::Failed, 5),
        SettlementStep::Failed(ApiError::StorageError)
    );
    assert_eq!(
        state.resume_at(StoreAnswer::Product(None), 5),
        SettlementStep::Failed(ApiError::NotFound)
    );
}

#[test]
fn settlement_stamps_the_purchase_with_the_given_time() {
    let shop = Shop::new();
    let step = settle_purchase("b".to_string(), PRODUCT.to_string(), "card".to_string());
    let state = match step {
        SettlementStep::Ask { state, .. } => state,
        other => panic!("unexpected step {:?}", other),
    };
    let found = StoreAnswer::Product(Some(shop.products[0].clone()));
    match state.resume_at(found, 1_700_000_000_123) {
        SettlementStep::Ask { request: StoreRequest::InsertPurchase { purchase }, .. } => {
            assert_eq!(purchase.created_at, 1_700_000_000_123);
            assert_eq!(purchase.amount, money(9.99));
            assert_eq!(purchase.status, "completed");
        }
        other => panic!("unexpected step {:?}", other),
    }
}

#[test]
fn snapshot_copies_price_and_file_location() {
    let shop = Shop::new();
    let purchase = take_snapshot(
        "buyer".to_string(),
        PRODUCT.to_string(),
        "card".to_string(),
        shop.products[0].clone(),
        42,
    );
    assert_eq!(
        purchase,
        Purchase {
            id: None,
            customer_id: "buyer".to_string(),
            product_id: PRODUCT.to_string(),
            payment_method: "card".to_string(),
            amount: money(9.99),
            status: "completed".to_string(),
            download_url: "https://files.example/resume.pdf".to_string(),
            created_at: 42,
        }
    );
}

#[test]
fn first_review_sets_the_rating_to_its_own() {
    let mut shop = Shop::new();
    let reviewed = shop.review("u1", PRODUCT, "product", 4).unwrap();
    assert_eq!(reviewed.publication, Publication::Written(Mean { sum: 4, count: 1 }));
    assert_eq!(shop.product_rating(), Some(4.0));
}

#[test]
fn three_reviews_publish_the_mean_of_all_three() {
    let mut shop = Shop::new();
    shop.review("u1", PRODUCT, "product", 5).unwrap();
    assert_eq!(shop.product_rating(), Some(5.0));
    shop.review("u2", PRODUCT, "product", 3).unwrap();
    assert_eq!(shop.product_rating(), Some(4.0));
    let last = shop.review("u3", PRODUCT, "product", 4).unwrap();
    assert_eq!(last.publication, Publication::Written(Mean { sum: 12, count: 3 }));
    assert_eq!(shop.product_rating(), Some(4.0));
}

#[test]
fn the_last_review_heals_earlier_failures_to_publish() {
    let mut shop = Shop::new();
    shop.failing = vec!["set_rating"];
    let first = shop.review("u1", PRODUCT, "product", 5).unwrap();
    assert_eq!(first.publication, Publication::WriteFailed(Mean { sum: 5, count: 1 }));
    assert_eq!(shop.product_rating(), None);
    shop.failing = vec!["find_reviews"];
    let second = shop.review("u2", PRODUCT, "product", 3).unwrap();
    assert_eq!(second.publication, Publication::ReadFailed);
    assert_eq!(shop.product_rating(), None);
    shop.failing = Vec::new();
    let third = shop.review("u3", PRODUCT, "product", 4).unwrap();
    assert_eq!(third.publication, Publication::Written(Mean { sum: 12, count: 3 }));
    assert_eq!(shop.product_rating(), Some(4.0));
    assert_eq!(shop.reviews.len(), 3);
}

#[test]
fn a_failed_publish_keeps_the_earlier_rating() {
    let mut shop = Shop::new();
    shop.review("u1", PRODUCT, "product", 5).unwrap();
    shop.failing = vec!["set_rating"];
    let second = shop.review("u2", PRODUCT, "product", 1).unwrap();
    assert_eq!(second.publication, Publication::WriteFailed(Mean { sum: 6, count: 2 }));
    assert_eq!(shop.product_rating(), Some(5.0));
    assert_eq!(shop.reviews.len(), 2);
}

#[test]
fn reviews_of_other_items_do_not_count() {
    let mut shop = Shop::new();
    shop.review("u1", SERVICE, "service", 1).unwrap();
    shop.review("u1", PRODUCT, "service", 1).unwrap();
    shop.review("u1", ABSENT, "product", 1).unwrap();
    let reviewed = shop.review("u2", PRODUCT, "product", 5).unwrap();
    assert_eq!(reviewed.publication, Publication::Written(Mean { sum: 5, count: 1 }));
    assert_eq!(shop.product_rating(), Some(5.0));
    assert_eq!(shop.service_rating(), Some(1.0));
}

#[test]
fn review_of_a_service_rates_the_service() {
    let mut shop = Shop::new();
    shop.review("u1", SERVICE, "service", 2).unwrap();
    let reviewed = shop.review("u2", SERVICE, "service", 5).unwrap();
    assert_eq!(reviewed.publication, Publication::Written(Mean { sum: 7, count: 2 }));
    assert_eq!(shop.service_rating(), Some(3.5));
    assert_eq!(shop.product_rating(), None);
    let id = ObjectId::parse_str(SERVICE).unwrap();
    assert_eq!(
        shop.asked.last(),
        Some(&StoreRequest::SetRating {
            kind: ItemKind::Service,
            id,
            rating: Mean { sum: 7, count: 2 }
        })
    );
}

#[test]
fn review_with_an_unknown_type_is_recorded_and_publishes_nothing() {
    let mut shop = Shop::new();
    let reviewed = shop.review("u1", PRODUCT, "booking", 5).unwrap();
    assert_eq!(reviewed.publication, Publication::UnknownKind);
    assert_eq!(shop.reviews.len(), 1);
    assert_eq!(shop.reviews[0].item_type, "booking");
    assert_eq!(shop.kinds_asked(), vec!["insert_review", "find_reviews"]);
    assert_eq!(shop.product_rating(), None);
    assert_eq!(shop.service_rating(), None);
}

#[test]
fn review_type_is_matched_exactly() {
    let mut shop = Shop::new();
    assert_eq!(
        shop.review("u1", PRODUCT, "Product", 5).unwrap().publication,
        Publication::UnknownKind
    );
    assert_eq!(shop.review("u1", PRODUCT, "", 5).unwrap().publication, Publication::UnknownKind);
    assert_eq!(
        shop.review("u1", PRODUCT, "products", 5).unwrap().publication,
        Publication::UnknownKind
    );
    assert_eq!(shop.product_rating(), None);
    assert!(!shop.kinds_asked().contains(&"set_rating"));
}

#[test]
fn review_of_a_malformed_target_is_recorded_and_publishes_nothing() {
    let mut shop = Shop::new();
    let reviewed = shop.review("u1", "no-such-id", "product", 5).unwrap();
    assert_eq!(reviewed.publication, Publication::MalformedTarget);
    assert_eq!(shop.reviews.len(), 1);
    assert_eq!(shop.kinds_asked(), vec!["insert_review", "find_reviews"]);
}

#[test]
fn review_of_a_missing_target_is_recorded_and_written_to_nothing() {
    let mut shop = Shop::new();
    let reviewed = shop.review("u1", ABSENT, "product", 3).unwrap();
    assert_eq!(reviewed.publication, Publication::Written(Mean { sum: 3, count: 1 }));
    assert_eq!(shop.reviews.len(), 1);
    assert_eq!(shop.product_rating(), None);
}

#[test]
fn review_that_is_not_inserted_is_a_storage_error_and_publishes_nothing() {
    let mut shop = Shop::new();
    shop.failing = vec!["insert_review"];
    assert_eq!(shop.review("u1", PRODUCT, "product", 5), Err(ApiError::StorageError));
    assert!(shop.reviews.is_empty());
    assert_eq!(shop.kinds_asked(), vec!["insert_review"]);
    assert_eq!(shop.product_rating(), None);
}

#[test]
fn review_ratings_are_not_confined_to_one_to_five() {
    let mut shop = Shop::new();
    let reviewed = shop.review("u1", PRODUCT, "product", 99).unwrap();
    assert_eq!(reviewed.publication, Publication::Written(Mean { sum: 99, count: 1 }));
    let reviewed = shop.review("u2", PRODUCT, "product", -100).unwrap();
    assert_eq!(reviewed.publication, Publication::Written(Mean { sum: -1, count: 2 }));
    assert_eq!(shop.product_rating(), Some(-0.5));
}

#[test]
fn review_is_recorded_as_it_was_submitted() {
    let step = submit_review_at(
        "author".to_string(),
        PRODUCT.to_string(),
        "product".to_string(),
        5,
        "great".to_string(),
        77,
    );
    let expected = Review {
        id: None,
        user_id: "author".to_string(),
        item_id: PRODUCT.to_string(),
        item_type: "product".to_string(),
        rating: 5,
        comment: "great".to_string(),
        created_at: 77,
    };
    match step {
        AggregationStep::Ask { request, .. } => {
            assert_eq!(request, StoreRequest::InsertReview { review: expected });
        }
        other => panic!("unexpected step {:?}", other),
    }
}

#[test]
fn review_is_stamped_with_the_time_of_the_call() {
    let mut shop = Shop::new();
    let reviewed = shop.review("u1", PRODUCT, "product", 5).unwrap();
    assert!(reviewed.review.created_at > 1_600_000_000_000);
    assert_eq!(reviewed.review.user_id, "u1");
    assert_eq!(reviewed.review.comment, "fine");
}

#[test]
fn reviews_are_read_again_in_the_order_of_the_store() {
    let mut shop = Shop::new();
    shop.review("u1", PRODUCT, "product", 5).unwrap();
    assert_eq!(
        shop.asked[1],
        StoreRequest::FindReviews {
            item_id: PRODUCT.to_string(),
            item_type: "product".to_string(),
            newest_first: false
        }
    );
}

fn step_once(shop: &mut Shop, step: AggregationStep) -> AggregationStep {
    match step {
        AggregationStep::Ask { state, request } => state.resume(shop.answer(request)),
        other => other,
    }
}

fn start(author: &str, rating: i32) -> AggregationStep {
    submit_review(
        author.to_string(),
        PRODUCT.to_string(),
        "product".to_string(),
        rating,
        String::new(),
    )
}

fn written(step: &AggregationStep) -> Mean {
    match step {
        AggregationStep::Done(Reviewed { publication: Publication::Written(mean), .. }) => *mean,
        other => panic!("unexpected step {:?}", other),
    }
}

#[test]
fn concurrent_reviews_settle_on_the_later_write() {
    let mut shop = Shop::new();
    let mut a = start("a", 5);
    let mut b = start("b", 2);
    a = step_once(&mut shop, a); // a is inserted
    a = step_once(&mut shop, a); // a reads: sees a
    b = step_once(&mut shop, b); // b is inserted
    b = step_once(&mut shop, b); // b reads: sees a and b
    b = step_once(&mut shop, b); // b writes 3.5
    assert_eq!(shop.product_rating(), Some(3.5));
    a = step_once(&mut shop, a); // a writes 5
    assert_eq!(written(&a), Mean { sum: 5, count: 1 });
    assert_eq!(written(&b), Mean { sum: 7, count: 2 });
    assert_eq!(shop.product_rating(), Some(5.0));
    assert_eq!(shop.reviews.len(), 2);
}

#[test]
fn concurrent_reviews_in_every_order_settle_on_one_of_the_two_means() {
    // Each schedule says, six times, which of the two aggregations moves.
    let mut schedules: Vec<Vec<bool>> = Vec::new();
    for bits in 0u32..64 {
        let schedule: Vec<bool> = (0..6).map(|i| bits & (1 << i) != 0).collect();
        if schedule.iter().filter(|second| **second).count() == 3 {
            schedules.push(schedule);
        }
    }
    assert_eq!(schedules.len(), 20);
    for schedule in schedules {
        let mut shop = Shop::new();
        let mut a = start("a", 5);
        let mut b = start("b", 2);
        for second in schedule {
            if second {
                b = step_once(&mut shop, b);
            } else {
                a = step_once(&mut shop, a);
            }
        }
        let rating = shop.product_rating().unwrap();
        assert!(rating == quotient(written(&a)) || rating == quotient(written(&b)));
        assert!(written(&a).count >= 1 && written(&b).count >= 1);
        assert!(2.0 <= quotient(written(&a)) && quotient(written(&a)) <= 5.0);
        assert!(2.0 <= quotient(written(&b)) && quotient(written(&b)) <= 5.0);
        assert_eq!(shop.reviews.len(), 2);
    }
}

#[test]
fn concurrent_review_fails_alone_when_its_insertion_is_refused() {
    let mut shop = Shop::new();
    let mut a = start("a", 5);
    let mut b = start("b", 2);
    b = step_once(&mut shop, b); // b is inserted
    shop.failing = vec!["insert_review"];
    a = step_once(&mut shop, a); // a is refused
    shop.failing = Vec::new();
    b = step_once(&mut shop, b); // b reads: sees b
    b = step_once(&mut shop, b); // b writes 2
    assert_eq!(a, AggregationStep::Failed(ApiError::StorageError));
    assert_eq!(written(&b), Mean { sum: 2, count: 1 });
    assert_eq!(shop.product_rating(), Some(2.0));
    assert_eq!(shop.reviews.len(), 1);
}

#[test]
fn mean_lies_between_the_least_and_the_greatest_rating() {
    let mut shop = Shop::new();
    for (author, rating) in [("u1", 1), ("u2", 5), ("u3", 2), ("u4", 5), ("u5", 3)] {
        let mean = match shop.review(author, PRODUCT, "product", rating).unwrap().publication {
            Publication::Written(mean) => mean,
            other => panic!("unexpected publication {:?}", other),
        };
        assert!(mean.count as i128 <= mean.sum && mean.sum <= 5 * mean.count as i128);
    }
    assert_eq!(shop.product_rating(), Some(3.2));
}
