//! `POST /bookings` and `GET /bookings`.

use crate::clock::now_millis;
use crate::error::ApiError;
use crate::http::{
    authorize, authorizing, invalid_token, refusal, status_reply, Action, ActionView, Body,
    BodyView, Event, EventView, Reply, ReplyView, Step, StepView,
};
use crate::models::{Booking, BookingView, CreateBookingRequest, CreateBookingRequestView};
use crate::store::{StoreAnswer, StoreAnswerView, StoreRequest, StoreRequestView};
use crate::text::owned;
use vstd::prelude::*;

verus! {

/// Where a request on bookings stands.
#[derive(Debug, Clone, PartialEq, Eq)]
pub enum BookingFlow {
    /// A booking was asked for; the token service was asked whose token came
    /// with it.
    Authorizing { request: CreateBookingRequest },
    /// The booking was handed to the store.
    Inserting,
    /// The list of bookings was asked for; the token service was asked whose
    /// token came with the request.
    AuthorizingList,
    /// The store was asked for the bookings of the customer.
    Listing,
}

/// The view of [`BookingFlow`].
pub enum BookingFlowView {
    Authorizing { request: CreateBookingRequestView },
    Inserting,
    AuthorizingList,
    Listing,
}

impl View for BookingFlow {
    type V = BookingFlowView;

    open spec fn view(&self) -> BookingFlowView {
        match self {
            BookingFlow::Authorizing { request } => BookingFlowView::Authorizing {
                request: request@,
            },
            BookingFlow::Inserting => BookingFlowView::Inserting,
            BookingFlow::AuthorizingList => BookingFlowView::AuthorizingList,
            BookingFlow::Listing => BookingFlowView::Listing,
        }
    }
}

/// The booking that `customer_id` makes by `request` at `now`: it has no id
/// yet and is pending.
pub open spec fn new_booking(
    customer_id: Seq<char>,
    request: CreateBookingRequestView,
    now: i64,
) -> BookingView {
    BookingView {
        id: None,
        customer_id,
        service_id: request.service_id,
        booking_date: request.booking_date,
        booking_time: request.booking_time,
        notes: request.notes,
        status: "pending"@,
        created_at: now,
    }
}

/// The first step of `POST /bookings`.
pub open spec fn creating_booking(
    authorization: Option<Seq<char>>,
    request: CreateBookingRequestView,
) -> StepView<BookingFlowView> {
    authorizing(authorization, BookingFlowView::Authorizing { request })
}

/// The first step of `GET /bookings`.
pub open spec fn listing_bookings(authorization: Option<Seq<char>>) -> StepView<BookingFlowView> {
    authorizing(authorization, BookingFlowView::AuthorizingList)
}

impl BookingFlowView {
    /// The step that `event`, received at `now`, leads to.
    pub open spec fn resume(self, event: EventView, now: i64) -> StepView<BookingFlowView> {
        match self {
            BookingFlowView::Authorizing { request } => match event {
                EventView::Subject(Some(subject)) => StepView::Do {
                    state: BookingFlowView::Inserting,
                    action: ActionView::Store(
                        StoreRequestView::InsertBooking {
                            booking: new_booking(subject, request, now),
                        },
                    ),
                },
                _ => StepView::Reply(invalid_token()),
            },
            BookingFlowView::Inserting => match event {
                EventView::Store(StoreAnswerView::Inserted) => StepView::Reply(
                    status_reply(200, true, "Booking created successfully"@),
                ),
                _ => StepView::Reply(refusal(ApiError::StorageError, "Failed to create booking"@)),
            },
            BookingFlowView::AuthorizingList => match event {
                EventView::Subject(Some(subject)) => StepView::Do {
                    state: BookingFlowView::Listing,
                    action: ActionView::Store(
                        StoreRequestView::FindBookings { customer_id: subject },
                    ),
                },
                _ => StepView::Reply(invalid_token()),
            },
            BookingFlowView::Listing => match event {
                EventView::Store(StoreAnswerView::Bookings(list)) => StepView::Reply(
                    ReplyView { status: 200, body: BodyView::Bookings(list), lag: None },
                ),
                _ => StepView::Reply(refusal(ApiError::StorageError, "Failed to fetch bookings"@)),
            },
        }
    }
}

/// Starts `POST /bookings`: a customer books a service.
pub fn create_booking(authorization: Option<&str>, request: CreateBookingRequest) -> (step: Step<
    BookingFlow,
>)
    ensures
        step@ == creating_booking(authorization.deep_view(), request@),
{
    authorize(authorization, BookingFlow::Authorizing { request })
}

/// Starts `GET /bookings`: the bookings of the customer, newest first.
pub fn get_user_bookings(authorization: Option<&str>) -> (step: Step<BookingFlow>)
    ensures
        step@ == listing_bookings(authorization.deep_view()),
{
    authorize(authorization, BookingFlow::AuthorizingList)
}

impl BookingFlow {
    /// Takes the request one step on, with the event that tells of the
    /// action it was waiting on and the time `now` at which it came.
    pub fn resume_at(self, event: Event, now: i64) -> (step: Step<BookingFlow>)
        ensures
            step@ == self@.resume(event@, now),
    {
        match self {
            BookingFlow::Authorizing { request } => match event {
                Event::Subject(Some(subject)) => {
                    let booking = Booking {
                        id: None,
                        customer_id: subject,
                        service_id: request.service_id,
                        booking_date: request.booking_date,
                        booking_time: request.booking_time,
                        notes: request.notes,
                        status: owned("pending"),
                        created_at: now,
                    };
                    Step::Do {
                        state: BookingFlow::Inserting,
                        action: Action::Store(StoreRequest::InsertBooking { booking }),
                    }
                },
                _ => Step::Reply(Reply::refusal(ApiError::Unauthorized, "Invalid token")),
            },
            BookingFlow::Inserting => match event {
                Event::Store(StoreAnswer::Inserted) => Step::Reply(
                    Reply::status(200, true, "Booking created successfully"),
                ),
                _ => Step::Reply(
                    Reply::refusal(ApiError::StorageError, "Failed to create booking"),
                ),
            },
            BookingFlow::AuthorizingList => match event {
                Event::Subject(Some(subject)) => Step::Do {
                    state: BookingFlow::Listing,
                    action: Action::Store(StoreRequest::FindBookings { customer_id: subject }),
                },
                _ => Step::Reply(Reply::refusal(ApiError::Unauthorized, "Invalid token")),
            },
            BookingFlow::Listing => match event {
                Event::Store(StoreAnswer::Bookings(list)) => Step::Reply(
                    Reply { status: 200, body: Body::Bookings(list), lag: None },
                ),
                _ => Step::Reply(
                    Reply::refusal(ApiError::StorageError, "Failed to fetch bookings"),
                ),
            },
        }
    }

    /// Takes the request one step on, with the event that tells of the
    /// action it was waiting on. A booking that this step makes is created
    /// at the time of the call.
    pub fn resume(self, event: Event) -> (step: Step<BookingFlow>)
        ensures
            exists|now: i64| step@ == #[trigger] self@.resume(event@, now),
    {
        let now: i64 = now_millis();
        self.resume_at(event, now)
    }
}

} // verus!
