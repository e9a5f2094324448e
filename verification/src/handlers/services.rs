//! `GET /services`, `GET /services/{id}` and `POST /services`.

use crate::clock::now_millis;
use crate::error::ApiError;
use crate::http::{
    authorize, authorizing, invalid_token, refusal, status_reply, Action, ActionView, Body,
    BodyView, Event, EventView, Reply, ReplyView, Step, StepView,
};
use crate::models::{CreateServiceRequest, CreateServiceRequestView, Service, ServiceView};
use crate::oid::{is_object_id_text, object_id_bytes, ObjectId};
use crate::query::{ServiceQuery, ServiceQueryView};
use crate::store::{StoreAnswer, StoreAnswerView, StoreRequest, StoreRequestView};
use vstd::prelude::*;

verus! {

/// Where a request on services stands.
#[derive(Debug, Clone, PartialEq, Eq)]
pub enum ServiceFlow {
    /// The store was asked for a list of services.
    Listing,
    /// The store was asked for one service.
    Finding,
    /// A service was sent in; the token service was asked whose token came with
    /// it.
    Authorizing { request: CreateServiceRequest },
    /// The service was handed to the store.
    Inserting,
}

/// The view of [`ServiceFlow`].
pub enum ServiceFlowView {
    Listing,
    Finding,
    Authorizing { request: CreateServiceRequestView },
    Inserting,
}

impl View for ServiceFlow {
    type V = ServiceFlowView;

    open spec fn view(&self) -> ServiceFlowView {
        match self {
            ServiceFlow::Listing => ServiceFlowView::Listing,
            ServiceFlow::Finding => ServiceFlowView::Finding,
            ServiceFlow::Authorizing { request } => ServiceFlowView::Authorizing {
                request: request@,
            },
            ServiceFlow::Inserting => ServiceFlowView::Inserting,
        }
    }
}

/// The service that `owner` offers by `request` at `now`: it has no id yet
/// and no rating.
pub open spec fn new_service(
    owner: Seq<char>,
    request: CreateServiceRequestView,
    now: i64,
) -> ServiceView {
    ServiceView {
        id: None,
        provider_id: owner,
        title: request.title,
        description: request.description,
        category: request.category,
        price: request.price,
        location: request.location,
        icon: request.icon,
        rating: None,
        created_at: now,
    }
}

/// The first step of `GET /services`: the services that the parameters keep.
pub open spec fn listing_services(
    category: Option<Seq<char>>,
    location: Option<Seq<char>>,
    search: Option<Seq<char>>,
) -> StepView<ServiceFlowView> {
    StepView::Do {
        state: ServiceFlowView::Listing,
        action: ActionView::Store(
            StoreRequestView::FindServices {
                query: ServiceQueryView { category, location, search },
            },
        ),
    }
}

/// The first step of `GET /services/{id}`: an id that is not an object id is
/// answered with 400, and the service with any other id is looked up.
pub open spec fn finding_service(id: Seq<char>) -> StepView<ServiceFlowView> {
    if is_object_id_text(id) {
        StepView::Do {
            state: ServiceFlowView::Finding,
            action: ActionView::Store(StoreRequestView::FindService { id: object_id_bytes(id) }),
        }
    } else {
        StepView::Reply(refusal(ApiError::InvalidReference, "Invalid service ID"@))
    }
}

/// The first step of `POST /services`.
pub open spec fn creating_service(
    authorization: Option<Seq<char>>,
    request: CreateServiceRequestView,
) -> StepView<ServiceFlowView> {
    authorizing(authorization, ServiceFlowView::Authorizing { request })
}

impl ServiceFlowView {
    /// The step that `event`, received at `now`, leads to.
    pub open spec fn resume(self, event: EventView, now: i64) -> StepView<ServiceFlowView> {
        match self {
            ServiceFlowView::Listing => match event {
                EventView::Store(StoreAnswerView::Services(list)) => StepView::Reply(
                    ReplyView { status: 200, body: BodyView::Services(list), lag: None },
                ),
                _ => StepView::Reply(refusal(ApiError::StorageError, "Failed to fetch services"@)),
            },
            ServiceFlowView::Finding => match event {
                EventView::Store(StoreAnswerView::Service(Some(service))) => StepView::Reply(
                    ReplyView { status: 200, body: BodyView::Service(service), lag: None },
                ),
                EventView::Store(StoreAnswerView::Service(None)) => StepView::Reply(
                    refusal(ApiError::NotFound, "Service not found"@),
                ),
                _ => StepView::Reply(refusal(ApiError::StorageError, "Failed to fetch service"@)),
            },
            ServiceFlowView::Authorizing { request } => match event {
                EventView::Subject(Some(subject)) => StepView::Do {
                    state: ServiceFlowView::Inserting,
                    action: ActionView::Store(
                        StoreRequestView::InsertService {
                            service: new_service(subject, request, now),
                        },
                    ),
                },
                _ => StepView::Reply(invalid_token()),
            },
            ServiceFlowView::Inserting => match event {
                EventView::Store(StoreAnswerView::Inserted) => StepView::Reply(
                    status_reply(200, true, "Service created successfully"@),
                ),
                _ => StepView::Reply(refusal(ApiError::StorageError, "Failed to create service"@)),
            },
        }
    }
}

/// Starts `GET /services`: the services that the parameters keep.
pub fn get_services(
    category: Option<String>,
    location: Option<String>,
    search: Option<String>,
) -> (step: Step<ServiceFlow>)
    ensures
        step@ == listing_services(category.deep_view(), location.deep_view(), search.deep_view()),
{
    let query = ServiceQuery { category, location, search };
    Step::Do {
        state: ServiceFlow::Listing,
        action: Action::Store(StoreRequest::FindServices { query }),
    }
}

/// Starts `GET /services/{id}`: the service with the id `id`.
pub fn get_service_by_id(id: &str) -> (step: Step<ServiceFlow>)
    ensures
        step@ == finding_service(id@),
{
    match ObjectId::parse_str(id) {
        Ok(id) => Step::Do {
            state: ServiceFlow::Finding,
            action: Action::Store(StoreRequest::FindService { id }),
        },
        Err(_) => Step::Reply(Reply::refusal(ApiError::InvalidReference, "Invalid service ID")),
    }
}

/// Starts `POST /services`: a user offers a service.
pub fn create_service(authorization: Option<&str>, request: CreateServiceRequest) -> (step: Step<
    ServiceFlow,
>)
    ensures
        step@ == creating_service(authorization.deep_view(), request@),
{
    authorize(authorization, ServiceFlow::Authorizing { request })
}

impl ServiceFlow {
    /// Takes the request one step on, with the event that tells of the
    /// action it was waiting on and the time `now` at which it came.
    pub fn resume_at(self, event: Event, now: i64) -> (step: Step<ServiceFlow>)
        ensures
            step@ == self@.resume(event@, now),
    {
        match self {
            ServiceFlow::Listing => match event {
                Event::Store(StoreAnswer::Services(list)) => Step::Reply(
                    Reply { status: 200, body: Body::Services(list), lag: None },
                ),
                _ => Step::Reply(
                    Reply::refusal(ApiError::StorageError, "Failed to fetch services"),
                ),
            },
            ServiceFlow::Finding => match event {
                Event::Store(StoreAnswer::Service(Some(service))) => Step::Reply(
                    Reply { status: 200, body: Body::Service(service), lag: None },
                ),
                Event::Store(StoreAnswer::Service(None)) => Step::Reply(
                    Reply::refusal(ApiError::NotFound, "Service not found"),
                ),
                _ => Step::Reply(Reply::refusal(ApiError::StorageError, "Failed to fetch service")),
            },
            ServiceFlow::Authorizing { request } => match event {
                Event::Subject(Some(subject)) => {
                    let service = Service {
                        id: None,
                        provider_id: subject,
                        title: request.title,
                        description: request.description,
                        category: request.category,
                        price: request.price,
                        location: request.location,
                        icon: request.icon,
                        rating: None,
                        created_at: now,
                    };
                    Step::Do {
                        state: ServiceFlow::Inserting,
                        action: Action::Store(StoreRequest::InsertService { service }),
                    }
                },
                _ => Step::Reply(Reply::refusal(ApiError::Unauthorized, "Invalid token")),
            },
            ServiceFlow::Inserting => match event {
                Event::Store(StoreAnswer::Inserted) => Step::Reply(
                    Reply::status(200, true, "Service created successfully"),
                ),
                _ => Step::Reply(
                    Reply::refusal(ApiError::StorageError, "Failed to create service"),
                ),
            },
        }
    }

    /// Takes the request one step on, with the event that tells of the
    /// action it was waiting on. A service that this step makes is created at
    /// the time of the call.
    pub fn resume(self, event: Event) -> (step: Step<ServiceFlow>)
        ensures
            exists|now: i64| step@ == #[trigger] self@.resume(event@, now),
    {
        let now: i64 = now_millis();
        self.resume_at(event, now)
    }
}

} // verus!
