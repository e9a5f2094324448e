//! `POST /auth/signup` and `POST /auth/login`.

use crate::clock::now_millis;
use crate::error::ApiError;
use crate::http::{
    status_reply, text_reply, Action, ActionView, Body, BodyView, Event, EventView, Reply,
    ReplyView, Step, StepView,
};
use crate::models::{
    AuthResponse, AuthResponseView, LoginRequest, LoginRequestView, SignupRequest,
    SignupRequestView, User, UserResponse, UserResponseView, UserView,
};
use crate::oid::object_id_text;
use crate::password::{accepts, bcrypt_verdict, hash_password, password_matches};
use crate::store::{StoreAnswer, StoreAnswerView, StoreRequest, StoreRequestView};
use vstd::pervasive::unreached;
use vstd::prelude::*;

verus! {

/// Where a request to sign up or to log in stands.
#[derive(Debug, Clone, PartialEq, Eq)]
pub enum AuthFlow {
    /// Signing up: the store was asked for a user with the e-mail address.
    CheckingEmail { request: SignupRequest, password_hash: String },
    /// Signing up: the user was handed to the store.
    InsertingUser,
    /// Logging in: the store was asked for the user with the e-mail address.
    FindingUser { password: String },
    /// Logging in: the password was accepted and a token was asked for.
    IssuingToken { user: UserResponse },
}

/// The view of [`AuthFlow`].
pub enum AuthFlowView {
    CheckingEmail { request: SignupRequestView, password_hash: Seq<char> },
    InsertingUser,
    FindingUser { password: Seq<char> },
    IssuingToken { user: UserResponseView },
}

impl View for AuthFlow {
    type V = AuthFlowView;

    open spec fn view(&self) -> AuthFlowView {
        match self {
            AuthFlow::CheckingEmail { request, password_hash } => AuthFlowView::CheckingEmail {
                request: request@,
                password_hash: password_hash@,
            },
            AuthFlow::InsertingUser => AuthFlowView::InsertingUser,
            AuthFlow::FindingUser { password } => AuthFlowView::FindingUser {
                password: password@,
            },
            AuthFlow::IssuingToken { user } => AuthFlowView::IssuingToken { user: user@ },
        }
    }
}

/// The first step of `POST /auth/signup`, given the hash of the password, or
/// nothing when hashing failed: a failure is answered with 500, and after a
/// success the store is asked whether the e-mail address is taken.
pub open spec fn signing_up(request: SignupRequestView, hash: Option<Seq<char>>) -> StepView<
    AuthFlowView,
> {
    match hash {
        Some(password_hash) => StepView::Do {
            state: AuthFlowView::CheckingEmail { request, password_hash },
            action: ActionView::Store(StoreRequestView::FindUserByEmail { email: request.email }),
        },
        None => StepView::Reply(text_reply(500, "Failed to hash password"@)),
    }
}

/// The first step of `POST /auth/login`: the user with the e-mail address is
/// asked for.
pub open spec fn logging_in(request: LoginRequestView) -> StepView<AuthFlowView> {
    StepView::Do {
        state: AuthFlowView::FindingUser { password: request.password },
        action: ActionView::Store(StoreRequestView::FindUserByEmail { email: request.email }),
    }
}

/// The user that `request` registers at `now`, with the hash of the
/// password: it has no id yet.
pub open spec fn new_user(
    request: SignupRequestView,
    password_hash: Seq<char>,
    now: i64,
) -> UserView {
    UserView {
        id: None,
        name: request.name,
        email: request.email,
        password_hash,
        user_type: request.user_type,
        created_at: now,
    }
}

/// The answer to a login that is refused. It does not tell an unknown e-mail
/// address from a wrong password.
pub open spec fn invalid_credentials() -> ReplyView {
    status_reply(ApiError::Unauthorized.status_code(), false, "Invalid credentials"@)
}

/// What a login discloses of `user`, whose id the store has set.
pub open spec fn disclosed(user: UserView) -> UserResponseView {
    UserResponseView {
        id: object_id_text(user.id.unwrap()),
        name: user.name,
        email: user.email,
        user_type: user.user_type,
    }
}

/// The step that follows the check of the password against the hash that
/// `user` holds: a user whose password matched gets a token for the written
/// form of the id, and any other is refused.
pub open spec fn granting(user: UserView, matched: bool) -> StepView<AuthFlowView> {
    if matched {
        StepView::Do {
            state: AuthFlowView::IssuingToken { user: disclosed(user) },
            action: ActionView::IssueToken { subject: object_id_text(user.id.unwrap()) },
        }
    } else {
        StepView::Reply(invalid_credentials())
    }
}

impl AuthFlowView {
    /// Whether `event` can come in this state: a user that the store returns
    /// has an id.
    pub open spec fn expects(self, event: EventView) -> bool {
        match self {
            AuthFlowView::FindingUser { .. } => event matches EventView::Store(
                StoreAnswerView::User(Some(user)),
            ) ==> user.id is Some,
            _ => true,
        }
    }

    /// The step that `event`, received at `now`, leads to.
    ///
    /// A signup goes on to insert the user unless the store has shown a user
    /// with the e-mail address; a lookup that failed does not stop it. A
    /// login is refused unless the store has shown the user and the password
    /// matches the hash.
    pub open spec fn resume(self, event: EventView, now: i64) -> StepView<AuthFlowView> {
        match self {
            AuthFlowView::CheckingEmail { request, password_hash } => match event {
                EventView::Store(StoreAnswerView::User(Some(_))) => StepView::Reply(
                    status_reply(ApiError::Conflict.status_code(), false, "Email already exists"@),
                ),
                _ => StepView::Do {
                    state: AuthFlowView::InsertingUser,
                    action: ActionView::Store(
                        StoreRequestView::InsertUser {
                            user: new_user(request, password_hash, now),
                        },
                    ),
                },
            },
            AuthFlowView::InsertingUser => match event {
                EventView::Store(StoreAnswerView::Inserted) => StepView::Reply(
                    status_reply(200, true, "User created successfully"@),
                ),
                _ => StepView::Reply(
                    status_reply(
                        ApiError::StorageError.status_code(),
                        false,
                        "Failed to create user"@,
                    ),
                ),
            },
            AuthFlowView::FindingUser { password } => match event {
                EventView::Store(StoreAnswerView::User(Some(user))) => granting(
                    user,
                    accepts(bcrypt_verdict(password, user.password_hash)),
                ),
                _ => StepView::Reply(invalid_credentials()),
            },
            AuthFlowView::IssuingToken { user } => match event {
                EventView::Token(token) => StepView::Reply(
                    ReplyView {
                        status: 200,
                        body: BodyView::Login(AuthResponseView { token, user }),
                        lag: None,
                    },
                ),
                _ => StepView::Reply(invalid_credentials()),
            },
        }
    }
}

/// A signup that goes on with a hash that is accepted for the password of the
/// request hands the store a user who holds that hash, and the name, the
/// address and the kind that the request gives, unless the store has shown a
/// user with the address. The password itself is in neither.
pub proof fn law_signup_keeps_accepted_hash(
    request: SignupRequestView,
    made: Seq<char>,
    event: EventView,
    now: i64,
)
    requires
        accepts(bcrypt_verdict(request.password, made)),
        !(event matches EventView::Store(StoreAnswerView::User(Some(_)))),
    ensures
        signing_up(request, Some(made)) matches StepView::Do { state, .. } && state.resume(
            event,
            now,
        ) == (StepView::Do {
            state: AuthFlowView::InsertingUser,
            action: ActionView::Store(
                StoreRequestView::InsertUser {
                    user: UserView {
                        id: None,
                        name: request.name,
                        email: request.email,
                        password_hash: made,
                        user_type: request.user_type,
                        created_at: now,
                    },
                },
            ),
        }),
{
}

/// Starts `POST /auth/signup`, given the hash of the password, or nothing
/// when hashing failed.
pub fn signup_with(request: SignupRequest, hash: Option<String>) -> (step: Step<AuthFlow>)
    ensures
        step@ == signing_up(request@, hash.deep_view()),
{
    match hash {
        Some(password_hash) => {
            let email = request.email.clone();
            Step::Do {
                state: AuthFlow::CheckingEmail { request, password_hash },
                action: Action::Store(StoreRequest::FindUserByEmail { email }),
            }
        },
        None => Step::Reply(Reply::text(500, "Failed to hash password")),
    }
}

/// Starts `POST /auth/signup`: an account is registered. The password of the
/// request is hashed with a fresh salt first, and the hash that the signup
/// goes on with is one that is accepted for that password.
pub fn signup(request: SignupRequest) -> (step: Step<AuthFlow>)
    ensures
        exists|hash: Option<Seq<char>>|
            {
                &&& step@ == #[trigger] signing_up(request@, hash)
                &&& hash matches Some(made) ==> accepts(
                    bcrypt_verdict(request@.password, made),
                )
            },
{
    let hash = hash_password(request.password.as_str());
    let step = signup_with(request, hash);
    assert(step@ == signing_up(request@, hash.deep_view()));
    step
}

/// Starts `POST /auth/login`.
pub fn login(request: LoginRequest) -> (step: Step<AuthFlow>)
    ensures
        step@ == logging_in(request@),
{
    Step::Do {
        state: AuthFlow::FindingUser { password: request.password },
        action: Action::Store(StoreRequest::FindUserByEmail { email: request.email }),
    }
}

/// The answer to a login that is refused.
fn refuse() -> (reply: Reply)
    ensures
        reply@ == invalid_credentials(),
{
    Reply::status(ApiError::Unauthorized.status(), false, "Invalid credentials")
}

/// The step that follows the check of the password against the hash that
/// `user` holds, `matched` telling how the check went.
pub fn grant(user: User, matched: bool) -> (step: Step<AuthFlow>)
    requires
        user.id is Some,
    ensures
        step@ == granting(user@, matched),
{
    if matched {
        match user.id {
            Some(id) => {
                let subject = id.to_hex();
                let disclosed = UserResponse {
                    id: subject.clone(),
                    name: user.name,
                    email: user.email,
                    user_type: user.user_type,
                };
                Step::Do {
                    state: AuthFlow::IssuingToken { user: disclosed },
                    action: Action::IssueToken { subject },
                }
            },
            None => unreached(),
        }
    } else {
        Step::Reply(refuse())
    }
}

impl AuthFlow {
    /// Takes the request one step on, with the event that tells of the
    /// action it was waiting on and the time `now` at which it came.
    pub fn resume_at(self, event: Event, now: i64) -> (step: Step<AuthFlow>)
        requires
            self@.expects(event@),
        ensures
            step@ == self@.resume(event@, now),
    {
        match self {
            AuthFlow::CheckingEmail { request, password_hash } => match event {
                Event::Store(StoreAnswer::User(Some(_))) => Step::Reply(
                    Reply::status(ApiError::Conflict.status(), false, "Email already exists"),
                ),
                _ => {
                    let user = User {
                        id: None,
                        name: request.name,
                        email: request.email,
                        password_hash,
                        user_type: request.user_type,
                        created_at: now,
                    };
                    Step::Do {
                        state: AuthFlow::InsertingUser,
                        action: Action::Store(StoreRequest::InsertUser { user }),
                    }
                },
            },
            AuthFlow::InsertingUser => match event {
                Event::Store(StoreAnswer::Inserted) => Step::Reply(
                    Reply::status(200, true, "User created successfully"),
                ),
                _ => Step::Reply(
                    Reply::status(ApiError::StorageError.status(), false, "Failed to create user"),
                ),
            },
            AuthFlow::FindingUser { password } => match event {
                Event::Store(StoreAnswer::User(Some(user))) => {
                    let matched = password_matches(password.as_str(), user.password_hash.as_str());
                    grant(user, matched)
                },
                _ => Step::Reply(refuse()),
            },
            AuthFlow::IssuingToken { user } => match event {
                Event::Token(token) => Step::Reply(
                    Reply {
                        status: 200,
                        body: Body::Login(AuthResponse { token, user }),
                        lag: None,
                    },
                ),
                _ => Step::Reply(refuse()),
            },
        }
    }

    /// Takes the request one step on, with the event that tells of the
    /// action it was waiting on. A user that this step makes is created at
    /// the time of the call.
    pub fn resume(self, event: Event) -> (step: Step<AuthFlow>)
        requires
            self@.expects(event@),
        ensures
            exists|now: i64| step@ == #[trigger] self@.resume(event@, now),
    {
        let now: i64 = now_millis();
        self.resume_at(event, now)
    }
}

} // verus!
