//! The user service as a conversation with a store: each operation is a
//! flow that asks the store one statement at a time and decides, from each
//! answer, what to ask next or how to end. Whoever holds the store runs the
//! statements; the decisions are all here.

use vstd::prelude::*;
use crate::clock::now;
use crate::errors::{
    AppError,
    AppErrorView,
    StoreFailure,
    StoreFailureView,
    failure_detail,
    missing_user_text,
    store_error,
};
use crate::models::{
    CreateUserRequest,
    UpdateUserRequest,
    User,
    UserListQuery,
    UserResponse,
    UserResponseView,
    UserView,
    fresh_id,
    limit_of,
    offset_of,
    opt_user,
    response_of,
    response_views,
    responses_of,
    user_views,
};
use crate::repositories::page_bounds;
use crate::text::opt_text;
use crate::validation::{
    create_failures,
    grammar_accepts,
    grammar_answer,
    html5_email,
    update_failures,
    validate_create_with,
    validate_update_with,
    verdict,
};

verus! {

/// A statement for the user store.
#[derive(Debug, PartialEq, Eq)]
#[allow(inconsistent_fields)]
pub enum UserQuery {
    /// One page of users, newest first.
    SelectPage { limit: i32, offset: i32 },
    /// The user with this identifier.
    SelectById { id: String },
    /// The user with this address.
    SelectByEmail { email: String },
    /// Store this user.
    Insert { user: User },
    /// Set the fields that are present on the user with this identifier,
    /// and set its last-update instant to `now`. A flow asks for this with
    /// an instant that does not lie before the one that the row carries.
    Update { id: String, name: Option<String>, email: Option<String>, now: i64 },
    /// Remove the user with this identifier.
    Delete { id: String },
}

/// The mathematical value of a [`UserQuery`].
#[allow(inconsistent_fields)]
pub enum UserQueryView {
    SelectPage { limit: i32, offset: i32 },
    SelectById { id: Seq<char> },
    SelectByEmail { email: Seq<char> },
    Insert { user: UserView },
    Update { id: Seq<char>, name: Option<Seq<char>>, email: Option<Seq<char>>, now: i64 },
    Delete { id: Seq<char> },
}

impl View for UserQuery {
    type V = UserQueryView;

    open spec fn view(&self) -> UserQueryView {
        match self {
            UserQuery::SelectPage { limit, offset } => UserQueryView::SelectPage {
                limit: *limit,
                offset: *offset,
            },
            UserQuery::SelectById { id } => UserQueryView::SelectById { id: id@ },
            UserQuery::SelectByEmail { email } => UserQueryView::SelectByEmail { email: email@ },
            UserQuery::Insert { user } => UserQueryView::Insert { user: user@ },
            UserQuery::Update { id, name, email, now } => UserQueryView::Update {
                id: id@,
                name: opt_text(*name),
                email: opt_text(*email),
                now: *now,
            },
            UserQuery::Delete { id } => UserQueryView::Delete { id: id@ },
        }
    }
}

/// What the store answered to a statement.
#[derive(Debug, PartialEq, Eq)]
pub enum UserAnswer {
    /// The rows of a page.
    Rows(Vec<User>),
    /// The row that a lookup found, if any.
    Row(Option<User>),
    /// The insert went through.
    Written,
    /// The number of rows that an update or delete affected.
    Affected(u64),
    /// The statement failed.
    Failed(StoreFailure),
}

/// The mathematical value of a [`UserAnswer`].
pub enum UserAnswerView {
    Rows(Seq<UserView>),
    Row(Option<UserView>),
    Written,
    Affected(u64),
    Failed(StoreFailureView),
}

impl View for UserAnswer {
    type V = UserAnswerView;

    open spec fn view(&self) -> UserAnswerView {
        match self {
            UserAnswer::Rows(rows) => UserAnswerView::Rows(user_views(rows@)),
            UserAnswer::Row(row) => UserAnswerView::Row(opt_user(*row)),
            UserAnswer::Written => UserAnswerView::Written,
            UserAnswer::Affected(count) => UserAnswerView::Affected(*count),
            UserAnswer::Failed(failure) => UserAnswerView::Failed(failure@),
        }
    }
}

/// What an operation of the service returns when it succeeds.
#[derive(Debug, PartialEq, Eq)]
pub enum UserReply {
    /// One user.
    User(UserResponse),
    /// A page of users.
    Users(Vec<UserResponse>),
    /// The user is deleted.
    Deleted,
}

/// The mathematical value of a [`UserReply`].
pub enum UserReplyView {
    User(UserResponseView),
    Users(Seq<UserResponseView>),
    Deleted,
}

impl View for UserReply {
    type V = UserReplyView;

    open spec fn view(&self) -> UserReplyView {
        match self {
            UserReply::User(user) => UserReplyView::User(user@),
            UserReply::Users(users) => UserReplyView::Users(response_views(users@)),
            UserReply::Deleted => UserReplyView::Deleted,
        }
    }
}

impl UserReply {
    /// The HTTP status that answers a success: 204 for a deletion, which
    /// has no body, and 200 for every other reply.
    pub fn status_code(&self) -> (r: u16)
        ensures
            r == if self@ is Deleted {
                204u16
            } else {
                200u16
            },
    {
        match self {
            UserReply::Deleted => 204,
            _ => 200,
        }
    }
}

/// What a flow wants next: a statement run, or nothing more.
#[derive(Debug, PartialEq, Eq)]
pub enum UserStep {
    /// Run this statement and come back with the answer.
    Ask(UserQuery),
    /// The operation has ended with this result.
    Done(Result<UserReply, AppError>),
}

/// The mathematical value of a [`UserStep`].
pub enum UserStepView {
    Ask(UserQueryView),
    Done(Result<UserReplyView, AppErrorView>),
}

/// The view of a result of the service.
pub open spec fn reply_result(r: Result<UserReply, AppError>) -> Result<
    UserReplyView,
    AppErrorView,
> {
    match r {
        Ok(reply) => Ok(reply@),
        Err(e) => Err(e@),
    }
}

impl View for UserStep {
    type V = UserStepView;

    open spec fn view(&self) -> UserStepView {
        match self {
            UserStep::Ask(query) => UserStepView::Ask(query@),
            UserStep::Done(result) => UserStepView::Done(reply_result(*result)),
        }
    }
}

/// Where an operation of the service stands.
#[derive(Debug, PartialEq, Eq)]
pub enum UserFlow {
    /// Creating: the request is valid; the owner of its address was asked
    /// for.
    CreateLookup { user: User },
    /// Creating: the address is free; the insert was asked for.
    CreateInsert { user: User },
    /// Updating: the request is valid; the target was asked for.
    UpdateTarget { id: String, name: Option<String>, email: Option<String>, now: i64 },
    /// Updating: the target exists; the owner of the new address was asked
    /// for.
    UpdateOwner { id: String, name: Option<String>, email: Option<String>, now: i64 },
    /// Updating: nothing stands against it; the update was asked for.
    UpdateWrite { id: String },
    /// Updating: the update went through; the row was asked for again.
    UpdateReread { id: String },
    /// Deleting: the delete was asked for.
    DeleteWrite { id: String },
    /// Reading one user: the row was asked for.
    GetRead { id: String },
    /// Listing: the page was asked for.
    ListRead,
    /// The operation has ended.
    Finished,
}

/// The mathematical value of a [`UserFlow`].
pub enum UserFlowView {
    CreateLookup { user: UserView },
    CreateInsert { user: UserView },
    UpdateTarget { id: Seq<char>, name: Option<Seq<char>>, email: Option<Seq<char>>, now: i64 },
    UpdateOwner { id: Seq<char>, name: Option<Seq<char>>, email: Option<Seq<char>>, now: i64 },
    UpdateWrite { id: Seq<char> },
    UpdateReread { id: Seq<char> },
    DeleteWrite { id: Seq<char> },
    GetRead { id: Seq<char> },
    ListRead,
    Finished,
}

impl View for UserFlow {
    type V = UserFlowView;

    open spec fn view(&self) -> UserFlowView {
        match self {
            UserFlow::CreateLookup { user } => UserFlowView::CreateLookup { user: user@ },
            UserFlow::CreateInsert { user } => UserFlowView::CreateInsert { user: user@ },
            UserFlow::UpdateTarget { id, name, email, now } => UserFlowView::UpdateTarget {
                id: id@,
                name: opt_text(*name),
                email: opt_text(*email),
                now: *now,
            },
            UserFlow::UpdateOwner { id, name, email, now } => UserFlowView::UpdateOwner {
                id: id@,
                name: opt_text(*name),
                email: opt_text(*email),
                now: *now,
            },
            UserFlow::UpdateWrite { id } => UserFlowView::UpdateWrite { id: id@ },
            UserFlow::UpdateReread { id } => UserFlowView::UpdateReread { id: id@ },
            UserFlow::DeleteWrite { id } => UserFlowView::DeleteWrite { id: id@ },
            UserFlow::GetRead { id } => UserFlowView::GetRead { id: id@ },
            UserFlow::ListRead => UserFlowView::ListRead,
            UserFlow::Finished => UserFlowView::Finished,
        }
    }
}

/// The words for an answer that does not fit the statement asked.
pub open spec fn unexpected_answer() -> Seq<char> {
    "unexpected answer from the store"@
}

/// The end of a flow with an error.
pub open spec fn ended(e: AppErrorView) -> (UserFlowView, UserStepView) {
    (UserFlowView::Finished, UserStepView::Done(Err(e)))
}

/// The end of a flow with a reply.
pub open spec fn replied(reply: UserReplyView) -> (UserFlowView, UserStepView) {
    (UserFlowView::Finished, UserStepView::Done(Ok(reply)))
}

/// The error for a failed statement that was a write.
pub open spec fn write_error(failure: StoreFailureView) -> AppErrorView {
    match failure {
        StoreFailureView::UniqueViolation => AppErrorView::Conflict,
        StoreFailureView::Other(detail) => AppErrorView::StoreError(detail),
    }
}

/// How many statements a flow may still ask.
pub open spec fn steps_left(flow: UserFlowView) -> nat {
    match flow {
        UserFlowView::CreateLookup { .. } => 2,
        UserFlowView::CreateInsert { .. } => 1,
        UserFlowView::UpdateTarget { .. } => 4,
        UserFlowView::UpdateOwner { .. } => 3,
        UserFlowView::UpdateWrite { .. } => 2,
        UserFlowView::UpdateReread { .. } => 1,
        UserFlowView::DeleteWrite { .. } => 1,
        UserFlowView::GetRead { .. } => 1,
        UserFlowView::ListRead => 1,
        UserFlowView::Finished => 0,
    }
}

/// How creating a user begins: with the failures of the request, or with
/// the lookup of the owner of its address.
pub open spec fn create_started(
    name: Seq<char>,
    email: Seq<char>,
    grammar_ok: bool,
    id: Seq<char>,
    now: i64,
) -> (UserFlowView, UserStepView) {
    let failures = create_failures(name, email, grammar_ok);
    if failures.len() > 0 {
        ended(AppErrorView::ValidationFailed(failures))
    } else {
        (
            UserFlowView::CreateLookup {
                user: UserView { id, name, email, created_at: now, updated_at: now },
            },
            UserStepView::Ask(UserQueryView::SelectByEmail { email }),
        )
    }
}

/// How updating a user begins: with the failures of the request, or with
/// the lookup of the target.
pub open spec fn update_started(
    id: Seq<char>,
    name: Option<Seq<char>>,
    email: Option<Seq<char>>,
    grammar_ok: bool,
    now: i64,
) -> (UserFlowView, UserStepView) {
    let failures = update_failures(name, email, grammar_ok);
    if failures.len() > 0 {
        ended(AppErrorView::ValidationFailed(failures))
    } else {
        (
            UserFlowView::UpdateTarget { id, name, email, now },
            UserStepView::Ask(UserQueryView::SelectById { id }),
        )
    }
}

/// How deleting a user begins.
pub open spec fn delete_started(id: Seq<char>) -> (UserFlowView, UserStepView) {
    (UserFlowView::DeleteWrite { id }, UserStepView::Ask(UserQueryView::Delete { id }))
}

/// How reading a user begins.
pub open spec fn get_started(id: Seq<char>) -> (UserFlowView, UserStepView) {
    (UserFlowView::GetRead { id }, UserStepView::Ask(UserQueryView::SelectById { id }))
}

/// How listing users begins.
pub open spec fn list_started(query: UserListQuery) -> (UserFlowView, UserStepView) {
    (
        UserFlowView::ListRead,
        UserStepView::Ask(
            UserQueryView::SelectPage { limit: limit_of(query), offset: offset_of(query) },
        ),
    )
}

/// The last-update instant that an update at `now` writes over `before`:
/// `now`, unless that lies in the past of `before`.
pub open spec fn refreshed(before: i64, now: i64) -> i64 {
    if now >= before {
        now
    } else {
        before
    }
}

/// How a flow goes on after an answer.
pub open spec fn resumed(flow: UserFlowView, answer: UserAnswerView) -> (
    UserFlowView,
    UserStepView,
) {
    match flow {
        UserFlowView::CreateLookup { user } => match answer {
            UserAnswerView::Row(Some(_)) => ended(AppErrorView::Conflict),
            UserAnswerView::Row(None) => (
                UserFlowView::CreateInsert { user },
                UserStepView::Ask(UserQueryView::Insert { user }),
            ),
            UserAnswerView::Failed(failure) => ended(
                AppErrorView::StoreError(failure_detail(failure)),
            ),
            _ => ended(AppErrorView::Internal(unexpected_answer())),
        },
        UserFlowView::CreateInsert { user } => match answer {
            UserAnswerView::Written => replied(UserReplyView::User(response_of(user))),
            UserAnswerView::Failed(failure) => ended(write_error(failure)),
            _ => ended(AppErrorView::Internal(unexpected_answer())),
        },
        UserFlowView::UpdateTarget { id, name, email, now } => match answer {
            UserAnswerView::Row(Some(target)) => {
                let stamp = refreshed(target.updated_at, now);
                match email {
                    Some(address) => (
                        UserFlowView::UpdateOwner { id, name, email, now: stamp },
                        UserStepView::Ask(UserQueryView::SelectByEmail { email: address }),
                    ),
                    None => (
                        UserFlowView::UpdateWrite { id },
                        UserStepView::Ask(UserQueryView::Update { id, name, email, now: stamp }),
                    ),
                }
            },
            UserAnswerView::Row(None) => ended(AppErrorView::NotFound(missing_user_text(id))),
            UserAnswerView::Failed(failure) => ended(
                AppErrorView::StoreError(failure_detail(failure)),
            ),
            _ => ended(AppErrorView::Internal(unexpected_answer())),
        },
        UserFlowView::UpdateOwner { id, name, email, now } => match answer {
            UserAnswerView::Row(Some(owner)) => if owner.id != id {
                ended(AppErrorView::Conflict)
            } else {
                (
                    UserFlowView::UpdateWrite { id },
                    UserStepView::Ask(UserQueryView::Update { id, name, email, now }),
                )
            },
            UserAnswerView::Row(None) => (
                UserFlowView::UpdateWrite { id },
                UserStepView::Ask(UserQueryView::Update { id, name, email, now }),
            ),
            UserAnswerView::Failed(failure) => ended(
                AppErrorView::StoreError(failure_detail(failure)),
            ),
            _ => ended(AppErrorView::Internal(unexpected_answer())),
        },
        UserFlowView::UpdateWrite { id } => match answer {
            UserAnswerView::Affected(count) => if count == 0 {
                ended(AppErrorView::NotFound(missing_user_text(id)))
            } else {
                (
                    UserFlowView::UpdateReread { id },
                    UserStepView::Ask(UserQueryView::SelectById { id }),
                )
            },
            UserAnswerView::Failed(failure) => ended(write_error(failure)),
            _ => ended(AppErrorView::Internal(unexpected_answer())),
        },
        UserFlowView::UpdateReread { id } => match answer {
            UserAnswerView::Row(Some(user)) => replied(UserReplyView::User(response_of(user))),
            UserAnswerView::Row(None) => ended(AppErrorView::NotFound(missing_user_text(id))),
            UserAnswerView::Failed(failure) => ended(
                AppErrorView::StoreError(failure_detail(failure)),
            ),
            _ => ended(AppErrorView::Internal(unexpected_answer())),
        },
        UserFlowView::DeleteWrite { id } => match answer {
            UserAnswerView::Affected(count) => if count == 0 {
                ended(AppErrorView::NotFound(missing_user_text(id)))
            } else {
                replied(UserReplyView::Deleted)
            },
            UserAnswerView::Failed(failure) => ended(
                AppErrorView::StoreError(failure_detail(failure)),
            ),
            _ => ended(AppErrorView::Internal(unexpected_answer())),
        },
        UserFlowView::GetRead { id } => match answer {
            UserAnswerView::Row(Some(user)) => replied(UserReplyView::User(response_of(user))),
            UserAnswerView::Row(None) => ended(AppErrorView::NotFound(missing_user_text(id))),
            UserAnswerView::Failed(failure) => ended(
                AppErrorView::StoreError(failure_detail(failure)),
            ),
            _ => ended(AppErrorView::Internal(unexpected_answer())),
        },
        UserFlowView::ListRead => match answer {
            UserAnswerView::Rows(rows) => replied(UserReplyView::Users(responses_of(rows))),
            UserAnswerView::Failed(failure) => ended(
                AppErrorView::StoreError(failure_detail(failure)),
            ),
            _ => ended(AppErrorView::Internal(unexpected_answer())),
        },
        UserFlowView::Finished => ended(AppErrorView::Internal(unexpected_answer())),
    }
}

/// Every answer brings a flow nearer to its end.
pub proof fn lemma_flow_advances(flow: UserFlowView, answer: UserAnswerView)
    ensures
        steps_left(resumed(flow, answer).0) < steps_left(flow) || flow == UserFlowView::Finished,
        resumed(flow, answer).1 is Done ==> resumed(flow, answer).0 == UserFlowView::Finished,
{
}

fn end_with(e: AppError) -> (r: (UserFlow, UserStep))
    ensures
        (r.0@, r.1@) == ended(e@),
{
    (UserFlow::Finished, UserStep::Done(Err(e)))
}

fn reply_with(reply: UserReply) -> (r: (UserFlow, UserStep))
    ensures
        (r.0@, r.1@) == replied(reply@),
{
    (UserFlow::Finished, UserStep::Done(Ok(reply)))
}

fn unexpected() -> (r: (UserFlow, UserStep))
    ensures
        (r.0@, r.1@) == ended(AppErrorView::Internal(unexpected_answer())),
{
    end_with(AppError::Internal(String::from_str("unexpected answer from the store")))
}

fn shape_all(users: Vec<User>) -> (r: Vec<UserResponse>)
    ensures
        response_views(r@) == responses_of(user_views(users@)),
{
    let n = users.len();
    let mut out: Vec<UserResponse> = Vec::new();
    let mut i: usize = 0;
    while i < n
        invariant
            i <= n,
            n == users@.len(),
            out@.len() == i,
            forall|j: int| 0 <= j < i ==> (#[trigger] out@[j])@ == response_of(users@[j]@),
        decreases n - i,
    {
        out.push(UserResponse::from(users[i].clone()));
        i += 1;
    }
    proof {
        assert(response_views(out@) =~= responses_of(user_views(users@)));
    }
    out
}

impl UserFlow {
    /// Begins the creation of a user with the identifier `id` at the
    /// instant `now`, given the grammar's answer for the request's address.
    pub fn create(request: CreateUserRequest, grammar_ok: bool, id: String, now: i64) -> (r: (
        UserFlow,
        UserStep,
    ))
        ensures
            (r.0@, r.1@) == create_started(request.name@, request.email@, grammar_ok, id@, now),
    {
        match verdict(validate_create_with(&request, grammar_ok)) {
            Err(e) => end_with(e),
            Ok(_) => {
                let email = request.email.clone();
                let user = User::with_identity(id, request.name, request.email, now);
                (UserFlow::CreateLookup { user }, UserStep::Ask(UserQuery::SelectByEmail { email }))
            },
        }
    }

    /// Begins the creation of a user with a fresh random identifier, now.
    /// Whatever the identifier and the clock turn out to be, the flow begins
    /// as `create` begins for them.
    pub fn create_now(request: CreateUserRequest) -> (r: (UserFlow, UserStep))
        ensures
            exists|id: Seq<char>, at: i64|
                (r.0@, r.1@) == #[trigger] create_started(
                    request.name@,
                    request.email@,
                    html5_email(request.email@),
                    id,
                    at,
                ),
    {
        let grammar_ok = grammar_accepts(request.email.as_str());
        let id = fresh_id();
        let at = now();
        let ghost name = request.name@;
        let ghost email = request.email@;
        let ghost id_text = id@;
        let r = UserFlow::create(request, grammar_ok, id, at);
        proof {
            assert((r.0@, r.1@) == create_started(name, email, html5_email(email), id_text, at));
        }
        r
    }

    /// Begins the update of the user `id`, now.
    pub fn update_now(id: &str, request: UpdateUserRequest) -> (r: (UserFlow, UserStep))
        ensures
            exists|at: i64|
                (r.0@, r.1@) == #[trigger] update_started(
                    id@,
                    opt_text(request.name),
                    opt_text(request.email),
                    grammar_answer(opt_text(request.email)),
                    at,
                ),
    {
        let grammar_ok = match &request.email {
            Some(address) => grammar_accepts(address.as_str()),
            None => true,
        };
        let at = now();
        let ghost name = opt_text(request.name);
        let ghost email = opt_text(request.email);
        let r = UserFlow::update(id, request, grammar_ok, at);
        proof {
            assert((r.0@, r.1@) == update_started(id@, name, email, grammar_answer(email), at));
        }
        r
    }

    /// Begins the update of the user `id` at the instant `now`, given the
    /// grammar's answer for the request's address (ignored where there is
    /// none).
    pub fn update(id: &str, request: UpdateUserRequest, grammar_ok: bool, now: i64) -> (r: (
        UserFlow,
        UserStep,
    ))
        ensures
            (r.0@, r.1@) == update_started(
                id@,
                opt_text(request.name),
                opt_text(request.email),
                grammar_ok,
                now,
            ),
    {
        match verdict(validate_update_with(&request, grammar_ok)) {
            Err(e) => end_with(e),
            Ok(_) => (
                UserFlow::UpdateTarget {
                    id: String::from_str(id),
                    name: request.name,
                    email: request.email,
                    now,
                },
                UserStep::Ask(UserQuery::SelectById { id: String::from_str(id) }),
            ),
        }
    }

    /// Begins the deletion of the user `id`.
    pub fn delete(id: &str) -> (r: (UserFlow, UserStep))
        ensures
            (r.0@, r.1@) == delete_started(id@),
    {
        (
            UserFlow::DeleteWrite { id: String::from_str(id) },
            UserStep::Ask(UserQuery::Delete { id: String::from_str(id) }),
        )
    }

    /// Begins the reading of the user `id`.
    pub fn get(id: &str) -> (r: (UserFlow, UserStep))
        ensures
            (r.0@, r.1@) == get_started(id@),
    {
        (
            UserFlow::GetRead { id: String::from_str(id) },
            UserStep::Ask(UserQuery::SelectById { id: String::from_str(id) }),
        )
    }

    /// Begins the listing of users.
    pub fn list(query: UserListQuery) -> (r: (UserFlow, UserStep))
        ensures
            (r.0@, r.1@) == list_started(query),
    {
        let (limit, offset) = page_bounds(query);
        (UserFlow::ListRead, UserStep::Ask(UserQuery::SelectPage { limit, offset }))
    }

    /// Goes on after the store's answer to the statement that was asked
    /// last: the flow either asks the next statement or ends. A statement
    /// that fails ends the flow: a write that broke the uniqueness of an
    /// address with `Conflict`, anything else with a store error. A flow ends
    /// after at most four statements.
    pub fn resume(self, answer: UserAnswer) -> (r: (UserFlow, UserStep))
        ensures
            (r.0@, r.1@) == resumed(self@, answer@),
            steps_left(r.0@) < steps_left(self@) || self@ == UserFlowView::Finished,
    {
        proof {
            lemma_flow_advances(self@, answer@);
        }
        match self {
            UserFlow::CreateLookup { user } => match answer {
                UserAnswer::Row(Some(_)) => end_with(AppError::Conflict),
                UserAnswer::Row(None) => {
                    let copy = user.clone();
                    (UserFlow::CreateInsert { user }, UserStep::Ask(UserQuery::Insert { user: copy }))
                },
                UserAnswer::Failed(failure) => end_with(store_error(failure)),
                _ => unexpected(),
            },
            UserFlow::CreateInsert { user } => match answer {
                UserAnswer::Written => reply_with(UserReply::User(UserResponse::from(user))),
                UserAnswer::Failed(failure) => end_with(AppError::from_store(failure)),
                _ => unexpected(),
            },
            UserFlow::UpdateTarget { id, name, email, now } => match answer {
                UserAnswer::Row(Some(found)) => {
                    let stamp = if now >= found.updated_at {
                        now
                    } else {
                        found.updated_at
                    };
                    match &email {
                        Some(address) => {
                            let wanted = address.clone();
                            (
                                UserFlow::UpdateOwner { id, name, email, now: stamp },
                                UserStep::Ask(UserQuery::SelectByEmail { email: wanted }),
                            )
                        },
                        None => {
                            let target = id.clone();
                            (
                                UserFlow::UpdateWrite { id },
                                UserStep::Ask(
                                    UserQuery::Update { id: target, name, email, now: stamp },
                                ),
                            )
                        },
                    }
                },
                UserAnswer::Row(None) => end_with(AppError::missing_user(id.as_str())),
                UserAnswer::Failed(failure) => end_with(store_error(failure)),
                _ => unexpected(),
            },
            UserFlow::UpdateOwner { id, name, email, now } => match answer {
                UserAnswer::Row(owner) => {
                    let taken = match &owner {
                        Some(other) => other.id != id,
                        None => false,
                    };
                    if taken {
                        end_with(AppError::Conflict)
                    } else {
                        let target = id.clone();
                        (
                            UserFlow::UpdateWrite { id },
                            UserStep::Ask(UserQuery::Update { id: target, name, email, now }),
                        )
                    }
                },
                UserAnswer::Failed(failure) => end_with(store_error(failure)),
                _ => unexpected(),
            },
            UserFlow::UpdateWrite { id } => match answer {
                UserAnswer::Affected(count) => if count == 0 {
                    end_with(AppError::missing_user(id.as_str()))
                } else {
                    let target = id.clone();
                    (
                        UserFlow::UpdateReread { id },
                        UserStep::Ask(UserQuery::SelectById { id: target }),
                    )
                },
                UserAnswer::Failed(failure) => end_with(AppError::from_store(failure)),
                _ => unexpected(),
            },
            UserFlow::UpdateReread { id } => match answer {
                UserAnswer::Row(Some(user)) => reply_with(UserReply::User(UserResponse::from(user))),
                UserAnswer::Row(None) => end_with(AppError::missing_user(id.as_str())),
                UserAnswer::Failed(failure) => end_with(store_error(failure)),
                _ => unexpected(),
            },
            UserFlow::DeleteWrite { id } => match answer {
                UserAnswer::Affected(count) => if count == 0 {
                    end_with(AppError::missing_user(id.as_str()))
                } else {
                    reply_with(UserReply::Deleted)
                },
                UserAnswer::Failed(failure) => end_with(store_error(failure)),
                _ => unexpected(),
            },
            UserFlow::GetRead { id } => match answer {
                UserAnswer::Row(Some(user)) => reply_with(UserReply::User(UserResponse::from(user))),
                UserAnswer::Row(None) => end_with(AppError::missing_user(id.as_str())),
                UserAnswer::Failed(failure) => end_with(store_error(failure)),
                _ => unexpected(),
            },
            UserFlow::ListRead => match answer {
                UserAnswer::Rows(rows) => reply_with(UserReply::Users(shape_all(rows))),
                UserAnswer::Failed(failure) => end_with(store_error(failure)),
                _ => unexpected(),
            },
            UserFlow::Finished => unexpected(),
        }
    }
}

} // verus!
