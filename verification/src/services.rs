//! The user service: validation, the uniqueness rules that go beyond the
//! store's own, and the shaping of responses.

use vstd::prelude::*;
use crate::clock::now;
use crate::errors::{AppError, AppErrorView, missing_user_text};
use crate::flows::{
    UserFlow,
    UserFlowView,
    UserReply,
    UserReplyView,
    UserStep,
    UserStepView,
    create_started,
    delete_started,
    get_started,
    lemma_flow_advances,
    list_started,
    reply_result,
    resumed,
    steps_left,
    unexpected_answer,
    update_started,
};
use crate::models::{
    CreateUserRequest,
    UpdateUserRequest,
    User,
    UserListQuery,
    UserResponse,
    UserResponseView,
    UserView,
    fresh_id,
    limit_of,
    offset_of,
    response_of,
    response_views,
    responses_of,
};
use crate::repositories::{UserRepository, executed, found, update_result};
use crate::text::opt_text;
use crate::user_table::{
    changed,
    has_email,
    has_id,
    key_in_use,
    lemma_owner,
    lemma_updated_rows,
    lemma_with_id,
    placed,
    position,
    updated_rows,
    well_formed,
    window,
    with_email,
    with_id,
    without_id,
};
use crate::validation::{
    create_failures,
    grammar_accepts,
    grammar_answer,
    html5_email,
    update_failures,
};

verus! {

/// The view of a response result.
pub open spec fn response_result(r: Result<UserResponse, AppError>) -> Result<
    UserResponseView,
    AppErrorView,
> {
    match r {
        Ok(response) => Ok(response@),
        Err(e) => Err(e@),
    }
}

/// The response for a user result.
pub open spec fn shaped(r: Result<UserView, AppErrorView>) -> Result<
    UserResponseView,
    AppErrorView,
> {
    match r {
        Ok(user) => Ok(response_of(user)),
        Err(e) => Err(e),
    }
}

/// What creating a user on `rows` gives: the failures of the request first,
/// then `Conflict` where the address is in use, then a store error where
/// the identifier is, else the new user, created and last updated at `now`.
pub open spec fn create_result(
    rows: Seq<UserView>,
    name: Seq<char>,
    email: Seq<char>,
    grammar_ok: bool,
    id: Seq<char>,
    now: i64,
) -> Result<UserView, AppErrorView> {
    let failures = create_failures(name, email, grammar_ok);
    if failures.len() > 0 {
        Err(AppErrorView::ValidationFailed(failures))
    } else if has_email(rows, email) {
        Err(AppErrorView::Conflict)
    } else if has_id(rows, id) {
        Err(AppErrorView::StoreError(key_in_use()))
    } else {
        Ok(UserView { id, name, email, created_at: now, updated_at: now })
    }
}

/// The rows after creating a user: the new user is placed, or nothing
/// changes.
pub open spec fn rows_after_create(
    rows: Seq<UserView>,
    name: Seq<char>,
    email: Seq<char>,
    grammar_ok: bool,
    id: Seq<char>,
    now: i64,
) -> Seq<UserView> {
    match create_result(rows, name, email, grammar_ok, id, now) {
        Ok(user) => placed(rows, user),
        Err(_) => rows,
    }
}

/// What updating the user `id` on `rows` gives: the failures of the request
/// first, then `NotFound`, then `Conflict` where another user owns the new
/// address, else the changed user.
pub open spec fn change_result(
    rows: Seq<UserView>,
    id: Seq<char>,
    name: Option<Seq<char>>,
    email: Option<Seq<char>>,
    grammar_ok: bool,
    now: i64,
) -> Result<UserView, AppErrorView> {
    let failures = update_failures(name, email, grammar_ok);
    if failures.len() > 0 {
        Err(AppErrorView::ValidationFailed(failures))
    } else {
        update_result(rows, id, name, email, now)
    }
}

/// The rows after updating the user `id`.
pub open spec fn rows_after_change(
    rows: Seq<UserView>,
    id: Seq<char>,
    name: Option<Seq<char>>,
    email: Option<Seq<char>>,
    grammar_ok: bool,
    now: i64,
) -> Seq<UserView> {
    if update_failures(name, email, grammar_ok).len() > 0 {
        rows
    } else {
        updated_rows(rows, id, name, email, now)
    }
}

/// What deleting the user `id` on `rows` gives.
pub open spec fn delete_result(rows: Seq<UserView>, id: Seq<char>) -> Result<(), AppErrorView> {
    if has_id(rows, id) {
        Ok(())
    } else {
        Err(AppErrorView::NotFound(missing_user_text(id)))
    }
}

/// The reply that carries one user, for a result that carries its
/// response.
pub open spec fn as_user(r: Result<UserResponseView, AppErrorView>) -> Result<
    UserReplyView,
    AppErrorView,
> {
    match r {
        Ok(user) => Ok(UserReplyView::User(user)),
        Err(e) => Err(e),
    }
}

/// The reply for a deletion.
pub open spec fn as_deleted(r: Result<(), AppErrorView>) -> Result<UserReplyView, AppErrorView> {
    match r {
        Ok(_) => Ok(UserReplyView::Deleted),
        Err(e) => Err(e),
    }
}

/// What running a flow to its end on `rows` gives: every statement it asks
/// is run on the rows as they then stand, and its answer handed back, until
/// the flow is done.
pub open spec fn driven(flow: UserFlowView, step: UserStepView, rows: Seq<UserView>) -> (
    Result<UserReplyView, AppErrorView>,
    Seq<UserView>,
)
    decreases steps_left(flow), (if step is Ask {
        1nat
    } else {
        0nat
    }),
{
    match step {
        UserStepView::Done(result) => (result, rows),
        UserStepView::Ask(query) => {
            let (rows_after, answer) = executed(rows, query);
            let (next_flow, next_step) = resumed(flow, answer);
            if steps_left(next_flow) < steps_left(flow) || next_step is Done {
                driven(next_flow, next_step, rows_after)
            } else {
                (Err(AppErrorView::Internal(unexpected_answer())), rows_after)
            }
        },
    }
}

/// Creating a user as a flow is creating a user: the flow ends with the
/// result of the creation, on the rows that the creation leaves.
pub proof fn lemma_create_flow(
    rows: Seq<UserView>,
    name: Seq<char>,
    email: Seq<char>,
    grammar_ok: bool,
    id: Seq<char>,
    now: i64,
)
    requires
        well_formed(rows),
    ensures
        ({
            let (flow, step) = create_started(name, email, grammar_ok, id, now);
            driven(flow, step, rows) == (
                as_user(shaped(create_result(rows, name, email, grammar_ok, id, now))),
                rows_after_create(rows, name, email, grammar_ok, id, now),
            )
        }),
{
    reveal_with_fuel(driven, 4);
    let user = UserView { id, name, email, created_at: now, updated_at: now };
    if create_failures(name, email, grammar_ok).len() == 0 {
        if !has_email(rows, email) {
            assert(with_email(rows, email) is None);
        }
    }
}

/// Updating a user as a flow is updating a user.
pub proof fn lemma_update_flow(
    rows: Seq<UserView>,
    id: Seq<char>,
    name: Option<Seq<char>>,
    email: Option<Seq<char>>,
    grammar_ok: bool,
    now: i64,
)
    requires
        well_formed(rows),
    ensures
        ({
            let (flow, step) = update_started(id, name, email, grammar_ok, now);
            driven(flow, step, rows) == (
                as_user(shaped(change_result(rows, id, name, email, grammar_ok, now))),
                rows_after_change(rows, id, name, email, grammar_ok, now),
            )
        }),
{
    reveal_with_fuel(driven, 6);
    if update_failures(name, email, grammar_ok).len() == 0 {
        match email {
            Some(address) => {
                lemma_owner(rows, id, address);
            },
            None => {},
        }
        if has_id(rows, id) {
            let p = position(rows, id);
            lemma_with_id(rows, p);
            let stamp = crate::flows::refreshed(rows[p].updated_at, now);
            lemma_updated_rows(rows, id, name, email, stamp);
            lemma_updated_rows(rows, id, name, email, now);
            assert(changed(rows[p], name, email, stamp) == changed(rows[p], name, email, now));
        }
    }
}

/// Deleting a user as a flow is deleting a user.
pub proof fn lemma_delete_flow(rows: Seq<UserView>, id: Seq<char>)
    ensures
        ({
            let (flow, step) = delete_started(id);
            driven(flow, step, rows) == (as_deleted(delete_result(rows, id)), without_id(rows, id))
        }),
{
    reveal_with_fuel(driven, 3);
}

/// Reading a user as a flow is looking the user up.
pub proof fn lemma_get_flow(rows: Seq<UserView>, id: Seq<char>)
    ensures
        ({
            let (flow, step) = get_started(id);
            driven(flow, step, rows) == (as_user(shaped(found(id, with_id(rows, id)))), rows)
        }),
{
    reveal_with_fuel(driven, 3);
}

/// Listing users as a flow is taking one page of the rows.
pub proof fn lemma_list_flow(rows: Seq<UserView>, query: UserListQuery)
    ensures
        ({
            let (flow, step) = list_started(query);
            driven(flow, step, rows) == (
                Ok::<UserReplyView, AppErrorView>(
                    UserReplyView::Users(
                        responses_of(window(rows, limit_of(query), offset_of(query))),
                    ),
                ),
                rows,
            )
        }),
{
    reveal_with_fuel(driven, 3);
}

/// The user service over the in-memory repository.
pub struct UserService {
    repository: UserRepository,
}

impl View for UserService {
    type V = Seq<UserView>;

    closed spec fn view(&self) -> Seq<UserView> {
        self.repository@
    }
}

fn one_user(result: Result<UserReply, AppError>) -> (r: Result<UserResponse, AppError>)
    ensures
        match result {
            Ok(UserReply::User(user)) => r == Ok::<UserResponse, AppError>(user),
            Ok(_) => (r matches Err(e) && e@ == AppErrorView::Internal(unexpected_answer())),
            Err(e) => r == Err::<UserResponse, AppError>(e),
        },
{
    match result {
        Ok(UserReply::User(user)) => Ok(user),
        Ok(_) => Err(AppError::Internal(String::from_str("unexpected answer from the store"))),
        Err(e) => Err(e),
    }
}

impl UserService {
    /// The invariant of the rows.
    pub open spec fn wf(&self) -> bool {
        well_formed(self@)
    }

    /// A service over `repository`.
    pub fn new(repository: UserRepository) -> (r: UserService)
        requires
            repository.wf(),
        ensures
            r@ == repository@,
            r.wf(),
    {
        UserService { repository }
    }

    /// Runs a flow to its end: each statement that the flow asks is run on
    /// the repository and its answer handed back to the flow.
    pub fn run(&mut self, flow: UserFlow, step: UserStep) -> (r: Result<UserReply, AppError>)
        requires
            old(self).wf(),
        ensures
            final(self).wf(),
            (reply_result(r), final(self)@) == driven(flow@, step@, old(self)@),
    {
        let ghost first_flow = flow@;
        let ghost first_step = step@;
        let mut current = flow;
        let mut pending = step;
        loop
            invariant
                self.wf(),
                first_flow == flow@,
                first_step == step@,
                driven(current@, pending@, self@) == driven(first_flow, first_step, old(self)@),
            decreases steps_left(current@), (if pending@ is Ask {
                1nat
            } else {
                0nat
            }),
        {
            let ghost shown = pending@;
            let ghost rows = self@;
            match pending {
                UserStep::Done(result) => {
                    assert(shown == UserStepView::Done(reply_result(result)));
                    assert(driven(current@, shown, rows) == (reply_result(result), rows));
                    return result;
                },
                UserStep::Ask(query) => {
                    let ghost before = current@;
                    assert(shown == UserStepView::Ask(query@));
                    let answer = self.repository.run(query);
                    proof {
                        lemma_flow_advances(before, answer@);
                    }
                    let next = current.resume(answer);
                    current = next.0;
                    pending = next.1;
                },
            }
        }
    }

    /// One page of users as responses, most recently created first.
    pub fn get_users(&mut self, query: UserListQuery) -> (r: Result<Vec<UserResponse>, AppError>)
        requires
            old(self).wf(),
        ensures
            final(self).wf(),
            final(self)@ == old(self)@,
            r matches Ok(responses) && response_views(responses@) == responses_of(
                window(old(self)@, limit_of(query), offset_of(query)),
            ),
    {
        proof {
            lemma_list_flow(self@, query);
        }
        let (flow, step) = UserFlow::list(query);
        match self.run(flow, step) {
            Ok(UserReply::Users(users)) => Ok(users),
            Ok(_) => Ok(Vec::new()),
            Err(e) => Err(e),
        }
    }

    /// The user with the given identifier as a response, or `NotFound`.
    pub fn get_user(&mut self, id: &str) -> (r: Result<UserResponse, AppError>)
        requires
            old(self).wf(),
        ensures
            final(self).wf(),
            final(self)@ == old(self)@,
            response_result(r) == shaped(found(id@, with_id(old(self)@, id@))),
    {
        proof {
            lemma_get_flow(self@, id@);
        }
        let (flow, step) = UserFlow::get(id);
        one_user(self.run(flow, step))
    }

    /// Creates a user with the identifier `id` at the instant `now`, given
    /// the grammar's answer for the request's address. An invalid request
    /// fails with `ValidationFailed`, an address in use with `Conflict`, and
    /// an identifier in use with a store error; in each case no row is
    /// stored.
    pub fn create_user_with(
        &mut self,
        request: CreateUserRequest,
        grammar_ok: bool,
        id: String,
        now: i64,
    ) -> (r: Result<UserResponse, AppError>)
        requires
            old(self).wf(),
        ensures
            final(self).wf(),
            response_result(r) == shaped(
                create_result(old(self)@, request.name@, request.email@, grammar_ok, id@, now),
            ),
            final(self)@ == rows_after_create(
                old(self)@,
                request.name@,
                request.email@,
                grammar_ok,
                id@,
                now,
            ),
    {
        proof {
            lemma_create_flow(self@, request.name@, request.email@, grammar_ok, id@, now);
        }
        let (flow, step) = UserFlow::create(request, grammar_ok, id, now);
        one_user(self.run(flow, step))
    }

    /// Creates a user with a fresh random identifier, now. Whatever the
    /// identifier and the clock turn out to be, the outcome is the one of
    /// `create_user_with` for them.
    pub fn create_user(&mut self, request: CreateUserRequest) -> (r: Result<UserResponse, AppError>)
        requires
            old(self).wf(),
        ensures
            final(self).wf(),
            exists|id: Seq<char>, now: i64|
                {
                    &&& response_result(r) == shaped(
                        #[trigger] create_result(
                            old(self)@,
                            request.name@,
                            request.email@,
                            html5_email(request.email@),
                            id,
                            now,
                        ),
                    )
                    &&& final(self)@ == rows_after_create(
                        old(self)@,
                        request.name@,
                        request.email@,
                        html5_email(request.email@),
                        id,
                        now,
                    )
                },
    {
        let grammar_ok = grammar_accepts(request.email.as_str());
        let id = fresh_id();
        let at = now();
        let ghost id_text = id@;
        let ghost name = request.name@;
        let ghost email = request.email@;
        let r = self.create_user_with(request, grammar_ok, id, at);
        proof {
            assert(response_result(r) == shaped(
                create_result(old(self)@, name, email, html5_email(email), id_text, at),
            ));
        }
        r
    }

    /// Updates the user `id` at the instant `now`, given the grammar's
    /// answer for the request's address (ignored where there is none). Only
    /// the fields that are present change. An invalid request fails with
    /// `ValidationFailed`, an unknown identifier with `NotFound`, an address
    /// that another user owns with `Conflict`; the user's own address is
    /// always accepted.
    pub fn update_user_with(
        &mut self,
        id: &str,
        request: UpdateUserRequest,
        grammar_ok: bool,
        now: i64,
    ) -> (r: Result<UserResponse, AppError>)
        requires
            old(self).wf(),
        ensures
            final(self).wf(),
            response_result(r) == shaped(
                change_result(
                    old(self)@,
                    id@,
                    opt_text(request.name),
                    opt_text(request.email),
                    grammar_ok,
                    now,
                ),
            ),
            final(self)@ == rows_after_change(
                old(self)@,
                id@,
                opt_text(request.name),
                opt_text(request.email),
                grammar_ok,
                now,
            ),
    {
        proof {
            lemma_update_flow(
                self@,
                id@,
                opt_text(request.name),
                opt_text(request.email),
                grammar_ok,
                now,
            );
        }
        let (flow, step) = UserFlow::update(id, request, grammar_ok, now);
        one_user(self.run(flow, step))
    }

    /// Updates the user `id` now.
    pub fn update_user(&mut self, id: &str, request: UpdateUserRequest) -> (r: Result<
        UserResponse,
        AppError,
    >)
        requires
            old(self).wf(),
        ensures
            final(self).wf(),
            exists|now: i64|
                {
                    &&& response_result(r) == shaped(
                        #[trigger] change_result(
                            old(self)@,
                            id@,
                            opt_text(request.name),
                            opt_text(request.email),
                            grammar_answer(opt_text(request.email)),
                            now,
                        ),
                    )
                    &&& final(self)@ == rows_after_change(
                        old(self)@,
                        id@,
                        opt_text(request.name),
                        opt_text(request.email),
                        grammar_answer(opt_text(request.email)),
                        now,
                    )
                },
    {
        let grammar_ok = match &request.email {
            Some(address) => grammar_accepts(address.as_str()),
            None => true,
        };
        let at = now();
        let ghost name = opt_text(request.name);
        let ghost email = opt_text(request.email);
        let r = self.update_user_with(id, request, grammar_ok, at);
        proof {
            assert(response_result(r) == shaped(
                change_result(old(self)@, id@, name, email, grammar_answer(email), at),
            ));
        }
        r
    }

    /// Deletes the user `id`, or fails with `NotFound` where there is none.
    pub fn delete_user(&mut self, id: &str) -> (r: Result<(), AppError>)
        requires
            old(self).wf(),
        ensures
            final(self).wf(),
            final(self)@ == without_id(old(self)@, id@),
            crate::repositories::unit_result(r) == delete_result(old(self)@, id@),
    {
        proof {
            lemma_delete_flow(self@, id@);
        }
        let (flow, step) = UserFlow::delete(id);
        match self.run(flow, step) {
            Ok(_) => Ok(()),
            Err(e) => Err(e),
        }
    }
}

} // verus!
