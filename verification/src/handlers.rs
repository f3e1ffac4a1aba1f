//! The request handlers of the account side, as functions of the request,
//! the configuration and the content store: login, the current user, and
//! the two status answers.

use vstd::prelude::*;
use crate::auth::{
    ClaimsView,
    LoginRequest,
    LoginResponse,
    LoginResponseView,
    UserResponse,
    UserResponseView,
    auth_outcome,
    bearer_token_decides,
    expiry_for,
    finish_login,
    hs256_token,
    login_result,
    pair_accepted,
    response_result,
    slice_text,
    verified,
};
use crate::blogs::{
    BlogDetailResponse,
    BlogDetailView,
    BlogsListResponse,
    ListParams,
    after_reading,
    detail_result,
    listing,
    reading,
};
use crate::clock::{seconds_of, to_seconds};
use crate::content_flows::{
    ContentFlow,
    ContentFlowView,
    ContentReply,
    ContentReplyView,
    ContentStep,
    ContentStepView,
    asks_left,
    content_result,
    continued,
    current_started,
    lemma_content_flow_advances,
    listing_started,
    login_started,
    misfit,
    reading_started,
    shown,
};
use crate::content_rules::{
    ContentView,
    account_with_email,
    account_with_id,
    has_account,
    has_account_email,
    sound,
};
use crate::content_store::{
    ContentStore,
    account_insert_result,
    after_account_insert,
    content_executed,
};
use crate::decimal::{i32_of_text, lemma_signed_round_trip, signed_text};
use crate::entities::AccountView;
use crate::errors::{AppError, AppErrorView, AuthFailure, failure_detail};
use crate::text::opt_text;

verus! {

/// The answer of the health check.
#[derive(Debug, PartialEq, Eq)]
pub struct HealthResponse {
    pub status: String,
    pub message: String,
}

/// The answer of the status check.
#[derive(Debug, PartialEq, Eq)]
pub struct ApiStatusResponse {
    pub service: String,
    pub version: String,
    pub status: String,
}

/// Answers the health check.
pub fn health_check() -> (r: HealthResponse)
    ensures
        r.status@ == "ok"@,
        r.message@ == "Backend service is healthy"@,
{
    HealthResponse {
        status: String::from_str("ok"),
        message: String::from_str("Backend service is healthy"),
    }
}

/// Answers the status check.
pub fn api_status() -> (r: ApiStatusResponse)
    ensures
        r.service@ == "backend"@,
        r.version@ == "0.1.0"@,
        r.status@ == "running"@,
{
    ApiStatusResponse {
        service: String::from_str("backend"),
        version: String::from_str("0.1.0"),
        status: String::from_str("running"),
    }
}

/// The account that a login of `email` at `now` uses: the one that has the
/// address, or the demo account that the store creates for it.
pub open spec fn login_account(c: ContentView, email: Seq<char>, now: i64) -> Result<
    AccountView,
    AppErrorView,
> {
    match account_with_email(c.accounts, email) {
        Some(account) => Ok(account),
        None => match account_insert_result(c, email, "Demo User"@, now) {
            Ok(account) => Ok(account),
            Err(e) => Err(AppErrorView::StoreError(failure_detail(e))),
        },
    }
}

/// The store after a login of `email` at `now` whose pair was accepted.
pub open spec fn after_login(c: ContentView, email: Seq<char>, now: i64) -> ContentView {
    if has_account_email(c.accounts, email) {
        c
    } else {
        after_account_insert(c, email, "Demo User"@, now)
    }
}

/// What a request for the current user gives at `now` (seconds since the
/// epoch): the credential's verdict first, then a bad request where its
/// subject is no account identifier, then `NotFound` where no account has
/// it, else the account.
pub open spec fn current_outcome(
    c: ContentView,
    header: Option<Seq<char>>,
    secret: Seq<char>,
    now: i64,
) -> Result<UserResponseView, AppErrorView> {
    match auth_outcome(header, secret, now) {
        Err(e) => Err(e),
        Ok(claims) => match i32_of_text(claims.sub) {
            None => Err(AppErrorView::BadRequest("Invalid user ID"@)),
            Some(id) => match account_with_id(c.accounts, id) {
                None => Err(AppErrorView::NotFound("User not found"@)),
                Some(account) => Ok(
                    UserResponseView { id: account.id, email: account.email, name: account.name },
                ),
            },
        },
    }
}

/// What running a flow to its end on a store gives: every statement it
/// asks is run on the store as it then stands, and its answer handed back,
/// until the flow is done.
pub open spec fn content_driven(flow: ContentFlowView, step: ContentStepView, c: ContentView) -> (
    Result<ContentReplyView, AppErrorView>,
    ContentView,
)
    decreases asks_left(flow), (if step is Ask {
        1nat
    } else {
        0nat
    }),
{
    match step {
        ContentStepView::Done(result) => (result, c),
        ContentStepView::Ask(query) => {
            let (after, answer) = content_executed(c, query);
            let (next_flow, next_step) = continued(flow, answer);
            if asks_left(next_flow) < asks_left(flow) || next_step is Done {
                content_driven(next_flow, next_step, after)
            } else {
                (Err(AppErrorView::Internal(misfit())), after)
            }
        },
    }
}

/// The reply that carries the account of a login.
pub open spec fn as_account(r: Result<AccountView, AppErrorView>) -> Result<
    ContentReplyView,
    AppErrorView,
> {
    match r {
        Ok(account) => Ok(ContentReplyView::Account(account)),
        Err(e) => Err(e),
    }
}

/// The reply that carries the current user.
pub open spec fn as_current(r: Result<UserResponseView, AppErrorView>) -> Result<
    ContentReplyView,
    AppErrorView,
> {
    match r {
        Ok(user) => Ok(ContentReplyView::CurrentUser(user)),
        Err(e) => Err(e),
    }
}

/// The reply that carries a reading.
pub open spec fn as_detail(r: Result<BlogDetailView, AppErrorView>) -> Result<
    ContentReplyView,
    AppErrorView,
> {
    match r {
        Ok(detail) => Ok(ContentReplyView::Detail(detail)),
        Err(e) => Err(e),
    }
}

/// The listing as a flow is the listing: it ends with the page asked for
/// and the totals, and changes nothing.
pub proof fn lemma_listing_flow(
    c: ContentView,
    page: Option<u64>,
    per_page: Option<u64>,
    status: Option<Seq<char>>,
)
    ensures
        ({
            let (flow, step) = listing_started(page, per_page, status);
            content_driven(flow, step, c) == (
                Ok::<ContentReplyView, AppErrorView>(
                    ContentReplyView::Listing(listing(c.posts, page, per_page, status)),
                ),
                c,
            )
        }),
{
    reveal_with_fuel(content_driven, 4);
}

/// The reading as a flow is the reading: it ends with the post and the
/// count that includes this reading, and leaves the view recorded.
pub proof fn lemma_reading_flow(c: ContentView, slug: Seq<char>, origin: Seq<char>, now: i64)
    ensures
        ({
            let (flow, step) = reading_started(slug, origin, now);
            content_driven(flow, step, c) == (
                as_detail(reading(c, slug, origin, now)),
                after_reading(c, slug, origin, now),
            )
        }),
{
    reveal_with_fuel(content_driven, 5);
}

/// The login as a flow finds or creates the account of the login.
pub proof fn lemma_login_flow(
    c: ContentView,
    email: Seq<char>,
    password: Seq<char>,
    expected_email: Seq<char>,
    expected_password: Seq<char>,
    now: i64,
)
    ensures
        ({
            let (flow, step) = login_started(email, password, expected_email, expected_password, now);
            content_driven(flow, step, c) == if pair_accepted(
                email,
                password,
                expected_email,
                expected_password,
            ) {
                (as_account(login_account(c, email, now)), after_login(c, email, now))
            } else {
                (
                    Err::<ContentReplyView, AppErrorView>(
                        AppErrorView::Unauthorized(AuthFailure::InvalidCredentials),
                    ),
                    c,
                )
            }
        }),
{
    reveal_with_fuel(content_driven, 4);
}

/// The request for the current user as a flow is the request.
pub proof fn lemma_current_flow(
    c: ContentView,
    header: Option<Seq<char>>,
    secret: Seq<char>,
    now: i64,
)
    ensures
        ({
            let (flow, step) = current_started(header, secret, now);
            content_driven(flow, step, c) == (as_current(current_outcome(c, header, secret, now)), c)
        }),
{
    reveal_with_fuel(content_driven, 3);
}

/// Runs a flow to its end on the store: each statement that the flow asks is
/// run and its answer handed back to the flow.
pub fn drive(store: &mut ContentStore, flow: ContentFlow, step: ContentStep) -> (r: Result<
    ContentReply,
    AppError,
>)
    requires
        old(store).wf(),
    ensures
        final(store).wf(),
        (content_result(r), final(store)@) == content_driven(flow@, step@, old(store)@),
{
    let ghost first_flow = flow@;
    let ghost first_step = step@;
    let mut current = flow;
    let mut pending = step;
    loop
        invariant
            store.wf(),
            first_flow == flow@,
            first_step == step@,
            content_driven(current@, pending@, store@) == content_driven(
                first_flow,
                first_step,
                old(store)@,
            ),
        decreases asks_left(current@), (if pending@ is Ask {
            1nat
        } else {
            0nat
        }),
    {
        let ghost seen = pending@;
        let ghost content = store@;
        match pending {
            ContentStep::Done(result) => {
                assert(seen == ContentStepView::Done(content_result(result)));
                assert(content_driven(current@, seen, content) == (content_result(result), content));
                return result;
            },
            ContentStep::Ask(query) => {
                let ghost before = current@;
                assert(seen == ContentStepView::Ask(query@));
                let answer = store.run(query);
                proof {
                    lemma_content_flow_advances(before, answer@);
                }
                let next = current.resume(answer);
                current = next.0;
                pending = next.1;
            },
        }
    }
}

/// Lists the posts of the store for a query: the posts that pass the status
/// filter in force, in the order of the listing, cut to the page asked for,
/// with the totals of all posts that pass. On the store held in memory no
/// statement fails, so the result is always a listing.
pub fn list_blogs(store: &mut ContentStore, params: &ListParams) -> (r: Result<
    BlogsListResponse,
    AppError,
>)
    requires
        old(store).wf(),
    ensures
        final(store).wf(),
        final(store)@ == old(store)@,
        r matches Ok(response) && response@ == listing(
            old(store)@.posts,
            params.page,
            params.per_page,
            opt_text(params.status),
        ),
{
    proof {
        lemma_listing_flow(store@, params.page, params.per_page, opt_text(params.status));
    }
    let (flow, step) = ContentFlow::list(params);
    match drive(store, flow, step) {
        Ok(ContentReply::Listing(listing)) => Ok(listing),
        Ok(_) => Err(AppError::Internal(String::from_str("unexpected answer from the store"))),
        Err(e) => Err(e),
    }
}

/// Reads the post `slug` for a caller at the address `origin`, at the
/// instant `now`. Fails with `NotFound` where no post has the slug. Else
/// records a view of the post, without ever failing the reading over it, and
/// returns the post with the fresh count of its views.
pub fn get_blog_by_slug(store: &mut ContentStore, slug: &str, origin: &str, now: i64) -> (r: Result<
    BlogDetailResponse,
    AppError,
>)
    requires
        old(store).wf(),
    ensures
        final(store).wf(),
        detail_result(r) == reading(old(store)@, slug@, origin@, now),
        final(store)@ == after_reading(old(store)@, slug@, origin@, now),
{
    proof {
        lemma_reading_flow(store@, slug@, origin@, now);
    }
    let (flow, step) = ContentFlow::read(slug, origin, now);
    match drive(store, flow, step) {
        Ok(ContentReply::Detail(detail)) => Ok(detail),
        Ok(_) => Err(AppError::Internal(String::from_str("unexpected answer from the store"))),
        Err(e) => Err(e),
    }
}

/// Logs a user in at the instant `now`. A pair other than the expected one
/// is refused as `Unauthorized` and nothing changes. Else the account with
/// the request's address is used, or the demo account is created for it,
/// and the answer carries a token for the account that expires in 24 hours:
/// a request for the current user that presents this token is answered with
/// the same account.
pub fn user_login(
    store: &mut ContentStore,
    request: &LoginRequest,
    expected_email: &str,
    expected_password: &str,
    secret: &str,
    now: i64,
) -> (r: Result<LoginResponse, AppError>)
    requires
        old(store).wf(),
    ensures
        final(store).wf(),
        !pair_accepted(request.email@, request.password@, expected_email@, expected_password@)
            ==> login_result(r) == Err::<LoginResponseView, AppErrorView>(
            AppErrorView::Unauthorized(AuthFailure::InvalidCredentials),
        ) && final(store)@ == old(store)@,
        pair_accepted(request.email@, request.password@, expected_email@, expected_password@) ==> {
            &&& final(store)@ == after_login(old(store)@, request.email@, now)
            &&& match login_account(old(store)@, request.email@, now) {
                Err(e) => login_result(r) == Err::<LoginResponseView, AppErrorView>(e),
                Ok(account) => r matches Ok(response) && {
                    &&& response@.user == shown(account)
                    &&& response@.token == hs256_token(
                        signed_text(account.id as int),
                        expiry_for(seconds_of(now)),
                        secret@,
                    )
                    &&& verified(response@.token, secret@, seconds_of(now)) == Ok::<
                        ClaimsView,
                        AuthFailure,
                    >(
                        ClaimsView {
                            sub: signed_text(account.id as int),
                            exp: expiry_for(seconds_of(now)),
                        },
                    )
                    &&& current_outcome(
                        final(store)@,
                        Some("Bearer "@ + response@.token),
                        secret@,
                        seconds_of(now),
                    ) == Ok::<UserResponseView, AppErrorView>(response@.user)
                },
            }
        },
{
    let ghost before = store@;
    proof {
        lemma_login_flow(
            before,
            request.email@,
            request.password@,
            expected_email@,
            expected_password@,
            now,
        );
    }
    let (flow, step) = ContentFlow::login(request, expected_email, expected_password, now);
    let account = match drive(store, flow, step) {
        Ok(ContentReply::Account(account)) => account,
        Ok(_) => {
            return Err(AppError::Internal(String::from_str("unexpected answer from the store")));
        },
        Err(e) => {
            return Err(e);
        },
    };
    let ghost row = account@;
    proof {
        let accounts = store@.accounts;
        if has_account_email(before.accounts, request.email@) {
            let k = choose|k: int|
                0 <= k < accounts.len() && (#[trigger] accounts[k]).email == request.email@;
            assert(accounts[k] == row);
            lemma_unique_account(store@, k);
        } else {
            let k = accounts.len() - 1;
            assert(accounts[k] == row);
            lemma_unique_account(store@, k);
        }
        lemma_signed_round_trip(row.id);
    }
    let r = finish_login(account, secret, to_seconds(now));
    proof {
        bearer_token_decides(r->Ok_0@.token, secret@, seconds_of(now));
    }
    r
}

/// In a sound store, the account found for an identifier is the only one
/// that has it.
pub proof fn lemma_unique_account(c: ContentView, k: int)
    requires
        sound(c),
        0 <= k < c.accounts.len(),
    ensures
        account_with_id(c.accounts, c.accounts[k].id) == Some(c.accounts[k]),
        account_with_email(c.accounts, c.accounts[k].email) == Some(c.accounts[k]),
{
    let accounts = c.accounts;
    let id = accounts[k].id;
    let email = accounts[k].email;
    assert(has_account(accounts, id));
    assert(has_account_email(accounts, email));
    let i = choose|i: int| 0 <= i < accounts.len() && (#[trigger] accounts[i]).id == id;
    assert(i == k);
    let j = choose|j: int| 0 <= j < accounts.len() && (#[trigger] accounts[j]).email == email;
    assert(j == k);
}

/// Answers a request for the current user at `now` (seconds since the
/// epoch), from the value of its `Authorization` header.
pub fn current_user(store: &mut ContentStore, header: Option<&str>, secret: &str, now: i64) -> (r:
    Result<UserResponse, AppError>)
    requires
        old(store).wf(),
    ensures
        final(store).wf(),
        final(store)@ == old(store)@,
        response_result(r) == current_outcome(old(store)@, slice_text(header), secret@, now),
{
    proof {
        lemma_current_flow(store@, slice_text(header), secret@, now);
    }
    let (flow, step) = ContentFlow::current_user(header, secret, now);
    match drive(store, flow, step) {
        Ok(ContentReply::CurrentUser(user)) => Ok(user),
        Ok(_) => Err(AppError::Internal(String::from_str("unexpected answer from the store"))),
        Err(e) => Err(e),
    }
}

} // verus!
