//! The account and blog handlers as conversations with the content store:
//! each is a flow that asks one statement at a time and decides, from each
//! answer, what to ask next or how to end.

use vstd::prelude::*;
use crate::auth::{
    LoginRequest,
    UserResponse,
    UserResponseView,
    account_response,
    auth_outcome,
    check_user_auth_at,
    credentials_accepted,
    pair_accepted,
    slice_text,
    subject_id,
};
use crate::blogs::{
    BlogDetailResponse,
    BlogDetailView,
    BlogsListResponse,
    BlogsListView,
    ListParams,
    detail_response,
    list_response,
    page_for,
    per_page_for,
    response_for,
    status_for,
};
use crate::decimal::i32_of_text;
use crate::entities::{Account, AccountView, BlogPost, BlogPostView, post_views};
use crate::errors::{
    AppError,
    AppErrorView,
    AuthFailure,
    StoreFailure,
    StoreFailureView,
    failure_detail,
    store_error,
};
use crate::text::opt_text;

verus! {

/// A statement for the content store.
#[derive(Debug, PartialEq, Eq)]
#[allow(inconsistent_fields)]
pub enum ContentQuery {
    /// The account with this address.
    FindAccountByEmail { email: String },
    /// The account with this identifier.
    FindAccountById { id: i32 },
    /// Create an account with this address and name at `now`.
    InsertAccount { email: String, name: String, now: i64 },
    /// The number of posts that pass this status filter.
    CountPosts { status: String },
    /// The page with index `index` of `size` posts that pass this status
    /// filter, in the order of the listing.
    SelectPosts { status: String, size: u64, index: u64 },
    /// The post with this slug.
    FindPostBySlug { slug: String },
    /// Record a view of this post from this address at `now`.
    InsertView { post_id: i32, ip_address: String, now: i64 },
    /// The number of views of this post.
    CountViews { post_id: i32 },
}

/// The mathematical value of a [`ContentQuery`].
#[allow(inconsistent_fields)]
pub enum ContentQueryView {
    FindAccountByEmail { email: Seq<char> },
    FindAccountById { id: i32 },
    InsertAccount { email: Seq<char>, name: Seq<char>, now: i64 },
    CountPosts { status: Seq<char> },
    SelectPosts { status: Seq<char>, size: u64, index: u64 },
    FindPostBySlug { slug: Seq<char> },
    InsertView { post_id: i32, ip_address: Seq<char>, now: i64 },
    CountViews { post_id: i32 },
}

impl View for ContentQuery {
    type V = ContentQueryView;

    open spec fn view(&self) -> ContentQueryView {
        match self {
            ContentQuery::FindAccountByEmail { email } => ContentQueryView::FindAccountByEmail {
                email: email@,
            },
            ContentQuery::FindAccountById { id } => ContentQueryView::FindAccountById { id: *id },
            ContentQuery::InsertAccount { email, name, now } => ContentQueryView::InsertAccount {
                email: email@,
                name: name@,
                now: *now,
            },
            ContentQuery::CountPosts { status } => ContentQueryView::CountPosts { status: status@ },
            ContentQuery::SelectPosts { status, size, index } => ContentQueryView::SelectPosts {
                status: status@,
                size: *size,
                index: *index,
            },
            ContentQuery::FindPostBySlug { slug } => ContentQueryView::FindPostBySlug {
                slug: slug@,
            },
            ContentQuery::InsertView { post_id, ip_address, now } => ContentQueryView::InsertView {
                post_id: *post_id,
                ip_address: ip_address@,
                now: *now,
            },
            ContentQuery::CountViews { post_id } => ContentQueryView::CountViews {
                post_id: *post_id,
            },
        }
    }
}

/// What the content store answered to a statement.
#[derive(Debug, PartialEq, Eq)]
pub enum ContentAnswer {
    /// The account that a lookup found, if any.
    Account(Option<Account>),
    /// The account that was created.
    AccountCreated(Account),
    /// A count.
    Count(u64),
    /// The posts of a page.
    Posts(Vec<BlogPost>),
    /// The post that a lookup found, if any.
    Post(Option<BlogPost>),
    /// The view was recorded.
    Recorded,
    /// The statement failed.
    Failed(StoreFailure),
}

/// The mathematical value of a [`ContentAnswer`].
pub enum ContentAnswerView {
    Account(Option<AccountView>),
    AccountCreated(AccountView),
    Count(u64),
    Posts(Seq<BlogPostView>),
    Post(Option<BlogPostView>),
    Recorded,
    Failed(StoreFailureView),
}

impl View for ContentAnswer {
    type V = ContentAnswerView;

    open spec fn view(&self) -> ContentAnswerView {
        match self {
            ContentAnswer::Account(Some(account)) => ContentAnswerView::Account(Some(account@)),
            ContentAnswer::Account(None) => ContentAnswerView::Account(None),
            ContentAnswer::AccountCreated(account) => ContentAnswerView::AccountCreated(account@),
            ContentAnswer::Count(count) => ContentAnswerView::Count(*count),
            ContentAnswer::Posts(posts) => ContentAnswerView::Posts(post_views(posts@)),
            ContentAnswer::Post(Some(post)) => ContentAnswerView::Post(Some(post@)),
            ContentAnswer::Post(None) => ContentAnswerView::Post(None),
            ContentAnswer::Recorded => ContentAnswerView::Recorded,
            ContentAnswer::Failed(failure) => ContentAnswerView::Failed(failure@),
        }
    }
}

/// What a handler returns when it succeeds.
#[derive(Debug, PartialEq, Eq)]
pub enum ContentReply {
    /// The account to log in.
    Account(Account),
    /// The current user.
    CurrentUser(UserResponse),
    /// One page of the blog listing.
    Listing(BlogsListResponse),
    /// One post with the count of its views.
    Detail(BlogDetailResponse),
}

/// The mathematical value of a [`ContentReply`].
pub enum ContentReplyView {
    Account(AccountView),
    CurrentUser(UserResponseView),
    Listing(BlogsListView),
    Detail(BlogDetailView),
}

impl View for ContentReply {
    type V = ContentReplyView;

    open spec fn view(&self) -> ContentReplyView {
        match self {
            ContentReply::Account(account) => ContentReplyView::Account(account@),
            ContentReply::CurrentUser(user) => ContentReplyView::CurrentUser(user@),
            ContentReply::Listing(listing) => ContentReplyView::Listing(listing@),
            ContentReply::Detail(detail) => ContentReplyView::Detail(detail@),
        }
    }
}

/// What a flow wants next: a statement run, or nothing more.
#[derive(Debug, PartialEq, Eq)]
pub enum ContentStep {
    /// Run this statement and come back with the answer.
    Ask(ContentQuery),
    /// The handler has ended with this result.
    Done(Result<ContentReply, AppError>),
}

/// The mathematical value of a [`ContentStep`].
pub enum ContentStepView {
    Ask(ContentQueryView),
    Done(Result<ContentReplyView, AppErrorView>),
}

/// The view of a handler's result.
pub open spec fn content_result(r: Result<ContentReply, AppError>) -> Result<
    ContentReplyView,
    AppErrorView,
> {
    match r {
        Ok(reply) => Ok(reply@),
        Err(e) => Err(e@),
    }
}

impl View for ContentStep {
    type V = ContentStepView;

    open spec fn view(&self) -> ContentStepView {
        match self {
            ContentStep::Ask(query) => ContentStepView::Ask(query@),
            ContentStep::Done(result) => ContentStepView::Done(content_result(*result)),
        }
    }
}

/// Where a handler stands.
#[derive(Debug, PartialEq, Eq)]
#[allow(inconsistent_fields)]
pub enum ContentFlow {
    /// Login: the pair is accepted; the account was asked for.
    LoginLookup { email: String, now: i64 },
    /// Login: there is no account; its creation was asked for.
    LoginCreate,
    /// Current user: the credential is valid; the account was asked for.
    CurrentLookup,
    /// Listing: the count of the posts that pass was asked for.
    ListCount { page: u64, per_page: u64, status: String },
    /// Listing: the page was asked for.
    ListFetch { page: u64, per_page: u64, total: u64 },
    /// Reading: the post was asked for.
    ReadLookup { origin: String, now: i64 },
    /// Reading: the recording of the view was asked for.
    ReadRecord { post: BlogPost },
    /// Reading: the count of the views was asked for.
    ReadCount { post: BlogPost },
    /// The handler has ended.
    Finished,
}

/// The mathematical value of a [`ContentFlow`].
#[allow(inconsistent_fields)]
pub enum ContentFlowView {
    LoginLookup { email: Seq<char>, now: i64 },
    LoginCreate,
    CurrentLookup,
    ListCount { page: u64, per_page: u64, status: Seq<char> },
    ListFetch { page: u64, per_page: u64, total: u64 },
    ReadLookup { origin: Seq<char>, now: i64 },
    ReadRecord { post: BlogPostView },
    ReadCount { post: BlogPostView },
    Finished,
}

impl View for ContentFlow {
    type V = ContentFlowView;

    open spec fn view(&self) -> ContentFlowView {
        match self {
            ContentFlow::LoginLookup { email, now } => ContentFlowView::LoginLookup {
                email: email@,
                now: *now,
            },
            ContentFlow::LoginCreate => ContentFlowView::LoginCreate,
            ContentFlow::CurrentLookup => ContentFlowView::CurrentLookup,
            ContentFlow::ListCount { page, per_page, status } => ContentFlowView::ListCount {
                page: *page,
                per_page: *per_page,
                status: status@,
            },
            ContentFlow::ListFetch { page, per_page, total } => ContentFlowView::ListFetch {
                page: *page,
                per_page: *per_page,
                total: *total,
            },
            ContentFlow::ReadLookup { origin, now } => ContentFlowView::ReadLookup {
                origin: origin@,
                now: *now,
            },
            ContentFlow::ReadRecord { post } => ContentFlowView::ReadRecord { post: post@ },
            ContentFlow::ReadCount { post } => ContentFlowView::ReadCount { post: post@ },
            ContentFlow::Finished => ContentFlowView::Finished,
        }
    }
}

/// The words for an answer that does not fit the statement asked.
pub open spec fn misfit() -> Seq<char> {
    "unexpected answer from the store"@
}

/// The end of a flow with an error.
pub open spec fn failed(e: AppErrorView) -> (ContentFlowView, ContentStepView) {
    (ContentFlowView::Finished, ContentStepView::Done(Err(e)))
}

/// The end of a flow with a reply.
pub open spec fn answered(reply: ContentReplyView) -> (ContentFlowView, ContentStepView) {
    (ContentFlowView::Finished, ContentStepView::Done(Ok(reply)))
}

/// How many statements a flow may still ask.
pub open spec fn asks_left(flow: ContentFlowView) -> nat {
    match flow {
        ContentFlowView::LoginLookup { .. } => 2,
        ContentFlowView::LoginCreate => 1,
        ContentFlowView::CurrentLookup => 1,
        ContentFlowView::ListCount { .. } => 2,
        ContentFlowView::ListFetch { .. } => 1,
        ContentFlowView::ReadLookup { .. } => 3,
        ContentFlowView::ReadRecord { .. } => 2,
        ContentFlowView::ReadCount { .. } => 1,
        ContentFlowView::Finished => 0,
    }
}

/// How a login begins at `now`: refused where the pair is not the expected
/// one, else with the lookup of the account.
pub open spec fn login_started(
    email: Seq<char>,
    password: Seq<char>,
    expected_email: Seq<char>,
    expected_password: Seq<char>,
    now: i64,
) -> (ContentFlowView, ContentStepView) {
    if pair_accepted(email, password, expected_email, expected_password) {
        (
            ContentFlowView::LoginLookup { email, now },
            ContentStepView::Ask(ContentQueryView::FindAccountByEmail { email }),
        )
    } else {
        failed(AppErrorView::Unauthorized(AuthFailure::InvalidCredentials))
    }
}

/// How a request for the current user begins at `now` (seconds since the
/// epoch): with the verdict on the credential, then the reading of its
/// subject, then the lookup of the account.
pub open spec fn current_started(header: Option<Seq<char>>, secret: Seq<char>, now: i64) -> (
    ContentFlowView,
    ContentStepView,
) {
    match auth_outcome(header, secret, now) {
        Err(e) => failed(e),
        Ok(claims) => match i32_of_text(claims.sub) {
            None => failed(AppErrorView::BadRequest("Invalid user ID"@)),
            Some(id) => (
                ContentFlowView::CurrentLookup,
                ContentStepView::Ask(ContentQueryView::FindAccountById { id }),
            ),
        },
    }
}

/// How a listing begins: with the count of the posts that pass the filter
/// in force.
pub open spec fn listing_started(
    page: Option<u64>,
    per_page: Option<u64>,
    status: Option<Seq<char>>,
) -> (ContentFlowView, ContentStepView) {
    (
        ContentFlowView::ListCount {
            page: page_for(page),
            per_page: per_page_for(per_page),
            status: status_for(status),
        },
        ContentStepView::Ask(ContentQueryView::CountPosts { status: status_for(status) }),
    )
}

/// How a reading begins: with the lookup of the post.
pub open spec fn reading_started(slug: Seq<char>, origin: Seq<char>, now: i64) -> (
    ContentFlowView,
    ContentStepView,
) {
    (
        ContentFlowView::ReadLookup { origin, now },
        ContentStepView::Ask(ContentQueryView::FindPostBySlug { slug }),
    )
}

/// The account as the current-user response shows it.
pub open spec fn shown(account: AccountView) -> UserResponseView {
    UserResponseView { id: account.id, email: account.email, name: account.name }
}

/// How a flow goes on after an answer.
pub open spec fn continued(flow: ContentFlowView, answer: ContentAnswerView) -> (
    ContentFlowView,
    ContentStepView,
) {
    match flow {
        ContentFlowView::LoginLookup { email, now } => match answer {
            ContentAnswerView::Account(Some(account)) => answered(
                ContentReplyView::Account(account),
            ),
            ContentAnswerView::Account(None) => (
                ContentFlowView::LoginCreate,
                ContentStepView::Ask(
                    ContentQueryView::InsertAccount { email, name: "Demo User"@, now },
                ),
            ),
            ContentAnswerView::Failed(failure) => failed(
                AppErrorView::StoreError(failure_detail(failure)),
            ),
            _ => failed(AppErrorView::Internal(misfit())),
        },
        ContentFlowView::LoginCreate => match answer {
            ContentAnswerView::AccountCreated(account) => answered(
                ContentReplyView::Account(account),
            ),
            ContentAnswerView::Failed(failure) => failed(
                AppErrorView::StoreError(failure_detail(failure)),
            ),
            _ => failed(AppErrorView::Internal(misfit())),
        },
        ContentFlowView::CurrentLookup => match answer {
            ContentAnswerView::Account(Some(account)) => answered(
                ContentReplyView::CurrentUser(shown(account)),
            ),
            ContentAnswerView::Account(None) => failed(AppErrorView::NotFound("User not found"@)),
            ContentAnswerView::Failed(failure) => failed(
                AppErrorView::StoreError(failure_detail(failure)),
            ),
            _ => failed(AppErrorView::Internal(misfit())),
        },
        ContentFlowView::ListCount { page, per_page, status } => match answer {
            ContentAnswerView::Count(total) => (
                ContentFlowView::ListFetch { page, per_page, total },
                ContentStepView::Ask(
                    ContentQueryView::SelectPosts {
                        status,
                        size: per_page,
                        index: if page >= 1 {
                            (page - 1) as u64
                        } else {
                            0
                        },
                    },
                ),
            ),
            ContentAnswerView::Failed(failure) => failed(
                AppErrorView::StoreError(failure_detail(failure)),
            ),
            _ => failed(AppErrorView::Internal(misfit())),
        },
        ContentFlowView::ListFetch { page, per_page, total } => match answer {
            ContentAnswerView::Posts(rows) => answered(
                ContentReplyView::Listing(response_for(rows, page, per_page, total)),
            ),
            ContentAnswerView::Failed(failure) => failed(
                AppErrorView::StoreError(failure_detail(failure)),
            ),
            _ => failed(AppErrorView::Internal(misfit())),
        },
        ContentFlowView::ReadLookup { origin, now } => match answer {
            ContentAnswerView::Post(Some(post)) => (
                ContentFlowView::ReadRecord { post },
                ContentStepView::Ask(
                    ContentQueryView::InsertView { post_id: post.id, ip_address: origin, now },
                ),
            ),
            ContentAnswerView::Post(None) => failed(AppErrorView::NotFound("Blog not found"@)),
            ContentAnswerView::Failed(failure) => failed(
                AppErrorView::StoreError(failure_detail(failure)),
            ),
            _ => failed(AppErrorView::Internal(misfit())),
        },
        ContentFlowView::ReadRecord { post } => (
            ContentFlowView::ReadCount { post },
            ContentStepView::Ask(ContentQueryView::CountViews { post_id: post.id }),
        ),
        ContentFlowView::ReadCount { post } => match answer {
            ContentAnswerView::Count(views_count) => answered(
                ContentReplyView::Detail(BlogDetailView { post, views_count }),
            ),
            ContentAnswerView::Failed(failure) => failed(
                AppErrorView::StoreError(failure_detail(failure)),
            ),
            _ => failed(AppErrorView::Internal(misfit())),
        },
        ContentFlowView::Finished => failed(AppErrorView::Internal(misfit())),
    }
}

/// Every answer brings a flow nearer to its end.
pub proof fn lemma_content_flow_advances(flow: ContentFlowView, answer: ContentAnswerView)
    ensures
        asks_left(continued(flow, answer).0) < asks_left(flow) || flow == ContentFlowView::Finished,
        continued(flow, answer).1 is Done ==> continued(flow, answer).0
            == ContentFlowView::Finished,
{
}

fn fail_with(e: AppError) -> (r: (ContentFlow, ContentStep))
    ensures
        (r.0@, r.1@) == failed(e@),
{
    (ContentFlow::Finished, ContentStep::Done(Err(e)))
}

fn answer_with(reply: ContentReply) -> (r: (ContentFlow, ContentStep))
    ensures
        (r.0@, r.1@) == answered(reply@),
{
    (ContentFlow::Finished, ContentStep::Done(Ok(reply)))
}

fn misfitting() -> (r: (ContentFlow, ContentStep))
    ensures
        (r.0@, r.1@) == failed(AppErrorView::Internal(misfit())),
{
    fail_with(AppError::Internal(String::from_str("unexpected answer from the store")))
}

impl ContentFlow {
    /// Begins a login at the instant `now`.
    pub fn login(request: &LoginRequest, expected_email: &str, expected_password: &str, now: i64)
        -> (r: (ContentFlow, ContentStep))
        ensures
            (r.0@, r.1@) == login_started(
                request.email@,
                request.password@,
                expected_email@,
                expected_password@,
                now,
            ),
    {
        if credentials_accepted(request, expected_email, expected_password) {
            (
                ContentFlow::LoginLookup { email: request.email.clone(), now },
                ContentStep::Ask(ContentQuery::FindAccountByEmail { email: request.email.clone() }),
            )
        } else {
            fail_with(AppError::Unauthorized(AuthFailure::InvalidCredentials))
        }
    }

    /// Begins a request for the current user at `now` (seconds since the
    /// epoch), from the value of its `Authorization` header.
    pub fn current_user(header: Option<&str>, secret: &str, now: i64) -> (r: (
        ContentFlow,
        ContentStep,
    ))
        ensures
            (r.0@, r.1@) == current_started(slice_text(header), secret@, now),
    {
        let claims = match check_user_auth_at(header, secret, now) {
            Ok(claims) => claims,
            Err(e) => {
                return fail_with(e);
            },
        };
        match subject_id(&claims) {
            Ok(id) => (
                ContentFlow::CurrentLookup,
                ContentStep::Ask(ContentQuery::FindAccountById { id }),
            ),
            Err(e) => fail_with(e),
        }
    }

    /// Begins a listing of posts.
    pub fn list(params: &ListParams) -> (r: (ContentFlow, ContentStep))
        ensures
            (r.0@, r.1@) == listing_started(params.page, params.per_page, opt_text(params.status)),
    {
        let request = params.resolve();
        let status = request.status.clone();
        (
            ContentFlow::ListCount {
                page: request.page,
                per_page: request.per_page,
                status: request.status,
            },
            ContentStep::Ask(ContentQuery::CountPosts { status }),
        )
    }

    /// Begins the reading of the post `slug` for a caller at the address
    /// `origin`, at the instant `now`.
    pub fn read(slug: &str, origin: &str, now: i64) -> (r: (ContentFlow, ContentStep))
        ensures
            (r.0@, r.1@) == reading_started(slug@, origin@, now),
    {
        (
            ContentFlow::ReadLookup { origin: String::from_str(origin), now },
            ContentStep::Ask(ContentQuery::FindPostBySlug { slug: String::from_str(slug) }),
        )
    }

    /// Goes on after the store's answer to the statement that was asked
    /// last: the flow either asks the next statement or ends. A statement
    /// that fails ends the flow with a store error, with one exception: a
    /// view that could not be recorded does not end the reading.
    pub fn resume(self, answer: ContentAnswer) -> (r: (ContentFlow, ContentStep))
        ensures
            (r.0@, r.1@) == continued(self@, answer@),
            asks_left(r.0@) < asks_left(self@) || self@ == ContentFlowView::Finished,
    {
        proof {
            lemma_content_flow_advances(self@, answer@);
        }
        match self {
            ContentFlow::LoginLookup { email, now } => match answer {
                ContentAnswer::Account(Some(account)) => answer_with(ContentReply::Account(account)),
                ContentAnswer::Account(None) => (
                    ContentFlow::LoginCreate,
                    ContentStep::Ask(
                        ContentQuery::InsertAccount {
                            email,
                            name: String::from_str("Demo User"),
                            now,
                        },
                    ),
                ),
                ContentAnswer::Failed(failure) => fail_with(store_error(failure)),
                _ => misfitting(),
            },
            ContentFlow::LoginCreate => match answer {
                ContentAnswer::AccountCreated(account) => answer_with(
                    ContentReply::Account(account),
                ),
                ContentAnswer::Failed(failure) => fail_with(store_error(failure)),
                _ => misfitting(),
            },
            ContentFlow::CurrentLookup => match answer {
                ContentAnswer::Account(Some(account)) => answer_with(
                    ContentReply::CurrentUser(account_response(account)),
                ),
                ContentAnswer::Account(None) => fail_with(
                    AppError::NotFound(String::from_str("User not found")),
                ),
                ContentAnswer::Failed(failure) => fail_with(store_error(failure)),
                _ => misfitting(),
            },
            ContentFlow::ListCount { page, per_page, status } => match answer {
                ContentAnswer::Count(total) => {
                    let index = if page >= 1 {
                        page - 1
                    } else {
                        0
                    };
                    (
                        ContentFlow::ListFetch { page, per_page, total },
                        ContentStep::Ask(
                            ContentQuery::SelectPosts { status, size: per_page, index },
                        ),
                    )
                },
                ContentAnswer::Failed(failure) => fail_with(store_error(failure)),
                _ => misfitting(),
            },
            ContentFlow::ListFetch { page, per_page, total } => match answer {
                ContentAnswer::Posts(rows) => answer_with(
                    ContentReply::Listing(list_response(rows, page, per_page, total)),
                ),
                ContentAnswer::Failed(failure) => fail_with(store_error(failure)),
                _ => misfitting(),
            },
            ContentFlow::ReadLookup { origin, now } => match answer {
                ContentAnswer::Post(Some(post)) => {
                    let post_id = post.id;
                    (
                        ContentFlow::ReadRecord { post },
                        ContentStep::Ask(
                            ContentQuery::InsertView { post_id, ip_address: origin, now },
                        ),
                    )
                },
                ContentAnswer::Post(None) => fail_with(
                    AppError::NotFound(String::from_str("Blog not found")),
                ),
                ContentAnswer::Failed(failure) => fail_with(store_error(failure)),
                _ => misfitting(),
            },
            ContentFlow::ReadRecord { post } => {
                let post_id = post.id;
                (
                    ContentFlow::ReadCount { post },
                    ContentStep::Ask(ContentQuery::CountViews { post_id }),
                )
            },
            ContentFlow::ReadCount { post } => match answer {
                ContentAnswer::Count(views_count) => answer_with(
                    ContentReply::Detail(detail_response(post, views_count)),
                ),
                ContentAnswer::Failed(failure) => fail_with(store_error(failure)),
                _ => misfitting(),
            },
            ContentFlow::Finished => misfitting(),
        }
    }
}

} // verus!
