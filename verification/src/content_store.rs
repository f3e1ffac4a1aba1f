//! The entity store for accounts, blog posts and blog views, held in
//! memory. It gives out identifiers, keeps addresses and slugs unique,
//! refuses references that do not resolve, keeps the posts in the order of
//! the listing, and deletes an account's posts and their views with it.

use vstd::prelude::*;
use crate::content_flows::{ContentAnswer, ContentAnswerView, ContentQuery, ContentQueryView};
use crate::content_rules::{
    ContentView,
    account_position,
    account_with_email,
    account_with_id,
    has_account,
    has_account_email,
    has_post,
    has_slug,
    lemma_filter_keeps_order,
    lemma_insert_listed,
    matching,
    not_by,
    page_of,
    passes,
    passing,
    post_slot,
    post_with_slug,
    precedes,
    sound,
    view_of_some,
    viewing,
    views_of,
    without_account,
};
use crate::entities::{
    Account,
    AccountView,
    BlogPost,
    BlogPostView,
    BlogView,
    BlogViewView,
    account_views,
    post_views,
    view_views,
};
use crate::errors::{StoreFailure, StoreFailureView};

verus! {

/// The store's words for a reference that does not resolve.
pub open spec fn broken_reference() -> Seq<char> {
    "FOREIGN KEY constraint failed"@
}

/// The store's words when it has no identifier left to give.
pub open spec fn out_of_identifiers() -> Seq<char> {
    "identifiers exhausted"@
}

/// The status that a new post is stored with: the one given, or `draft`.
pub open spec fn stored_status(status: Option<Seq<char>>) -> Option<Seq<char>> {
    match status {
        Some(text) => Some(text),
        None => Some("draft"@),
    }
}

/// The view of an optional account.
pub open spec fn opt_account(o: Option<Account>) -> Option<AccountView> {
    match o {
        Some(a) => Some(a@),
        None => None,
    }
}

/// The view of an optional post.
pub open spec fn opt_post(o: Option<BlogPost>) -> Option<BlogPostView> {
    match o {
        Some(p) => Some(p@),
        None => None,
    }
}

/// What inserting an account with `email` and `name` at `now` returns.
pub open spec fn account_insert_result(c: ContentView, email: Seq<char>, name: Seq<char>, now: i64)
    -> Result<AccountView, StoreFailureView> {
    if has_account_email(c.accounts, email) {
        Err(StoreFailureView::UniqueViolation)
    } else if c.last_account_id == i32::MAX {
        Err(StoreFailureView::Other(out_of_identifiers()))
    } else {
        Ok(
            AccountView {
                id: (c.last_account_id + 1) as i32,
                email,
                name,
                created_at: Some(now),
                updated_at: Some(now),
            },
        )
    }
}

/// The store after inserting an account.
pub open spec fn after_account_insert(
    c: ContentView,
    email: Seq<char>,
    name: Seq<char>,
    now: i64,
) -> ContentView {
    match account_insert_result(c, email, name, now) {
        Ok(account) => ContentView {
            accounts: c.accounts.push(account),
            last_account_id: account.id,
            ..c
        },
        Err(_) => c,
    }
}

/// The row that a new post is stored as when the store gives it `id`.
pub open spec fn stored_post(post: BlogPostView, id: i32) -> BlogPostView {
    BlogPostView { id, status: stored_status(post.status), ..post }
}

/// What inserting a post returns: the identifier given to it.
pub open spec fn post_insert_result(c: ContentView, post: BlogPostView) -> Result<
    i32,
    StoreFailureView,
> {
    if !has_account(c.accounts, post.author_id) {
        Err(StoreFailureView::Other(broken_reference()))
    } else if has_slug(c.posts, post.slug) {
        Err(StoreFailureView::UniqueViolation)
    } else if c.last_post_id == i32::MAX {
        Err(StoreFailureView::Other(out_of_identifiers()))
    } else {
        Ok((c.last_post_id + 1) as i32)
    }
}

/// The store after inserting a post.
pub open spec fn after_post_insert(c: ContentView, post: BlogPostView) -> ContentView {
    match post_insert_result(c, post) {
        Ok(id) => {
            let row = stored_post(post, id);
            ContentView {
                posts: c.posts.insert(post_slot(c.posts, row), row),
                last_post_id: id,
                ..c
            }
        },
        Err(_) => c,
    }
}

/// What recording a view of `post_id` returns.
pub open spec fn view_insert_result(c: ContentView, post_id: i32) -> Result<(), StoreFailureView> {
    if !has_post(c.posts, post_id) {
        Err(StoreFailureView::Other(broken_reference()))
    } else if c.last_view_id == i32::MAX {
        Err(StoreFailureView::Other(out_of_identifiers()))
    } else {
        Ok(())
    }
}

/// The store after recording a view of `post_id` from `ip_address` at `now`.
pub open spec fn after_view_insert(
    c: ContentView,
    post_id: i32,
    ip_address: Seq<char>,
    now: i64,
) -> ContentView {
    match view_insert_result(c, post_id) {
        Ok(_) => ContentView {
            views: c.views.push(
                BlogViewView {
                    id: (c.last_view_id + 1) as i32,
                    post_id,
                    ip_address,
                    timestamp: now,
                },
            ),
            last_view_id: (c.last_view_id + 1) as i32,
            ..c
        },
        Err(_) => c,
    }
}

/// The view of a result that carries an account.
pub open spec fn account_outcome(r: Result<Account, StoreFailure>) -> Result<
    AccountView,
    StoreFailureView,
> {
    match r {
        Ok(account) => Ok(account@),
        Err(e) => Err(e@),
    }
}

/// The view of a result that carries an identifier.
pub open spec fn id_outcome(r: Result<i32, StoreFailure>) -> Result<i32, StoreFailureView> {
    match r {
        Ok(id) => Ok(id),
        Err(e) => Err(e@),
    }
}

/// The view of a result that carries nothing.
pub open spec fn unit_outcome(r: Result<(), StoreFailure>) -> Result<(), StoreFailureView> {
    match r {
        Ok(_) => Ok(()),
        Err(e) => Err(e@),
    }
}

/// What the store does with a statement: the store afterwards, and its
/// answer.
pub open spec fn content_executed(c: ContentView, query: ContentQueryView) -> (
    ContentView,
    ContentAnswerView,
) {
    match query {
        ContentQueryView::FindAccountByEmail { email } => (
            c,
            ContentAnswerView::Account(account_with_email(c.accounts, email)),
        ),
        ContentQueryView::FindAccountById { id } => (
            c,
            ContentAnswerView::Account(account_with_id(c.accounts, id)),
        ),
        ContentQueryView::InsertAccount { email, name, now } => (
            after_account_insert(c, email, name, now),
            match account_insert_result(c, email, name, now) {
                Ok(account) => ContentAnswerView::AccountCreated(account),
                Err(e) => ContentAnswerView::Failed(e),
            },
        ),
        ContentQueryView::CountPosts { status } => (
            c,
            ContentAnswerView::Count(matching(c.posts, status).len() as u64),
        ),
        ContentQueryView::SelectPosts { status, size, index } => (
            c,
            ContentAnswerView::Posts(page_of(matching(c.posts, status), size, index)),
        ),
        ContentQueryView::FindPostBySlug { slug } => (
            c,
            ContentAnswerView::Post(post_with_slug(c.posts, slug)),
        ),
        ContentQueryView::InsertView { post_id, ip_address, now } => (
            after_view_insert(c, post_id, ip_address, now),
            match view_insert_result(c, post_id) {
                Ok(_) => ContentAnswerView::Recorded,
                Err(e) => ContentAnswerView::Failed(e),
            },
        ),
        ContentQueryView::CountViews { post_id } => (
            c,
            ContentAnswerView::Count(views_of(c.views, post_id).len() as u64),
        ),
    }
}

/// The accounts, posts and views of the service, held in memory.
pub struct ContentStore {
    accounts: Vec<Account>,
    posts: Vec<BlogPost>,
    views: Vec<BlogView>,
    last_account_id: i32,
    last_post_id: i32,
    last_view_id: i32,
}

impl View for ContentStore {
    type V = ContentView;

    closed spec fn view(&self) -> ContentView {
        ContentView {
            accounts: account_views(self.accounts@),
            posts: post_views(self.posts@),
            views: view_views(self.views@),
            last_account_id: self.last_account_id,
            last_post_id: self.last_post_id,
            last_view_id: self.last_view_id,
        }
    }
}

impl ContentStore {
    /// The invariant of the store.
    pub open spec fn wf(&self) -> bool {
        sound(self@)
    }

    /// An empty store that has given out no identifier.
    pub fn new() -> (r: ContentStore)
        ensures
            r.wf(),
            r@.accounts.len() == 0,
            r@.posts.len() == 0,
            r@.views.len() == 0,
            r@.last_account_id == 0,
            r@.last_post_id == 0,
            r@.last_view_id == 0,
    {
        ContentStore {
            accounts: Vec::new(),
            posts: Vec::new(),
            views: Vec::new(),
            last_account_id: 0,
            last_post_id: 0,
            last_view_id: 0,
        }
    }

    /// Runs one statement on the store and returns the store's answer.
    pub fn run(&mut self, query: ContentQuery) -> (r: ContentAnswer)
        requires
            old(self).wf(),
        ensures
            final(self).wf(),
            (final(self)@, r@) == content_executed(old(self)@, query@),
    {
        match query {
            ContentQuery::FindAccountByEmail { email } => ContentAnswer::Account(
                self.find_account_by_email(email.as_str()),
            ),
            ContentQuery::FindAccountById { id } => ContentAnswer::Account(
                self.find_account_by_id(id),
            ),
            ContentQuery::InsertAccount { email, name, now } => match self.insert_account(
                email,
                name,
                now,
            ) {
                Ok(account) => ContentAnswer::AccountCreated(account),
                Err(failure) => ContentAnswer::Failed(failure),
            },
            ContentQuery::CountPosts { status } => ContentAnswer::Count(
                self.count_posts(status.as_str()),
            ),
            ContentQuery::SelectPosts { status, size, index } => ContentAnswer::Posts(
                self.select_posts(status.as_str(), size, index),
            ),
            ContentQuery::FindPostBySlug { slug } => ContentAnswer::Post(
                self.find_post_by_slug(slug.as_str()),
            ),
            ContentQuery::InsertView { post_id, ip_address, now } => match self.record_view(
                post_id,
                ip_address,
                now,
            ) {
                Ok(_) => ContentAnswer::Recorded,
                Err(failure) => ContentAnswer::Failed(failure),
            },
            ContentQuery::CountViews { post_id } => ContentAnswer::Count(self.count_views(post_id)),
        }
    }

    fn account_index_by_id(&self, id: i32) -> (r: Option<usize>)
        ensures
            match r {
                Some(i) => i < self@.accounts.len() && self@.accounts[i as int].id == id,
                None => !has_account(self@.accounts, id),
            },
    {
        let n = self.accounts.len();
        let mut i: usize = 0;
        while i < n
            invariant
                i <= n,
                n == self.accounts@.len(),
                forall|j: int| 0 <= j < i ==> (#[trigger] self@.accounts[j]).id != id,
            decreases n - i,
        {
            if self.accounts[i].id == id {
                return Some(i);
            }
            i += 1;
        }
        None
    }

    fn account_index_by_email(&self, email: &String) -> (r: Option<usize>)
        ensures
            match r {
                Some(i) => i < self@.accounts.len() && self@.accounts[i as int].email == email@,
                None => !has_account_email(self@.accounts, email@),
            },
    {
        let n = self.accounts.len();
        let mut i: usize = 0;
        while i < n
            invariant
                i <= n,
                n == self.accounts@.len(),
                forall|j: int| 0 <= j < i ==> (#[trigger] self@.accounts[j]).email != email@,
            decreases n - i,
        {
            if self.accounts[i].email == *email {
                return Some(i);
            }
            i += 1;
        }
        None
    }

    fn post_index_by_id(&self, id: i32) -> (r: Option<usize>)
        ensures
            match r {
                Some(i) => i < self@.posts.len() && self@.posts[i as int].id == id,
                None => !has_post(self@.posts, id),
            },
    {
        let n = self.posts.len();
        let mut i: usize = 0;
        while i < n
            invariant
                i <= n,
                n == self.posts@.len(),
                forall|j: int| 0 <= j < i ==> (#[trigger] self@.posts[j]).id != id,
            decreases n - i,
        {
            if self.posts[i].id == id {
                return Some(i);
            }
            i += 1;
        }
        None
    }

    fn post_index_by_slug(&self, slug: &String) -> (r: Option<usize>)
        ensures
            match r {
                Some(i) => i < self@.posts.len() && self@.posts[i as int].slug == slug@,
                None => !has_slug(self@.posts, slug@),
            },
    {
        let n = self.posts.len();
        let mut i: usize = 0;
        while i < n
            invariant
                i <= n,
                n == self.posts@.len(),
                forall|j: int| 0 <= j < i ==> (#[trigger] self@.posts[j]).slug != slug@,
            decreases n - i,
        {
            if self.posts[i].slug == *slug {
                return Some(i);
            }
            i += 1;
        }
        None
    }

    /// The account with the given identifier.
    pub fn find_account_by_id(&self, id: i32) -> (r: Option<Account>)
        requires
            self.wf(),
        ensures
            opt_account(r) == account_with_id(self@.accounts, id),
    {
        match self.account_index_by_id(id) {
            Some(i) => {
                proof {
                    let accounts = self@.accounts;
                    let k = choose|k: int|
                        0 <= k < accounts.len() && (#[trigger] accounts[k]).id == id;
                    assert(k == i);
                }
                Some(self.accounts[i].clone())
            },
            None => None,
        }
    }

    /// The account with the given address.
    pub fn find_account_by_email(&self, email: &str) -> (r: Option<Account>)
        requires
            self.wf(),
        ensures
            opt_account(r) == account_with_email(self@.accounts, email@),
    {
        let needle = String::from_str(email);
        match self.account_index_by_email(&needle) {
            Some(i) => {
                proof {
                    let accounts = self@.accounts;
                    let k = choose|k: int|
                        0 <= k < accounts.len() && (#[trigger] accounts[k]).email == email@;
                    assert(k == i);
                }
                Some(self.accounts[i].clone())
            },
            None => None,
        }
    }

    /// Creates an account and gives it the next identifier. An address in
    /// use is refused as a uniqueness violation; the store then stays as it
    /// was.
    pub fn insert_account(&mut self, email: String, name: String, now: i64) -> (r: Result<
        Account,
        StoreFailure,
    >)
        requires
            old(self).wf(),
        ensures
            final(self).wf(),
            account_outcome(r) == account_insert_result(old(self)@, email@, name@, now),
            final(self)@ == after_account_insert(old(self)@, email@, name@, now),
    {
        if self.account_index_by_email(&email).is_some() {
            return Err(StoreFailure::UniqueViolation);
        }
        if self.last_account_id == i32::MAX {
            return Err(StoreFailure::Other(String::from_str("identifiers exhausted")));
        }
        let id = self.last_account_id + 1;
        let account = Account { id, email, name, created_at: Some(now), updated_at: Some(now) };
        let copy = account.clone();
        let ghost before = self@;
        let ghost row = account@;
        self.accounts.push(account);
        self.last_account_id = id;
        proof {
            let after = self@;
            assert(after.accounts =~= before.accounts.push(row));
            assert forall|i: int| 0 <= i < after.posts.len() implies has_account(
                after.accounts,
                (#[trigger] after.posts[i]).author_id,
            ) by {
                let k = choose|k: int|
                    0 <= k < before.accounts.len() && (#[trigger] before.accounts[k]).id
                        == before.posts[i].author_id;
                assert(after.accounts[k] == before.accounts[k]);
            }
            assert forall|i: int, j: int|
                0 <= i < after.accounts.len() && 0 <= j < after.accounts.len() && i
                    != j implies (#[trigger] after.accounts[i]).id != (
            #[trigger] after.accounts[j]).id by {
                if i < before.accounts.len() {
                    assert(after.accounts[i] == before.accounts[i]);
                }
                if j < before.accounts.len() {
                    assert(after.accounts[j] == before.accounts[j]);
                }
            }
            assert forall|i: int, j: int|
                0 <= i < after.accounts.len() && 0 <= j < after.accounts.len() && i
                    != j implies (#[trigger] after.accounts[i]).email != (
            #[trigger] after.accounts[j]).email by {
                if i < before.accounts.len() {
                    assert(after.accounts[i] == before.accounts[i]);
                }
                if j < before.accounts.len() {
                    assert(after.accounts[j] == before.accounts[j]);
                }
            }
            assert forall|i: int| 0 <= i < after.accounts.len() implies 0 < (
            #[trigger] after.accounts[i]).id <= after.last_account_id by {
                if i < before.accounts.len() {
                    assert(after.accounts[i] == before.accounts[i]);
                }
            }
        }
        Ok(copy)
    }

    /// Creates a post and gives it the next identifier; the identifier that
    /// the argument carries is not used. A post without a status is stored as
    /// a draft. An author that is no account and a slug in use are refused;
    /// the store then stays as it was.
    pub fn insert_post(&mut self, post: BlogPost) -> (r: Result<i32, StoreFailure>)
        requires
            old(self).wf(),
        ensures
            final(self).wf(),
            id_outcome(r) == post_insert_result(old(self)@, post@),
            final(self)@ == after_post_insert(old(self)@, post@),
    {
        if self.account_index_by_id(post.author_id).is_none() {
            return Err(StoreFailure::Other(String::from_str("FOREIGN KEY constraint failed")));
        }
        if self.post_index_by_slug(&post.slug).is_some() {
            return Err(StoreFailure::UniqueViolation);
        }
        if self.last_post_id == i32::MAX {
            return Err(StoreFailure::Other(String::from_str("identifiers exhausted")));
        }
        let id = self.last_post_id + 1;
        let ghost given = post@;
        let row = BlogPost {
            id,
            author_id: post.author_id,
            title: post.title,
            slug: post.slug,
            excerpt: post.excerpt,
            content: post.content,
            status: match post.status {
                Some(text) => Some(text),
                None => Some(String::from_str("draft")),
            },
            published_at: post.published_at,
            created_at: post.created_at,
            updated_at: post.updated_at,
        };
        assert(row@ == stored_post(given, id));
        let n = self.posts.len();
        let mut p: usize = 0;
        let ghost posts = self@.posts;
        proof {
            assert(posts.subrange(0, n as int) == posts);
        }
        while p < n && !newer(&row, &self.posts[p])
            invariant
                p <= n,
                n == self.posts@.len(),
                posts == self@.posts,
                post_slot(posts, row@) == p + post_slot(posts.subrange(p as int, n as int), row@),
            decreases n - p,
        {
            proof {
                let tail = posts.subrange(p as int, n as int);
                assert(tail.first() == posts[p as int]);
                assert(tail.drop_first() == posts.subrange(p + 1, n as int));
            }
            p += 1;
        }
        proof {
            let tail = posts.subrange(p as int, n as int);
            if p < n {
                assert(tail.first() == posts[p as int]);
            }
            assert(post_slot(tail, row@) == 0);
            lemma_insert_listed(posts, row@);
        }
        let ghost before = self@;
        let ghost stored = row@;
        self.posts.insert(p, row);
        self.last_post_id = id;
        proof {
            let after = self@;
            assert(after.posts =~= before.posts.insert(p as int, stored));
            assert forall|i: int| 0 <= i < after.posts.len() && i != p implies (
            #[trigger] after.posts[i]) == before.posts[if i < p {
                i
            } else {
                i - 1
            }] by {}
            assert forall|i: int| 0 <= i < after.posts.len() implies 0 < (
            #[trigger] after.posts[i]).id <= after.last_post_id by {
                if i != p {
                    assert(after.posts[i] == before.posts[if i < p { i } else { i - 1 }]);
                }
            }
            assert forall|i: int, j: int|
                0 <= i < after.posts.len() && 0 <= j < after.posts.len() && i != j implies (
            #[trigger] after.posts[i]).id != (#[trigger] after.posts[j]).id by {
                if i != p {
                    assert(after.posts[i] == before.posts[if i < p { i } else { i - 1 }]);
                }
                if j != p {
                    assert(after.posts[j] == before.posts[if j < p { j } else { j - 1 }]);
                }
            }
            assert forall|i: int, j: int|
                0 <= i < after.posts.len() && 0 <= j < after.posts.len() && i != j implies (
            #[trigger] after.posts[i]).slug != (#[trigger] after.posts[j]).slug by {
                if i != p {
                    assert(after.posts[i] == before.posts[if i < p { i } else { i - 1 }]);
                }
                if j != p {
                    assert(after.posts[j] == before.posts[if j < p { j } else { j - 1 }]);
                }
            }
            assert forall|i: int| 0 <= i < after.posts.len() implies has_account(
                after.accounts,
                (#[trigger] after.posts[i]).author_id,
            ) by {
                if i != p {
                    assert(after.posts[i] == before.posts[if i < p { i } else { i - 1 }]);
                }
            }
            assert forall|i: int| 0 <= i < after.views.len() implies has_post(
                after.posts,
                (#[trigger] after.views[i]).post_id,
            ) by {
                let k = choose|k: int|
                    0 <= k < before.posts.len() && (#[trigger] before.posts[k]).id
                        == before.views[i].post_id;
                let m = if k < p {
                    k
                } else {
                    k + 1
                };
                assert(after.posts[m] == before.posts[k]);
            }
        }
        Ok(id)
    }

    /// The post with the given slug.
    pub fn find_post_by_slug(&self, slug: &str) -> (r: Option<BlogPost>)
        requires
            self.wf(),
        ensures
            opt_post(r) == post_with_slug(self@.posts, slug@),
    {
        let needle = String::from_str(slug);
        match self.post_index_by_slug(&needle) {
            Some(i) => {
                proof {
                    let posts = self@.posts;
                    let k = choose|k: int| 0 <= k < posts.len() && (#[trigger] posts[k]).slug == slug@;
                    assert(k == i);
                }
                Some(self.posts[i].clone())
            },
            None => None,
        }
    }

    /// Records a view of the post `post_id` from `ip_address` at `now`. A
    /// post that does not exist is refused; the store then stays as it was.
    pub fn record_view(&mut self, post_id: i32, ip_address: String, now: i64) -> (r: Result<
        (),
        StoreFailure,
    >)
        requires
            old(self).wf(),
        ensures
            final(self).wf(),
            unit_outcome(r) == view_insert_result(old(self)@, post_id),
            final(self)@ == after_view_insert(old(self)@, post_id, ip_address@, now),
    {
        if self.post_index_by_id(post_id).is_none() {
            return Err(StoreFailure::Other(String::from_str("FOREIGN KEY constraint failed")));
        }
        if self.last_view_id == i32::MAX {
            return Err(StoreFailure::Other(String::from_str("identifiers exhausted")));
        }
        let id = self.last_view_id + 1;
        let view = BlogView { id, post_id, ip_address, timestamp: now };
        let ghost before = self@;
        let ghost row = view@;
        self.views.push(view);
        self.last_view_id = id;
        proof {
            let after = self@;
            assert(after.views =~= before.views.push(row));
            assert forall|i: int| 0 <= i < after.views.len() implies 0 < (
            #[trigger] after.views[i]).id <= after.last_view_id by {
                if i < before.views.len() {
                    assert(after.views[i] == before.views[i]);
                }
            }
            assert forall|i: int, j: int|
                0 <= i < after.views.len() && 0 <= j < after.views.len() && i != j implies (
            #[trigger] after.views[i]).id != (#[trigger] after.views[j]).id by {
                if i < before.views.len() {
                    assert(after.views[i] == before.views[i]);
                }
                if j < before.views.len() {
                    assert(after.views[j] == before.views[j]);
                }
            }
            assert forall|i: int| 0 <= i < after.views.len() implies has_post(
                after.posts,
                (#[trigger] after.views[i]).post_id,
            ) by {
                if i < before.views.len() {
                    assert(after.views[i] == before.views[i]);
                }
            }
        }
        Ok(())
    }

    /// The number of views recorded for the post `post_id`.
    pub fn count_views(&self, post_id: i32) -> (r: u64)
        ensures
            r == views_of(self@.views, post_id).len(),
    {
        let n = self.views.len();
        let mut count: usize = 0;
        let mut i: usize = 0;
        let ghost views = self@.views;
        proof {
            reveal(Seq::filter);
            assert(views.subrange(0, 0).len() == 0);
        }
        while i < n
            invariant
                i <= n,
                n == self.views@.len(),
                views == self@.views,
                count <= i,
                count == views.subrange(0, i as int).filter(viewing(post_id)).len(),
            decreases n - i,
        {
            proof {
                reveal(Seq::filter);
                let next = views.subrange(0, i + 1);
                assert(next.drop_last() == views.subrange(0, i as int));
                assert(next.last() == views[i as int]);
            }
            if self.views[i].post_id == post_id {
                count += 1;
            }
            i += 1;
        }
        proof {
            assert(views.subrange(0, n as int) == views);
        }
        count as u64
    }

    /// The posts that pass the status filter, in the order of the listing.
    pub fn matching_posts(&self, status: &str) -> (r: Vec<BlogPost>)
        ensures
            post_views(r@) == matching(self@.posts, status@),
    {
        let n = self.posts.len();
        let wanted = String::from_str(status);
        let every = status.unicode_len() == 0;
        let mut out: Vec<BlogPost> = Vec::new();
        let mut i: usize = 0;
        let ghost posts = self@.posts;
        proof {
            reveal(Seq::filter);
            assert(post_views(out@) =~= posts.subrange(0, 0).filter(passing(status@)));
        }
        while i < n
            invariant
                i <= n,
                n == self.posts@.len(),
                posts == self@.posts,
                wanted@ == status@,
                every == (status@.len() == 0),
                post_views(out@) == posts.subrange(0, i as int).filter(passing(status@)),
            decreases n - i,
        {
            let post = &self.posts[i];
            let keep = every || match &post.status {
                Some(text) => *text == wanted,
                None => false,
            };
            proof {
                reveal(Seq::filter);
                let next = posts.subrange(0, i + 1);
                assert(next.drop_last() == posts.subrange(0, i as int));
                assert(next.last() == posts[i as int]);
                assert(keep == passes(posts[i as int], status@));
            }
            if keep {
                let ghost before = post_views(out@);
                out.push(post.clone());
                proof {
                    assert(post_views(out@) =~= before.push(posts[i as int]));
                }
            }
            i += 1;
        }
        proof {
            assert(posts.subrange(0, n as int) == posts);
        }
        out
    }

    /// The number of posts that pass the status filter.
    pub fn count_posts(&self, status: &str) -> (r: u64)
        ensures
            r == matching(self@.posts, status@).len(),
    {
        let found = self.matching_posts(status);
        proof {
            assert(post_views(found@).len() == found@.len());
        }
        found.len() as u64
    }

    /// One page of the posts that pass the status filter: `size` posts from
    /// the page with index `index` (the first page has index 0) of the
    /// listing.
    pub fn select_posts(&self, status: &str, size: u64, index: u64) -> (r: Vec<BlogPost>)
        ensures
            post_views(r@) == page_of(matching(self@.posts, status@), size, index),
    {
        let found = self.matching_posts(status);
        let n = found.len();
        assert(size * index <= 0xFFFF_FFFF_FFFF_FFFF * 0xFFFF_FFFF_FFFF_FFFF) by (nonlinear_arith)
            requires
                0 <= size <= 0xFFFF_FFFF_FFFF_FFFF,
                0 <= index <= 0xFFFF_FFFF_FFFF_FFFF,
        ;
        let first: u128 = (size as u128) * (index as u128);
        let start: usize = if first > n as u128 {
            n
        } else {
            first as usize
        };
        let end: usize = if size as u128 > (n - start) as u128 {
            n
        } else {
            start + size as usize
        };
        let mut out: Vec<BlogPost> = Vec::new();
        let mut k: usize = start;
        while k < end
            invariant
                start <= k <= end <= n,
                n == found@.len(),
                out@.len() == k - start,
                forall|j: int| 0 <= j < k - start ==> (#[trigger] out@[j])@ == found@[start + j]@,
            decreases end - k,
        {
            out.push(found[k].clone());
            k += 1;
        }
        proof {
            assert(post_views(found@).len() == n);
            assert(post_views(out@) =~= page_of(post_views(found@), size, index));
        }
        out
    }

    /// Deletes the account `id` and, with it, the posts it wrote and the
    /// views of those posts. Returns the number of accounts deleted: 0 where
    /// there was none with that identifier, and the store then stays as it
    /// was.
    pub fn delete_account(&mut self, id: i32) -> (r: u64)
        requires
            old(self).wf(),
        ensures
            final(self).wf(),
            final(self)@ == without_account(old(self)@, id),
            r == if has_account(old(self)@.accounts, id) {
                1u64
            } else {
                0u64
            },
    {
        let ghost before = self@;
        let at = match self.account_index_by_id(id) {
            Some(i) => i,
            None => {
                return 0;
            },
        };
        proof {
            let k = account_position(before.accounts, id);
            assert(k == at);
        }
        let kept_posts = self.posts_not_by(id);
        let kept_views = self.views_within(&kept_posts);
        let gone = self.accounts.remove(at);
        self.posts = kept_posts;
        self.views = kept_views;
        proof {
            let after = self@;
            assert(after.accounts =~= before.accounts.remove(at as int));
            lemma_cascade_sound(before, id);
        }
        1
    }

    fn posts_not_by(&self, author: i32) -> (r: Vec<BlogPost>)
        ensures
            post_views(r@) == self@.posts.filter(not_by(author)),
    {
        let n = self.posts.len();
        let mut out: Vec<BlogPost> = Vec::new();
        let mut i: usize = 0;
        let ghost posts = self@.posts;
        proof {
            reveal(Seq::filter);
            assert(post_views(out@) =~= posts.subrange(0, 0).filter(not_by(author)));
        }
        while i < n
            invariant
                i <= n,
                n == self.posts@.len(),
                posts == self@.posts,
                post_views(out@) == posts.subrange(0, i as int).filter(not_by(author)),
            decreases n - i,
        {
            proof {
                reveal(Seq::filter);
                let next = posts.subrange(0, i + 1);
                assert(next.drop_last() == posts.subrange(0, i as int));
                assert(next.last() == posts[i as int]);
            }
            if self.posts[i].author_id != author {
                let ghost before = post_views(out@);
                out.push(self.posts[i].clone());
                proof {
                    assert(post_views(out@) =~= before.push(posts[i as int]));
                }
            }
            i += 1;
        }
        proof {
            assert(posts.subrange(0, n as int) == posts);
        }
        out
    }

    fn views_within(&self, posts: &Vec<BlogPost>) -> (r: Vec<BlogView>)
        ensures
            view_views(r@) == self@.views.filter(view_of_some(post_views(posts@))),
    {
        let n = self.views.len();
        let mut out: Vec<BlogView> = Vec::new();
        let mut i: usize = 0;
        let ghost views = self@.views;
        let ghost kept = post_views(posts@);
        proof {
            reveal(Seq::filter);
            assert(view_views(out@) =~= views.subrange(0, 0).filter(view_of_some(kept)));
        }
        while i < n
            invariant
                i <= n,
                n == self.views@.len(),
                views == self@.views,
                kept == post_views(posts@),
                view_views(out@) == views.subrange(0, i as int).filter(view_of_some(kept)),
            decreases n - i,
        {
            proof {
                reveal(Seq::filter);
                let next = views.subrange(0, i + 1);
                assert(next.drop_last() == views.subrange(0, i as int));
                assert(next.last() == views[i as int]);
            }
            let view = &self.views[i];
            if holds_post(posts, view.post_id) {
                let ghost before = view_views(out@);
                out.push(
                    BlogView {
                        id: view.id,
                        post_id: view.post_id,
                        ip_address: view.ip_address.clone(),
                        timestamp: view.timestamp,
                    },
                );
                proof {
                    assert(view_views(out@) =~= before.push(views[i as int]));
                }
            }
            i += 1;
        }
        proof {
            assert(views.subrange(0, n as int) == views);
        }
        out
    }
}

/// Tells whether `a` must stand before `b` in the listing.
pub fn newer(a: &BlogPost, b: &BlogPost) -> (r: bool)
    ensures
        r == precedes(a@, b@),
{
    if instant_later(a.published_at, b.published_at) {
        true
    } else if same_instant(a.published_at, b.published_at) {
        instant_later(a.created_at, b.created_at)
    } else {
        false
    }
}

fn instant_later(a: Option<i64>, b: Option<i64>) -> (r: bool)
    ensures
        r == crate::content_rules::later(a, b),
{
    match (a, b) {
        (Some(x), Some(y)) => x > y,
        (Some(_), None) => true,
        (None, _) => false,
    }
}

fn same_instant(a: Option<i64>, b: Option<i64>) -> (r: bool)
    ensures
        r == (a == b),
{
    match (a, b) {
        (Some(x), Some(y)) => x == y,
        (None, None) => true,
        _ => false,
    }
}

fn holds_post(posts: &Vec<BlogPost>, id: i32) -> (r: bool)
    ensures
        r == has_post(post_views(posts@), id),
{
    let n = posts.len();
    let mut i: usize = 0;
    while i < n
        invariant
            i <= n,
            n == posts@.len(),
            forall|j: int| 0 <= j < i ==> (#[trigger] post_views(posts@)[j]).id != id,
        decreases n - i,
    {
        if posts[i].id == id {
            assert(post_views(posts@)[i as int].id == id);
            return true;
        }
        i += 1;
    }
    false
}

/// Deleting an account with its posts and their views keeps the store
/// sound.
pub proof fn lemma_cascade_sound(c: ContentView, id: i32)
    requires
        sound(c),
    ensures
        sound(without_account(c, id)),
{
    if has_account(c.accounts, id) {
        let after = without_account(c, id);
        let at = account_position(c.accounts, id);
        assert forall|i: int| 0 <= i < after.accounts.len() implies #[trigger] after.accounts[i]
            == c.accounts[if i < at {
            i
        } else {
            i + 1
        }] by {}
        assert forall|i: int| 0 <= i < after.accounts.len() implies 0 < (
        #[trigger] after.accounts[i]).id <= after.last_account_id by {
            assert(after.accounts[i] == c.accounts[if i < at { i } else { i + 1 }]);
        }
        assert forall|i: int, j: int|
            0 <= i < after.accounts.len() && 0 <= j < after.accounts.len() && i != j implies (
        #[trigger] after.accounts[i]).id != (#[trigger] after.accounts[j]).id by {
            assert(after.accounts[i] == c.accounts[if i < at { i } else { i + 1 }]);
            assert(after.accounts[j] == c.accounts[if j < at { j } else { j + 1 }]);
        }
        assert forall|i: int, j: int|
            0 <= i < after.accounts.len() && 0 <= j < after.accounts.len() && i != j implies (
        #[trigger] after.accounts[i]).email != (#[trigger] after.accounts[j]).email by {
            assert(after.accounts[i] == c.accounts[if i < at { i } else { i + 1 }]);
            assert(after.accounts[j] == c.accounts[if j < at { j } else { j + 1 }]);
        }
        let apart = |a: BlogPostView, b: BlogPostView|
            a.id != b.id && a.slug != b.slug && !precedes(b, a);
        assert forall|i: int, j: int| 0 <= i < j < c.posts.len() implies #[trigger] apart(
            c.posts[i],
            c.posts[j],
        ) by {}
        lemma_filter_keeps_order(c.posts, not_by(id), apart);
        let posts = after.posts;
        assert forall|i: int, j: int|
            0 <= i < posts.len() && 0 <= j < posts.len() && i != j implies (#[trigger] posts[i]).id
            != (#[trigger] posts[j]).id by {
            if i < j {
                assert(apart(posts[i], posts[j]));
            } else {
                assert(apart(posts[j], posts[i]));
            }
        }
        assert forall|i: int, j: int|
            0 <= i < posts.len() && 0 <= j < posts.len() && i != j implies (
        #[trigger] posts[i]).slug != (#[trigger] posts[j]).slug by {
            if i < j {
                assert(apart(posts[i], posts[j]));
            } else {
                assert(apart(posts[j], posts[i]));
            }
        }
        assert forall|i: int, j: int| 0 <= i < j < posts.len() implies !precedes(
            #[trigger] posts[j],
            #[trigger] posts[i],
        ) by {
            assert(apart(posts[i], posts[j]));
        }
        assert forall|i: int| 0 <= i < posts.len() implies 0 < (#[trigger] posts[i]).id
            <= after.last_post_id && has_account(after.accounts, posts[i].author_id) by {
            assert(c.posts.contains(posts[i]));
            let k = choose|k: int| 0 <= k < c.posts.len() && c.posts[k] == posts[i];
            assert(0 < c.posts[k].id);
            assert(not_by(id)(posts[i]));
            let a = choose|a: int|
                0 <= a < c.accounts.len() && (#[trigger] c.accounts[a]).id == c.posts[k].author_id;
            assert(a != at);
            let b = if a < at {
                a
            } else {
                a - 1
            };
            assert(after.accounts[b] == c.accounts[a]);
        }
        let distinct = |a: BlogViewView, b: BlogViewView| a.id != b.id;
        assert forall|i: int, j: int| 0 <= i < j < c.views.len() implies #[trigger] distinct(
            c.views[i],
            c.views[j],
        ) by {}
        lemma_filter_keeps_order(c.views, view_of_some(posts), distinct);
        let views = after.views;
        assert forall|i: int, j: int|
            0 <= i < views.len() && 0 <= j < views.len() && i != j implies (#[trigger] views[i]).id
            != (#[trigger] views[j]).id by {
            if i < j {
                assert(distinct(views[i], views[j]));
            } else {
                assert(distinct(views[j], views[i]));
            }
        }
        assert forall|i: int| 0 <= i < views.len() implies 0 < (#[trigger] views[i]).id
            <= after.last_view_id && has_post(posts, views[i].post_id) by {
            assert(c.views.contains(views[i]));
            let k = choose|k: int| 0 <= k < c.views.len() && c.views[k] == views[i];
            assert(0 < c.views[k].id);
            assert(view_of_some(posts)(views[i]));
        }
    }
}

/// After an account was deleted, neither it nor any post it wrote is left,
/// and every view that is left belongs to a post that is left.
pub proof fn cascade_leaves_nothing_behind(c: ContentView, id: i32)
    requires
        sound(c),
    ensures
        !has_account(without_account(c, id).accounts, id),
        forall|i: int|
            0 <= i < without_account(c, id).posts.len() ==> (#[trigger] without_account(
                c,
                id,
            ).posts[i]).author_id != id,
        forall|i: int|
            0 <= i < without_account(c, id).views.len() ==> has_post(
                without_account(c, id).posts,
                (#[trigger] without_account(c, id).views[i]).post_id,
            ),
{
    lemma_cascade_sound(c, id);
    let after = without_account(c, id);
    if has_account(c.accounts, id) {
        let at = account_position(c.accounts, id);
        if has_account(after.accounts, id) {
            let k = choose|k: int| 0 <= k < after.accounts.len() && (#[trigger] after.accounts[k]).id
                == id;
            let j = if k < at {
                k
            } else {
                k + 1
            };
            assert(after.accounts[k] == c.accounts[j]);
            assert(c.accounts[j].id != c.accounts[at].id);
        }
        let any = |a: BlogPostView, b: BlogPostView| true;
        lemma_filter_keeps_order(c.posts, not_by(id), any);
        assert forall|i: int| 0 <= i < after.posts.len() implies (#[trigger] after.posts[i]).author_id
            != id by {
            assert(not_by(id)(after.posts[i]));
        }
    } else {
        assert forall|i: int| 0 <= i < after.posts.len() implies (#[trigger] after.posts[i]).author_id
            != id by {
            assert(has_account(c.accounts, c.posts[i].author_id));
        }
    }
}

} // verus!
