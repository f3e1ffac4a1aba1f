//! The blog read path: the paginated listing and the reading of one post,
//! which records a view of it.

use vstd::prelude::*;
use crate::content_rules::{
    ContentView,
    has_post,
    has_slug,
    lemma_filter_keeps_order,
    listed,
    matching,
    page_of,
    passes,
    passing,
    post_with_slug,
    precedes,
    sound,
    viewing,
    views_of,
};
use crate::content_store::after_view_insert;
use crate::entities::{BlogPost, BlogPostView, BlogViewView, post_views};
use crate::errors::{AppError, AppErrorView};
use crate::text::opt_text;

verus! {

pub const DEFAULT_PAGE: u64 = 1;

pub const DEFAULT_PER_PAGE: u64 = 10;

pub const MAX_PER_PAGE: u64 = 100;

/// The query of the blog listing, as the request carries it.
#[derive(Debug, PartialEq, Eq)]
pub struct ListParams {
    pub page: Option<u64>,
    pub per_page: Option<u64>,
    pub status: Option<String>,
}

/// A post as the listing shows it.
#[derive(Debug, PartialEq, Eq)]
pub struct BlogListItem {
    pub id: i32,
    pub slug: String,
    pub title: String,
    pub excerpt: Option<String>,
    pub status: Option<String>,
    pub published_at: Option<i64>,
}

/// The mathematical value of a [`BlogListItem`].
pub struct BlogListItemView {
    pub id: i32,
    pub slug: Seq<char>,
    pub title: Seq<char>,
    pub excerpt: Option<Seq<char>>,
    pub status: Option<Seq<char>>,
    pub published_at: Option<i64>,
}

impl View for BlogListItem {
    type V = BlogListItemView;

    open spec fn view(&self) -> BlogListItemView {
        BlogListItemView {
            id: self.id,
            slug: self.slug@,
            title: self.title@,
            excerpt: opt_text(self.excerpt),
            status: opt_text(self.status),
            published_at: self.published_at,
        }
    }
}

/// One page of the listing, with the totals of the whole listing.
#[derive(Debug, PartialEq, Eq)]
pub struct BlogsListResponse {
    pub items: Vec<BlogListItem>,
    pub page: u64,
    pub per_page: u64,
    pub total: u64,
    pub total_pages: u64,
}

/// The mathematical value of a [`BlogsListResponse`].
pub struct BlogsListView {
    pub items: Seq<BlogListItemView>,
    pub page: u64,
    pub per_page: u64,
    pub total: u64,
    pub total_pages: u64,
}

/// The views of a run of items, in order.
pub open spec fn item_views(items: Seq<BlogListItem>) -> Seq<BlogListItemView> {
    items.map_values(|item: BlogListItem| item@)
}

impl View for BlogsListResponse {
    type V = BlogsListView;

    open spec fn view(&self) -> BlogsListView {
        BlogsListView {
            items: item_views(self.items@),
            page: self.page,
            per_page: self.per_page,
            total: self.total,
            total_pages: self.total_pages,
        }
    }
}

/// A post as a reading of it shows it, with the number of its views.
#[derive(Debug, PartialEq, Eq)]
pub struct BlogDetailResponse {
    pub id: i32,
    pub author_id: i32,
    pub title: String,
    pub slug: String,
    pub excerpt: Option<String>,
    pub content: String,
    pub status: Option<String>,
    pub published_at: Option<i64>,
    pub created_at: Option<i64>,
    pub updated_at: Option<i64>,
    pub views_count: u64,
}

/// The mathematical value of a [`BlogDetailResponse`].
pub struct BlogDetailView {
    pub post: BlogPostView,
    pub views_count: u64,
}

impl View for BlogDetailResponse {
    type V = BlogDetailView;

    open spec fn view(&self) -> BlogDetailView {
        BlogDetailView {
            post: BlogPostView {
                id: self.id,
                author_id: self.author_id,
                title: self.title@,
                slug: self.slug@,
                excerpt: opt_text(self.excerpt),
                content: self.content@,
                status: opt_text(self.status),
                published_at: self.published_at,
                created_at: self.created_at,
                updated_at: self.updated_at,
            },
            views_count: self.views_count,
        }
    }
}

/// The page in force: the one asked for, at least 1; 1 where none is asked
/// for.
pub open spec fn page_for(requested: Option<u64>) -> u64 {
    match requested {
        Some(page) => if page < 1 {
            1
        } else {
            page
        },
        None => DEFAULT_PAGE,
    }
}

/// The page size in force: the one asked for, held to 1..=100; 10 where
/// none is asked for.
pub open spec fn per_page_for(requested: Option<u64>) -> u64 {
    match requested {
        Some(size) => if size < 1 {
            1
        } else if size > MAX_PER_PAGE {
            MAX_PER_PAGE
        } else {
            size
        },
        None => DEFAULT_PER_PAGE,
    }
}

/// The status filter in force: the one asked for; `published` where none
/// is asked for. An empty filter lets every post pass.
pub open spec fn status_for(requested: Option<Seq<char>>) -> Seq<char> {
    match requested {
        Some(status) => status,
        None => "published"@,
    }
}

/// The number of pages that `total` items fill at `per_page` items a page.
pub open spec fn pages_for(total: u64, per_page: u64) -> u64 {
    if per_page == 0 {
        0
    } else {
        (total / per_page + if total % per_page > 0 {
            1int
        } else {
            0int
        }) as u64
    }
}

/// A post as the listing shows it.
pub open spec fn item_of(post: BlogPostView) -> BlogListItemView {
    BlogListItemView {
        id: post.id,
        slug: post.slug,
        title: post.title,
        excerpt: post.excerpt,
        status: post.status,
        published_at: post.published_at,
    }
}

/// The items for a run of posts, in order.
pub open spec fn items_of(posts: Seq<BlogPostView>) -> Seq<BlogListItemView> {
    posts.map_values(|post: BlogPostView| item_of(post))
}

/// The response for the rows of one page and the count of the whole
/// listing.
pub open spec fn response_for(rows: Seq<BlogPostView>, page: u64, per_page: u64, total: u64)
    -> BlogsListView {
    BlogsListView {
        items: items_of(rows),
        page,
        per_page,
        total,
        total_pages: pages_for(total, per_page),
    }
}

/// The listing of `posts` for a query: the posts that pass the status
/// filter, in the order of the listing, cut to the page asked for; the page
/// number as it was asked for; and the totals of all posts that pass.
pub open spec fn listing(
    posts: Seq<BlogPostView>,
    page: Option<u64>,
    per_page: Option<u64>,
    status: Option<Seq<char>>,
) -> BlogsListView {
    let found = matching(posts, status_for(status));
    response_for(
        page_of(found, per_page_for(per_page), (page_for(page) - 1) as u64),
        page_for(page),
        per_page_for(per_page),
        found.len() as u64,
    )
}

/// The page, page size and status filter in force for a query.
#[derive(Debug, PartialEq, Eq)]
pub struct PageRequest {
    pub page: u64,
    pub per_page: u64,
    pub status: String,
}

impl ListParams {
    /// Fills in the defaults and holds page and page size to their ranges.
    pub fn resolve(&self) -> (r: PageRequest)
        ensures
            r.page == page_for(self.page),
            r.per_page == per_page_for(self.per_page),
            r.status@ == status_for(opt_text(self.status)),
            r.page >= 1,
            1 <= r.per_page <= MAX_PER_PAGE,
    {
        let page = match self.page {
            Some(page) => if page < 1 {
                1
            } else {
                page
            },
            None => DEFAULT_PAGE,
        };
        let per_page = match self.per_page {
            Some(size) => if size < 1 {
                1
            } else if size > MAX_PER_PAGE {
                MAX_PER_PAGE
            } else {
                size
            },
            None => DEFAULT_PER_PAGE,
        };
        let status = match &self.status {
            Some(status) => status.clone(),
            None => String::from_str("published"),
        };
        PageRequest { page, per_page, status }
    }
}

/// The number of pages that `total` items fill at `per_page` items a page;
/// none at a page size of 0.
pub fn total_pages(total: u64, per_page: u64) -> (r: u64)
    ensures
        r == pages_for(total, per_page),
{
    if per_page == 0 {
        0
    } else if total % per_page > 0 {
        assert(total / per_page < u64::MAX) by (nonlinear_arith)
            requires
                per_page >= 1,
                total % per_page > 0,
                total <= u64::MAX,
        {
            assert(total == per_page * (total / per_page) + total % per_page);
        }
        total / per_page + 1
    } else {
        total / per_page
    }
}

/// Shapes a post for the listing.
pub fn list_item(post: BlogPost) -> (r: BlogListItem)
    ensures
        r@ == item_of(post@),
{
    BlogListItem {
        id: post.id,
        slug: post.slug,
        title: post.title,
        excerpt: post.excerpt,
        status: post.status,
        published_at: post.published_at,
    }
}

/// Builds the response of the listing from the rows of the page that was
/// fetched and the count of all posts that pass the filter. The page
/// number is the one asked for; the number of pages follows from the count
/// alone.
pub fn list_response(rows: Vec<BlogPost>, page: u64, per_page: u64, total: u64) -> (r:
    BlogsListResponse)
    ensures
        r@ == response_for(post_views(rows@), page, per_page, total),
{
    let n = rows.len();
    let mut items: Vec<BlogListItem> = Vec::new();
    let mut i: usize = 0;
    while i < n
        invariant
            i <= n,
            n == rows@.len(),
            items@.len() == i,
            forall|j: int| 0 <= j < i ==> (#[trigger] items@[j])@ == item_of(rows@[j]@),
        decreases n - i,
    {
        items.push(list_item(rows[i].clone()));
        i += 1;
    }
    proof {
        assert(item_views(items@) =~= items_of(post_views(rows@)));
    }
    BlogsListResponse { items, page, per_page, total, total_pages: total_pages(total, per_page) }
}

/// Builds the response of a reading from the post and the count of its
/// views.
pub fn detail_response(post: BlogPost, views_count: u64) -> (r: BlogDetailResponse)
    ensures
        r@ == (BlogDetailView { post: post@, views_count }),
{
    BlogDetailResponse {
        id: post.id,
        author_id: post.author_id,
        title: post.title,
        slug: post.slug,
        excerpt: post.excerpt,
        content: post.content,
        status: post.status,
        published_at: post.published_at,
        created_at: post.created_at,
        updated_at: post.updated_at,
        views_count,
    }
}

/// The view of a reading's result.
pub open spec fn detail_result(r: Result<BlogDetailResponse, AppError>) -> Result<
    BlogDetailView,
    AppErrorView,
> {
    match r {
        Ok(response) => Ok(response@),
        Err(e) => Err(e@),
    }
}

/// What reading the post `slug` from `origin` at `now` returns on a store:
/// `NotFound` where no post has the slug; else the post with the number of
/// its views after this reading was recorded, if it could be.
pub open spec fn reading(c: ContentView, slug: Seq<char>, origin: Seq<char>, now: i64) -> Result<
    BlogDetailView,
    AppErrorView,
> {
    match post_with_slug(c.posts, slug) {
        None => Err(AppErrorView::NotFound("Blog not found"@)),
        Some(post) => Ok(
            BlogDetailView {
                post,
                views_count: views_of(after_view_insert(c, post.id, origin, now).views, post.id).len() as u64,
            },
        ),
    }
}

/// The store after reading the post `slug`: the view is recorded where the
/// post exists and the store can record it.
pub open spec fn after_reading(c: ContentView, slug: Seq<char>, origin: Seq<char>, now: i64)
    -> ContentView {
    match post_with_slug(c.posts, slug) {
        None => c,
        Some(post) => after_view_insert(c, post.id, origin, now),
    }
}

/// Every reading of an existing post counts itself: where the store can
/// still record a view, the count returned is one more than the number of
/// views before, and a second reading returns one more again.
pub proof fn reading_counts_itself(
    c: ContentView,
    slug: Seq<char>,
    first_origin: Seq<char>,
    second_origin: Seq<char>,
    first_now: i64,
    second_now: i64,
)
    requires
        sound(c),
        has_slug(c.posts, slug),
        c.last_view_id < i32::MAX - 1,
    ensures
        ({
            let post = post_with_slug(c.posts, slug)->0;
            let before = views_of(c.views, post.id).len();
            let after = after_reading(c, slug, first_origin, first_now);
            &&& reading(c, slug, first_origin, first_now) == Ok::<BlogDetailView, AppErrorView>(
                BlogDetailView { post, views_count: (before + 1) as u64 },
            )
            &&& reading(after, slug, second_origin, second_now) == Ok::<
                BlogDetailView,
                AppErrorView,
            >(BlogDetailView { post, views_count: (before + 2) as u64 })
        }),
{
    reveal(Seq::filter);
    let post = post_with_slug(c.posts, slug)->0;
    let k = choose|k: int| 0 <= k < c.posts.len() && (#[trigger] c.posts[k]).slug == slug;
    assert(c.posts[k].id == post.id);
    assert(has_post(c.posts, post.id));
    let first = BlogViewView {
        id: (c.last_view_id + 1) as i32,
        post_id: post.id,
        ip_address: first_origin,
        timestamp: first_now,
    };
    let after = after_reading(c, slug, first_origin, first_now);
    assert(after.views == c.views.push(first));
    assert(after.views.drop_last() == c.views);
    assert(after.posts == c.posts);
    let second = BlogViewView {
        id: (after.last_view_id + 1) as i32,
        post_id: post.id,
        ip_address: second_origin,
        timestamp: second_now,
    };
    let last = after_reading(after, slug, second_origin, second_now);
    assert(last.views == after.views.push(second));
    assert(last.views.drop_last() == after.views);
    c.views.lemma_filter_len(viewing(post.id));
}

/// A reading of a slug that no post has fails with `NotFound` and records
/// nothing.
pub proof fn reading_of_missing_slug(c: ContentView, slug: Seq<char>, origin: Seq<char>, now: i64)
    requires
        !has_slug(c.posts, slug),
    ensures
        reading(c, slug, origin, now) == Err::<BlogDetailView, AppErrorView>(
            AppErrorView::NotFound("Blog not found"@),
        ),
        after_reading(c, slug, origin, now) == c,
{
}

/// The listing of a store without posts is empty on every page, with no
/// items in total and no pages.
pub proof fn listing_of_nothing(page: Option<u64>, per_page: Option<u64>, status: Option<Seq<char>>)
    ensures
        listing(Seq::empty(), page, per_page, status).items == Seq::<BlogListItemView>::empty(),
        listing(Seq::empty(), page, per_page, status).total == 0,
        listing(Seq::empty(), page, per_page, status).total_pages == 0,
        listing(Seq::empty(), page, per_page, status).page == page_for(page),
{
    reveal(Seq::filter);
    let found = matching(Seq::<BlogPostView>::empty(), status_for(status));
    assert(found.len() == 0);
    let rows = page_of(found, per_page_for(per_page), (page_for(page) - 1) as u64);
    assert(rows.len() == 0);
    assert(items_of(rows) =~= Seq::<BlogListItemView>::empty());
}

/// Every page of a listing holds only posts that pass the filter in
/// force, each of them a post of the store, in the order of the listing:
/// no item stands behind one that it must precede.
pub proof fn listing_is_in_order(
    posts: Seq<BlogPostView>,
    page: Option<u64>,
    per_page: Option<u64>,
    status: Option<Seq<char>>,
)
    requires
        listed(posts),
    ensures
        ({
            let rows = page_of(
                matching(posts, status_for(status)),
                per_page_for(per_page),
                (page_for(page) - 1) as u64,
            );
            &&& listing(posts, page, per_page, status).items == items_of(rows)
            &&& listed(rows)
            &&& forall|i: int|
                0 <= i < rows.len() ==> passes(#[trigger] rows[i], status_for(status))
                    && posts.contains(rows[i])
        }),
{
    let found = matching(posts, status_for(status));
    let rows = page_of(found, per_page_for(per_page), (page_for(page) - 1) as u64);
    let in_order = |a: BlogPostView, b: BlogPostView| !precedes(b, a);
    assert forall|i: int, j: int| 0 <= i < j < posts.len() implies #[trigger] in_order(
        posts[i],
        posts[j],
    ) by {}
    lemma_filter_keeps_order(posts, passing(status_for(status)), in_order);
    let size = per_page_for(per_page);
    let index = (page_for(page) - 1) as u64;
    let start = if size * index > found.len() {
        found.len() as int
    } else {
        size * index
    };
    assert(0 <= start <= found.len()) by (nonlinear_arith)
        requires
            start == if size * index > found.len() {
                found.len() as int
            } else {
                size * index
            },
            size >= 0,
            index >= 0,
    ;
    assert forall|i: int, j: int| 0 <= i < j < rows.len() implies !precedes(
        #[trigger] rows[j],
        #[trigger] rows[i],
    ) by {
        assert(rows[i] == found[start + i]);
        assert(rows[j] == found[start + j]);
        assert(in_order(found[start + i], found[start + j]));
    }
    assert forall|i: int| 0 <= i < rows.len() implies passes(
        #[trigger] rows[i],
        status_for(status),
    ) && posts.contains(rows[i]) by {
        assert(rows[i] == found[start + i]);
        assert(passing(status_for(status))(found[start + i]));
    }
}

/// The page size in force never exceeds 100 and is never less than 1,
/// whatever was asked for; and a page never holds more items than that.
pub proof fn page_size_is_clamped(
    posts: Seq<BlogPostView>,
    page: Option<u64>,
    per_page: Option<u64>,
    status: Option<Seq<char>>,
)
    ensures
        1 <= per_page_for(per_page) <= 100,
        per_page matches Some(size) && size > 100 ==> per_page_for(per_page) == 100,
        listing(posts, page, per_page, status).per_page == per_page_for(per_page),
        listing(posts, page, per_page, status).items.len() <= per_page_for(per_page),
        listing(posts, page, per_page, status).page >= 1,
{
}

} // verus!
