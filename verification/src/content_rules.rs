//! The rules of the content store, stated over the values of its rows:
//! uniqueness, references that resolve, and the order of the blog listing.

use vstd::prelude::*;
use crate::entities::{AccountView, BlogPostView, BlogViewView};

verus! {

/// The mathematical value of the content store.
pub struct ContentView {
    /// The accounts, in the order in which they were created.
    pub accounts: Seq<AccountView>,
    /// The posts, in the order of the listing.
    pub posts: Seq<BlogPostView>,
    /// The recorded views, in the order in which they were recorded.
    pub views: Seq<BlogViewView>,
    /// The last identifier given to an account; 0 before the first.
    pub last_account_id: i32,
    /// The last identifier given to a post; 0 before the first.
    pub last_post_id: i32,
    /// The last identifier given to a view; 0 before the first.
    pub last_view_id: i32,
}

/// Some account has the identifier `id`.
pub open spec fn has_account(accounts: Seq<AccountView>, id: i32) -> bool {
    exists|i: int| 0 <= i < accounts.len() && (#[trigger] accounts[i]).id == id
}

/// Some account has the address `email`.
pub open spec fn has_account_email(accounts: Seq<AccountView>, email: Seq<char>) -> bool {
    exists|i: int| 0 <= i < accounts.len() && (#[trigger] accounts[i]).email == email
}

/// Some post has the identifier `id`.
pub open spec fn has_post(posts: Seq<BlogPostView>, id: i32) -> bool {
    exists|i: int| 0 <= i < posts.len() && (#[trigger] posts[i]).id == id
}

/// Some post has the slug `slug`.
pub open spec fn has_slug(posts: Seq<BlogPostView>, slug: Seq<char>) -> bool {
    exists|i: int| 0 <= i < posts.len() && (#[trigger] posts[i]).slug == slug
}

/// The account with identifier `id`, if there is one.
pub open spec fn account_with_id(accounts: Seq<AccountView>, id: i32) -> Option<AccountView> {
    if has_account(accounts, id) {
        Some(accounts[choose|i: int| 0 <= i < accounts.len() && (#[trigger] accounts[i]).id == id])
    } else {
        None
    }
}

/// The account with address `email`, if there is one.
pub open spec fn account_with_email(accounts: Seq<AccountView>, email: Seq<char>) -> Option<
    AccountView,
> {
    if has_account_email(accounts, email) {
        Some(
            accounts[choose|i: int|
                0 <= i < accounts.len() && (#[trigger] accounts[i]).email == email],
        )
    } else {
        None
    }
}

/// The post with slug `slug`, if there is one.
pub open spec fn post_with_slug(posts: Seq<BlogPostView>, slug: Seq<char>) -> Option<
    BlogPostView,
> {
    if has_slug(posts, slug) {
        Some(posts[choose|i: int| 0 <= i < posts.len() && (#[trigger] posts[i]).slug == slug])
    } else {
        None
    }
}

/// In a descending order that puts missing instants last, `a` stands
/// strictly before `b`.
pub open spec fn later(a: Option<i64>, b: Option<i64>) -> bool {
    match (a, b) {
        (Some(x), Some(y)) => x > y,
        (Some(_), None) => true,
        (None, _) => false,
    }
}

/// The post `a` must stand before the post `b` in the listing: it was
/// published later, or at the same instant (or both never) and created
/// later. A missing instant counts as earlier than every instant.
pub open spec fn precedes(a: BlogPostView, b: BlogPostView) -> bool {
    later(a.published_at, b.published_at) || (a.published_at == b.published_at && later(
        a.created_at,
        b.created_at,
    ))
}

/// The posts stand in the order of the listing.
pub open spec fn listed(posts: Seq<BlogPostView>) -> bool {
    forall|i: int, j: int|
        0 <= i < j < posts.len() ==> !precedes(#[trigger] posts[j], #[trigger] posts[i])
}

/// Where a new post goes: behind every post that it need not stand before.
pub open spec fn post_slot(posts: Seq<BlogPostView>, post: BlogPostView) -> int
    decreases posts.len(),
{
    if posts.len() > 0 && !precedes(post, posts.first()) {
        1 + post_slot(posts.drop_first(), post)
    } else {
        0
    }
}

/// No two accounts share an identifier or an address, and every identifier
/// was given out by the store.
pub open spec fn accounts_sound(accounts: Seq<AccountView>, last_id: i32) -> bool {
    &&& forall|i: int| 0 <= i < accounts.len() ==> 0 < (#[trigger] accounts[i]).id <= last_id
    &&& forall|i: int, j: int|
        0 <= i < accounts.len() && 0 <= j < accounts.len() && i != j ==> (
        #[trigger] accounts[i]).id != (#[trigger] accounts[j]).id
    &&& forall|i: int, j: int|
        0 <= i < accounts.len() && 0 <= j < accounts.len() && i != j ==> (
        #[trigger] accounts[i]).email != (#[trigger] accounts[j]).email
}

/// No two posts share an identifier or a slug, every identifier was given
/// out by the store, and the posts stand in the order of the listing.
pub open spec fn posts_sound(posts: Seq<BlogPostView>, last_id: i32) -> bool {
    &&& forall|i: int| 0 <= i < posts.len() ==> 0 < (#[trigger] posts[i]).id <= last_id
    &&& forall|i: int, j: int|
        0 <= i < posts.len() && 0 <= j < posts.len() && i != j ==> (#[trigger] posts[i]).id != (
        #[trigger] posts[j]).id
    &&& forall|i: int, j: int|
        0 <= i < posts.len() && 0 <= j < posts.len() && i != j ==> (#[trigger] posts[i]).slug != (
        #[trigger] posts[j]).slug
    &&& listed(posts)
}

/// No two views share an identifier, and every identifier was given out by
/// the store.
pub open spec fn views_sound(views: Seq<BlogViewView>, last_id: i32) -> bool {
    &&& forall|i: int| 0 <= i < views.len() ==> 0 < (#[trigger] views[i]).id <= last_id
    &&& forall|i: int, j: int|
        0 <= i < views.len() && 0 <= j < views.len() && i != j ==> (#[trigger] views[i]).id != (
        #[trigger] views[j]).id
}

/// Every post's author is an account, and every view's post is a post.
pub open spec fn references_resolve(c: ContentView) -> bool {
    &&& forall|i: int|
        0 <= i < c.posts.len() ==> has_account(c.accounts, (#[trigger] c.posts[i]).author_id)
    &&& forall|i: int| 0 <= i < c.views.len() ==> has_post(c.posts, (#[trigger] c.views[i]).post_id)
}

/// The invariant of the content store.
pub open spec fn sound(c: ContentView) -> bool {
    &&& c.last_account_id >= 0
    &&& c.last_post_id >= 0
    &&& c.last_view_id >= 0
    &&& accounts_sound(c.accounts, c.last_account_id)
    &&& posts_sound(c.posts, c.last_post_id)
    &&& views_sound(c.views, c.last_view_id)
    &&& references_resolve(c)
}

/// The test of a status filter: an empty filter lets every post pass, any
/// other only the posts with that status.
pub open spec fn passes(post: BlogPostView, status: Seq<char>) -> bool {
    status.len() == 0 || post.status == Some(status)
}

/// The status filter as a predicate.
pub open spec fn passing(status: Seq<char>) -> spec_fn(BlogPostView) -> bool {
    |post: BlogPostView| passes(post, status)
}

/// The posts that a listing with the filter `status` ranges over, in the
/// order of the listing.
pub open spec fn matching(posts: Seq<BlogPostView>, status: Seq<char>) -> Seq<BlogPostView> {
    posts.filter(passing(status))
}

/// The view belongs to the post `post_id`.
pub open spec fn viewing(post_id: i32) -> spec_fn(BlogViewView) -> bool {
    |view: BlogViewView| view.post_id == post_id
}

/// The recorded views of the post `post_id`.
pub open spec fn views_of(views: Seq<BlogViewView>, post_id: i32) -> Seq<BlogViewView> {
    views.filter(viewing(post_id))
}

/// The post was not written by `author`.
pub open spec fn not_by(author: i32) -> spec_fn(BlogPostView) -> bool {
    |post: BlogPostView| post.author_id != author
}

/// The view's post is among `posts`.
pub open spec fn view_of_some(posts: Seq<BlogPostView>) -> spec_fn(BlogViewView) -> bool {
    |view: BlogViewView| has_post(posts, view.post_id)
}

/// The index of the account with identifier `id`.
pub open spec fn account_position(accounts: Seq<AccountView>, id: i32) -> int {
    choose|i: int| 0 <= i < accounts.len() && (#[trigger] accounts[i]).id == id
}

/// The store after the account `id` was deleted: the account is gone, and
/// with it the posts it wrote and the views of those posts. A store without
/// that account stays as it is.
pub open spec fn without_account(c: ContentView, id: i32) -> ContentView {
    if has_account(c.accounts, id) {
        let posts = c.posts.filter(not_by(id));
        ContentView {
            accounts: c.accounts.remove(account_position(c.accounts, id)),
            posts,
            views: c.views.filter(view_of_some(posts)),
            ..c
        }
    } else {
        c
    }
}

/// One page of a sequence: `size` items from index `size * index` on, as far
/// as there are any.
pub open spec fn page_of<T>(items: Seq<T>, size: u64, index: u64) -> Seq<T> {
    let start = if size * index > items.len() {
        items.len() as int
    } else {
        size * index
    };
    let end = if start + size > items.len() {
        items.len() as int
    } else {
        start + size
    };
    items.subrange(start, end)
}

/// `precedes` is a strict order: nothing stands before itself, and it is
/// transitive; so is its complement.
pub proof fn lemma_precedes_order(a: BlogPostView, b: BlogPostView, c: BlogPostView)
    ensures
        !precedes(a, a),
        precedes(a, b) ==> !precedes(b, a),
        precedes(a, b) && precedes(b, c) ==> precedes(a, c),
        !precedes(a, b) && !precedes(b, c) ==> !precedes(a, c),
{
}

/// The slot of a post lies behind all posts that it need not precede and
/// before the first that it must precede.
pub proof fn lemma_post_slot(posts: Seq<BlogPostView>, post: BlogPostView)
    ensures
        0 <= post_slot(posts, post) <= posts.len(),
        forall|i: int| 0 <= i < post_slot(posts, post) ==> !precedes(post, #[trigger] posts[i]),
        post_slot(posts, post) < posts.len() ==> precedes(post, posts[post_slot(posts, post)]),
    decreases posts.len(),
{
    if posts.len() > 0 && !precedes(post, posts.first()) {
        let rest = posts.drop_first();
        lemma_post_slot(rest, post);
        assert forall|i: int| 0 <= i < post_slot(posts, post) implies !precedes(
            post,
            #[trigger] posts[i],
        ) by {
            if i > 0 {
                assert(posts[i] == rest[i - 1]);
            }
        }
        if post_slot(posts, post) < posts.len() {
            assert(posts[post_slot(posts, post)] == rest[post_slot(rest, post)]);
        }
    }
}

/// A listing with a post put into its slot is still in order.
pub proof fn lemma_insert_listed(posts: Seq<BlogPostView>, post: BlogPostView)
    requires
        listed(posts),
    ensures
        listed(posts.insert(post_slot(posts, post), post)),
{
    lemma_post_slot(posts, post);
    let p = post_slot(posts, post);
    let out = posts.insert(p, post);
    assert forall|i: int, j: int| 0 <= i < j < out.len() implies !precedes(
        #[trigger] out[j],
        #[trigger] out[i],
    ) by {
        let a = if i < p {
            i
        } else {
            i - 1
        };
        let b = if j < p {
            j
        } else {
            j - 1
        };
        if i == p {
            assert(out[j] == posts[b]);
            lemma_precedes_order(out[j], post, posts[p]);
            if b > p {
                assert(!precedes(posts[b], posts[p]));
            }
        } else if j == p {
            assert(out[i] == posts[a]);
            lemma_precedes_order(post, posts[a], post);
        } else {
            assert(out[i] == posts[a]);
            assert(out[j] == posts[b]);
        }
    }
}

/// What holds between every earlier and later item of a sequence holds
/// between every earlier and later item of what a filter keeps of it; and
/// every item kept is an item of the sequence that passes the filter.
pub proof fn lemma_filter_keeps_order<T>(
    items: Seq<T>,
    pred: spec_fn(T) -> bool,
    rel: spec_fn(T, T) -> bool,
)
    requires
        forall|i: int, j: int| 0 <= i < j < items.len() ==> #[trigger] rel(items[i], items[j]),
    ensures
        forall|i: int, j: int|
            0 <= i < j < items.filter(pred).len() ==> #[trigger] rel(
                items.filter(pred)[i],
                items.filter(pred)[j],
            ),
        forall|i: int|
            0 <= i < items.filter(pred).len() ==> pred(#[trigger] items.filter(pred)[i])
                && items.contains(items.filter(pred)[i]),
        forall|i: int|
            0 <= i < items.len() && pred(items[i]) ==> items.filter(pred).contains(
                #[trigger] items[i],
            ),
    decreases items.len(),
{
    reveal(Seq::filter);
    let kept = items.filter(pred);
    if items.len() > 0 {
        let head = items.drop_last();
        let kept_head = head.filter(pred);
        assert forall|i: int, j: int| 0 <= i < j < head.len() implies #[trigger] rel(
            head[i],
            head[j],
        ) by {
            assert(head[i] == items[i]);
            assert(head[j] == items[j]);
        }
        lemma_filter_keeps_order(head, pred, rel);
        assert forall|i: int| 0 <= i < kept.len() implies pred(#[trigger] kept[i])
            && items.contains(kept[i]) by {
            if i < kept_head.len() {
                assert(kept[i] == kept_head[i]);
                assert(head.contains(kept_head[i]));
                let k = choose|k: int| 0 <= k < head.len() && head[k] == kept_head[i];
                assert(items[k] == kept[i]);
            } else {
                assert(kept[i] == items.last());
                assert(items[items.len() - 1] == kept[i]);
            }
        }
        assert forall|i: int, j: int| 0 <= i < j < kept.len() implies #[trigger] rel(
            kept[i],
            kept[j],
        ) by {
            assert(kept[i] == kept_head[i]);
            if j < kept_head.len() {
                assert(kept[j] == kept_head[j]);
            } else {
                assert(kept[j] == items.last());
                assert(head.contains(kept_head[i]));
                let k = choose|k: int| 0 <= k < head.len() && head[k] == kept_head[i];
                assert(rel(items[k], items[items.len() - 1]));
            }
        }
        assert forall|i: int| 0 <= i < items.len() && pred(items[i]) implies kept.contains(
            #[trigger] items[i],
        ) by {
            if i < head.len() {
                assert(head[i] == items[i]);
                assert(kept_head.contains(head[i]));
                let k = choose|k: int| 0 <= k < kept_head.len() && kept_head[k] == head[i];
                assert(kept[k] == items[i]);
            } else {
                assert(kept[kept.len() - 1] == items[i]);
            }
        }
    }
}

} // verus!
