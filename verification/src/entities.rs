//! The rows of the content store: accounts, blog posts and blog views.
//! Instants are nanoseconds since the Unix epoch.

use vstd::prelude::*;
use crate::text::{copy_text, opt_text};

verus! {

/// An account: a user of the blog side of the service.
#[derive(Debug, PartialEq, Eq)]
pub struct Account {
    pub id: i32,
    pub email: String,
    pub name: String,
    pub created_at: Option<i64>,
    pub updated_at: Option<i64>,
}

/// The mathematical value of an [`Account`].
pub struct AccountView {
    pub id: i32,
    pub email: Seq<char>,
    pub name: Seq<char>,
    pub created_at: Option<i64>,
    pub updated_at: Option<i64>,
}

impl View for Account {
    type V = AccountView;

    open spec fn view(&self) -> AccountView {
        AccountView {
            id: self.id,
            email: self.email@,
            name: self.name@,
            created_at: self.created_at,
            updated_at: self.updated_at,
        }
    }
}

impl Clone for Account {
    fn clone(&self) -> (r: Account)
        ensures
            r@ == self@,
    {
        Account {
            id: self.id,
            email: self.email.clone(),
            name: self.name.clone(),
            created_at: self.created_at,
            updated_at: self.updated_at,
        }
    }
}

/// A blog post.
#[derive(Debug, PartialEq, Eq)]
pub struct BlogPost {
    pub id: i32,
    pub author_id: i32,
    pub title: String,
    pub slug: String,
    pub excerpt: Option<String>,
    pub content: String,
    pub status: Option<String>,
    pub published_at: Option<i64>,
    pub created_at: Option<i64>,
    pub updated_at: Option<i64>,
}

/// The mathematical value of a [`BlogPost`].
pub struct BlogPostView {
    pub id: i32,
    pub author_id: i32,
    pub title: Seq<char>,
    pub slug: Seq<char>,
    pub excerpt: Option<Seq<char>>,
    pub content: Seq<char>,
    pub status: Option<Seq<char>>,
    pub published_at: Option<i64>,
    pub created_at: Option<i64>,
    pub updated_at: Option<i64>,
}

impl View for BlogPost {
    type V = BlogPostView;

    open spec fn view(&self) -> BlogPostView {
        BlogPostView {
            id: self.id,
            author_id: self.author_id,
            title: self.title@,
            slug: self.slug@,
            excerpt: opt_text(self.excerpt),
            content: self.content@,
            status: opt_text(self.status),
            published_at: self.published_at,
            created_at: self.created_at,
            updated_at: self.updated_at,
        }
    }
}

impl Clone for BlogPost {
    fn clone(&self) -> (r: BlogPost)
        ensures
            r@ == self@,
    {
        BlogPost {
            id: self.id,
            author_id: self.author_id,
            title: self.title.clone(),
            slug: self.slug.clone(),
            excerpt: copy_text(&self.excerpt),
            content: self.content.clone(),
            status: copy_text(&self.status),
            published_at: self.published_at,
            created_at: self.created_at,
            updated_at: self.updated_at,
        }
    }
}

/// One recorded reading of a post.
#[derive(Debug, PartialEq, Eq)]
pub struct BlogView {
    pub id: i32,
    pub post_id: i32,
    pub ip_address: String,
    pub timestamp: i64,
}

/// The mathematical value of a [`BlogView`].
pub struct BlogViewView {
    pub id: i32,
    pub post_id: i32,
    pub ip_address: Seq<char>,
    pub timestamp: i64,
}

impl View for BlogView {
    type V = BlogViewView;

    open spec fn view(&self) -> BlogViewView {
        BlogViewView {
            id: self.id,
            post_id: self.post_id,
            ip_address: self.ip_address@,
            timestamp: self.timestamp,
        }
    }
}

/// The views of a run of accounts, in order.
pub open spec fn account_views(rows: Seq<Account>) -> Seq<AccountView> {
    rows.map_values(|a: Account| a@)
}

/// The views of a run of posts, in order.
pub open spec fn post_views(rows: Seq<BlogPost>) -> Seq<BlogPostView> {
    rows.map_values(|p: BlogPost| p@)
}

/// The views of a run of blog views, in order.
pub open spec fn view_views(rows: Seq<BlogView>) -> Seq<BlogViewView> {
    rows.map_values(|v: BlogView| v@)
}

} // verus!
