//! The user record and the requests and responses around it.

use vstd::prelude::*;
use crate::clock::{format_rfc3339, now, rfc3339_text};

verus! {

/// A user as the store holds it. Instants are nanoseconds since the epoch.
#[derive(Debug, PartialEq, Eq)]
pub struct User {
    pub id: String,
    pub name: String,
    pub email: String,
    pub created_at: i64,
    pub updated_at: i64,
}

/// The mathematical value of a [`User`].
pub struct UserView {
    pub id: Seq<char>,
    pub name: Seq<char>,
    pub email: Seq<char>,
    pub created_at: i64,
    pub updated_at: i64,
}

impl View for User {
    type V = UserView;

    open spec fn view(&self) -> UserView {
        UserView {
            id: self.id@,
            name: self.name@,
            email: self.email@,
            created_at: self.created_at,
            updated_at: self.updated_at,
        }
    }
}

impl Clone for User {
    fn clone(&self) -> (r: User)
        ensures
            r@ == self@,
    {
        User {
            id: self.id.clone(),
            name: self.name.clone(),
            email: self.email.clone(),
            created_at: self.created_at,
            updated_at: self.updated_at,
        }
    }
}

/// The views of a run of users, in order.
pub open spec fn user_views(users: Seq<User>) -> Seq<UserView> {
    users.map_values(|u: User| u@)
}

/// What an optional user holds.
pub open spec fn opt_user(o: Option<User>) -> Option<UserView> {
    match o {
        Some(u) => Some(u@),
        None => None,
    }
}

/// Request to create a user.
#[derive(Debug, PartialEq, Eq)]
pub struct CreateUserRequest {
    pub name: String,
    pub email: String,
}

/// Request to change a user: only the fields that are present change.
#[derive(Debug, PartialEq, Eq)]
pub struct UpdateUserRequest {
    pub name: Option<String>,
    pub email: Option<String>,
}

/// A user as callers see it, with instants in RFC 3339 text.
#[derive(Debug, PartialEq, Eq)]
pub struct UserResponse {
    pub id: String,
    pub name: String,
    pub email: String,
    pub created_at: String,
    pub updated_at: String,
}

/// The mathematical value of a [`UserResponse`].
pub struct UserResponseView {
    pub id: Seq<char>,
    pub name: Seq<char>,
    pub email: Seq<char>,
    pub created_at: Seq<char>,
    pub updated_at: Seq<char>,
}

impl View for UserResponse {
    type V = UserResponseView;

    open spec fn view(&self) -> UserResponseView {
        UserResponseView {
            id: self.id@,
            name: self.name@,
            email: self.email@,
            created_at: self.created_at@,
            updated_at: self.updated_at@,
        }
    }
}

impl Clone for UserResponse {
    fn clone(&self) -> (r: UserResponse)
        ensures
            r@ == self@,
    {
        UserResponse {
            id: self.id.clone(),
            name: self.name.clone(),
            email: self.email.clone(),
            created_at: self.created_at.clone(),
            updated_at: self.updated_at.clone(),
        }
    }
}

/// The response for a user whose instants read `created_at` and
/// `updated_at` as text.
pub open spec fn response_with(
    user: UserView,
    created_at: Seq<char>,
    updated_at: Seq<char>,
) -> UserResponseView {
    UserResponseView { id: user.id, name: user.name, email: user.email, created_at, updated_at }
}

/// The response for a user.
pub open spec fn response_of(user: UserView) -> UserResponseView {
    response_with(
        user,
        rfc3339_text(user.created_at as int),
        rfc3339_text(user.updated_at as int),
    )
}

/// The responses for a run of users, in order.
pub open spec fn responses_of(users: Seq<UserView>) -> Seq<UserResponseView> {
    users.map_values(|u: UserView| response_of(u))
}

/// The views of a run of responses, in order.
pub open spec fn response_views(responses: Seq<UserResponse>) -> Seq<UserResponseView> {
    responses.map_values(|r: UserResponse| r@)
}

impl UserResponse {
    /// Builds the response from a user and the texts of its two instants.
    pub fn with_texts(user: User, created_at: String, updated_at: String) -> (r: UserResponse)
        ensures
            r@ == response_with(user@, created_at@, updated_at@),
    {
        UserResponse { id: user.id, name: user.name, email: user.email, created_at, updated_at }
    }

    /// Builds the response for a user: the same identifier, name and email,
    /// and both instants as RFC 3339 text.
    pub fn from(user: User) -> (r: UserResponse)
        ensures
            r@ == response_of(user@),
    {
        let created_at = format_rfc3339(user.created_at);
        let updated_at = format_rfc3339(user.updated_at);
        UserResponse::with_texts(user, created_at, updated_at)
    }
}

impl User {
    /// A new user with the given identifier, created and last updated at
    /// `at`.
    pub fn with_identity(id: String, name: String, email: String, at: i64) -> (r: User)
        ensures
            r@ == (UserView { id: id@, name: name@, email: email@, created_at: at, updated_at: at }),
    {
        User { id, name, email, created_at: at, updated_at: at }
    }

    /// A new user with a fresh random identifier, created now. Whatever the
    /// identifier and the clock, the name and email are the ones given and
    /// the two instants are equal.
    pub fn new(name: String, email: String) -> (r: User)
        ensures
            r.name@ == name@,
            r.email@ == email@,
            r.created_at == r.updated_at,
    {
        let id = fresh_id();
        let at = now();
        User::with_identity(id, name, email, at)
    }
}

/// Draws a random version-4 UUID with `uuid::Uuid::new_v4` and writes it in
/// the hyphenated form. Nothing is claimed of the text: it is random.
#[verifier::external_body]
pub(crate) fn fresh_id() -> (r: String) {
    uuid::Uuid::new_v4().to_string()
}

/// Paging of the user listing. A missing value takes its default.
#[derive(Clone, Copy, Debug)]
pub struct UserListQuery {
    pub limit: Option<i32>,
    pub offset: Option<i32>,
}

pub const DEFAULT_LIMIT: i32 = 100;

pub const DEFAULT_OFFSET: i32 = 0;

/// The limit that a query asks for.
pub open spec fn limit_of(query: UserListQuery) -> i32 {
    match query.limit {
        Some(limit) => limit,
        None => DEFAULT_LIMIT,
    }
}

/// The offset that a query asks for.
pub open spec fn offset_of(query: UserListQuery) -> i32 {
    match query.offset {
        Some(offset) => offset,
        None => DEFAULT_OFFSET,
    }
}

impl Default for UserListQuery {
    fn default() -> (r: UserListQuery)
        ensures
            r.limit == Some(DEFAULT_LIMIT),
            r.offset == Some(DEFAULT_OFFSET),
    {
        UserListQuery { limit: Some(DEFAULT_LIMIT), offset: Some(DEFAULT_OFFSET) }
    }
}

impl UserListQuery {
    /// The limit in force: the one asked for, or the default.
    pub fn limit_or_default(&self) -> (r: i32)
        ensures
            r == limit_of(*self),
    {
        match self.limit {
            Some(limit) => limit,
            None => DEFAULT_LIMIT,
        }
    }

    /// The offset in force: the one asked for, or the default.
    pub fn offset_or_default(&self) -> (r: i32)
        ensures
            r == offset_of(*self),
    {
        match self.offset {
            Some(offset) => offset,
            None => DEFAULT_OFFSET,
        }
    }
}

} // verus!
