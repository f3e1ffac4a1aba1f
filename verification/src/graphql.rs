//! The rules in front of the GraphQL endpoint: which queries run without a
//! credential and within which limits, and the playground page.

use vstd::prelude::*;
use crate::text::{contains, has_sub, replace_all, replaced};

verus! {

pub const DEPTH_LIMIT: usize = 10;

pub const COMPLEXITY_LIMIT: usize = 1000;

/// How a query may run.
#[derive(Clone, Copy, Debug, PartialEq, Eq, Structural)]
pub struct QueryPolicy {
    /// The greatest nesting depth, if limited.
    pub depth: Option<usize>,
    /// The greatest complexity, if limited.
    pub complexity: Option<usize>,
    /// Whether a valid credential must come with the query.
    pub needs_credential: bool,
}

/// A query that asks about the schema itself.
pub open spec fn introspective(query: Seq<char>) -> bool {
    has_sub(query, "__schema"@) || has_sub(query, "__type"@)
}

/// The policy for a query: a query about the schema runs without limits
/// and without a credential, any other within both limits and with one.
pub open spec fn policy_of(query: Seq<char>) -> QueryPolicy {
    if introspective(query) {
        QueryPolicy { depth: None, complexity: None, needs_credential: false }
    } else {
        QueryPolicy {
            depth: Some(DEPTH_LIMIT),
            complexity: Some(COMPLEXITY_LIMIT),
            needs_credential: true,
        }
    }
}

/// Tells whether a query asks about the schema: whether its text holds
/// `__schema` or `__type`.
pub fn is_introspection(query: &str) -> (r: bool)
    ensures
        r == introspective(query@),
{
    contains(query, "__schema") || contains(query, "__type")
}

/// Decides how a query may run.
pub fn query_policy(query: &str) -> (r: QueryPolicy)
    ensures
        r == policy_of(query@),
{
    if is_introspection(query) {
        QueryPolicy { depth: None, complexity: None, needs_credential: false }
    } else {
        QueryPolicy {
            depth: Some(DEPTH_LIMIT),
            complexity: Some(COMPLEXITY_LIMIT),
            needs_credential: true,
        }
    }
}

/// The header that the playground page is generated with.
pub open spec fn placeholder_header() -> Seq<char> {
    "\"Authorization\":\"Bearer TOKEN_HERE\""@
}

/// The header that the playground page sends: the token that the browser
/// holds.
pub open spec fn live_header() -> Seq<char> {
    "\"Authorization\":`Bearer ${localStorage.getItem('auth_token')}`"@
}

/// Turns the generated playground page into the one that is served: every
/// placeholder header becomes the expression that reads the browser's token.
pub fn playground_page(generated: &str) -> (r: String)
    ensures
        r@ == replaced(generated@, placeholder_header(), live_header()),
{
    replace_all(
        generated,
        "\"Authorization\":\"Bearer TOKEN_HERE\"",
        "\"Authorization\":`Bearer ${localStorage.getItem('auth_token')}`",
    )
}

} // verus!
