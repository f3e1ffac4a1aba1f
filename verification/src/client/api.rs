//! The addresses of the API and the wording of failed requests.

use vstd::prelude::*;
use crate::decimal::{decimal_text, render_u64};

verus! {

/// The client of the API: it knows where each resource lives.
#[derive(Clone, Copy, Debug)]
pub struct ApiService;

/// The address of the blog listing.
pub open spec fn blogs_address(base: Seq<char>, page: u64, per_page: u64) -> Seq<char> {
    base + "/api/blogs?page="@ + decimal_text(page as nat) + "&per_page="@ + decimal_text(
        per_page as nat,
    )
}

/// The words for an answer with a status that is no success.
pub open spec fn status_failure_text(status: u16) -> Seq<char> {
    "Request failed with status: "@ + decimal_text(status as nat)
}

impl ApiService {
    /// The address of the health check.
    pub fn health_url(base: &str) -> (r: String)
        ensures
            r@ == base@ + "/health"@,
    {
        let mut out = String::from_str(base);
        out.append("/health");
        out
    }

    /// The address of the status check.
    pub fn status_url(base: &str) -> (r: String)
        ensures
            r@ == base@ + "/api/v1/status"@,
    {
        let mut out = String::from_str(base);
        out.append("/api/v1/status");
        out
    }

    /// The address of one page of the blog listing.
    pub fn blogs_url(base: &str, page: u64, per_page: u64) -> (r: String)
        ensures
            r@ == blogs_address(base@, page, per_page),
    {
        let mut out = String::from_str(base);
        out.append("/api/blogs?page=");
        out.append(render_u64(page).as_str());
        out.append("&per_page=");
        out.append(render_u64(per_page).as_str());
        out
    }

    /// The address of the post with the given slug.
    pub fn blog_url(base: &str, slug: &str) -> (r: String)
        ensures
            r@ == base@ + "/api/blogs/"@ + slug@,
    {
        let mut out = String::from_str(base);
        out.append("/api/blogs/");
        out.append(slug);
        out
    }

    /// Judges the status of an answer: a success passes, anything else is
    /// an error that names the status.
    pub fn check_status(ok: bool, status: u16) -> (r: Result<(), String>)
        ensures
            ok ==> r is Ok,
            !ok ==> (r matches Err(e) && e@ == status_failure_text(status)),
    {
        if ok {
            Ok(())
        } else {
            let mut out = String::from_str("Request failed with status: ");
            out.append(render_u64(status as u64).as_str());
            Err(out)
        }
    }

    /// The words for a request that could not be sent.
    pub fn request_failed(cause: &str) -> (r: String)
        ensures
            r@ == "Request failed: "@ + cause@,
    {
        let mut out = String::from_str("Request failed: ");
        out.append(cause);
        out
    }

    /// The words for an answer that could not be read.
    pub fn parse_failed(cause: &str) -> (r: String)
        ensures
            r@ == "Failed to parse response: "@ + cause@,
    {
        let mut out = String::from_str("Failed to parse response: ");
        out.append(cause);
        out
    }
}

} // verus!
