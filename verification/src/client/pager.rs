//! Moving between the pages of the blog listing.

use vstd::prelude::*;
use crate::decimal::{decimal_text, render_u64};

verus! {

/// Tells whether there is a page before `page`.
pub fn has_previous(page: u64) -> (r: bool)
    ensures
        r == (page > 1),
{
    page > 1
}

/// Tells whether there is a page after `page` among `total_pages` pages.
pub fn has_next(page: u64, total_pages: u64) -> (r: bool)
    ensures
        r == (page < total_pages),
{
    page < total_pages
}

/// The page shown after "previous": the one before, or the same page at
/// the first.
pub fn previous_page(page: u64) -> (r: u64)
    ensures
        r == if page > 1 {
            page - 1
        } else {
            page as int
        },
{
    if page > 1 {
        page - 1
    } else {
        page
    }
}

/// The page shown after "next": the one after, or the same page where the
/// number of pages is not known or the page is the last.
pub fn next_page(page: u64, total_pages: Option<u64>) -> (r: u64)
    ensures
        r == match total_pages {
            Some(total) => if page < total {
                page + 1
            } else {
                page as int
            },
            None => page as int,
        },
{
    match total_pages {
        Some(total) => if page < total {
            page + 1
        } else {
            page
        },
        None => page,
    }
}

/// The words between the two buttons.
pub open spec fn label_text(page: u64, total_pages: u64) -> Seq<char> {
    "Page "@ + decimal_text(page as nat) + " of "@ + decimal_text(total_pages as nat)
}

/// The words between the two buttons: `Page 2 of 7`.
pub fn page_label(page: u64, total_pages: u64) -> (r: String)
    ensures
        r@ == label_text(page, total_pages),
{
    let mut out = String::from_str("Page ");
    out.append(render_u64(page).as_str());
    out.append(" of ");
    out.append(render_u64(total_pages).as_str());
    out
}

} // verus!
