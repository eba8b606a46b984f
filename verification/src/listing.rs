//! The list reader: a listing comes in pages, and it is whole when the
//! control plane names no page to go on with.

use vstd::prelude::*;
use crate::model::{text_view, Resource};
use crate::report::resource_views;

verus! {

/// The page to go on with: the one that the control plane names by a
/// token, unless the token is empty.
pub open spec fn spec_next_page(next: Option<Seq<char>>) -> Option<Seq<char>> {
    match next {
        Some(token) => if token.len() == 0 {
            None
        } else {
            Some(token)
        },
        None => None,
    }
}

/// Takes in one page of a listing. `so_far` is what the pages before
/// held, `page` what this one holds, `next` the token that came with it.
/// The result is the listing so far, in the order in which the control
/// plane handed it out, and the token of the page to ask for next. The
/// listing is whole exactly where there is no such token.
pub fn after_page(so_far: Vec<Resource>, page: Vec<Resource>, next: Option<String>) -> (r: (
    Vec<Resource>,
    Option<String>,
))
    ensures
        resource_views(r.0@) == resource_views(so_far@) + resource_views(page@),
        text_view(r.1) == spec_next_page(text_view(next)),
        r.1 is None <==> (next matches Some(token) ==> token@.len() == 0),
{
    let mut listing = so_far;
    let mut page = page;
    let ghost first = listing@;
    let ghost second = page@;
    listing.append(&mut page);
    assert(resource_views(listing@) =~= resource_views(first) + resource_views(second));
    let token = match next {
        Some(token) => {
            if token.as_str().is_empty() {
                None
            } else {
                Some(token)
            }
        },
        None => None,
    };
    (listing, token)
}

} // verus!
