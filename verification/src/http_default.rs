//! The answer to a request that no route matches.

use vstd::prelude::*;

verus! {

/// The body of the `404` page.
pub open spec fn not_found_body() -> Seq<char> {
    "<html>not found!</html>"@
}

/// Renders the body that answers a request for a path that no route
/// matches.
pub fn not_found() -> (html: String)
    ensures
        html@ == not_found_body(),
{
    String::from_str("<html>not found!</html>")
}

} // verus!
