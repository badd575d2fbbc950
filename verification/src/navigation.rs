//! Navigation targets of the console.

use vstd::prelude::*;
use vstd::view::View as _;

verus! {

/// A section's view: either its search page or one document's content.
pub enum View {
    Search { query: String },
    Content { id: String },
}

/// Top-level routes of the console.
pub enum AppRoute {
    Index,
    NotLoggedIn,
    Chicken,
    Sbom(View),
    Advisory(View),
    Scanner,
    Search { terms: String },
    Cve(View),
    Package { id: String },
}

impl Default for View {
    /// The default view of a section is an empty search.
    fn default() -> (view: Self)
        ensures
            view matches View::Search { query } && query@ == Seq::<char>::empty(),
    {
        View::Search { query: String::new() }
    }
}

} // verus!
