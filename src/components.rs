//! Text shown for views in listings.

use vstd::prelude::*;
use vstd::string::*;

use crate::schema::{PerseView, ViewVisibilityTypes};

verus! {

/// The label shown for each visibility in a listing.
pub open spec fn visibility_label(v: ViewVisibilityTypes) -> Seq<char> {
    match v {
        ViewVisibilityTypes::VisibilityPublic => "(Public)"@,
        ViewVisibilityTypes::VisibilityUnlisted => "(Unlisted)"@,
        ViewVisibilityTypes::VisibilityHidden => "(Hidden)"@,
    }
}

/// The link target of a view: its route under the site root.
pub open spec fn view_href(route: Seq<char>) -> Seq<char> {
    "/"@ + route
}

/// The text of a view's entry in a listing:
/// `/route (title), (Visibility)`, then `, (Homepage)` for the homepage.
pub open spec fn view_link_text(v: crate::schema::ViewRecord) -> Seq<char> {
    view_href(v.route) + " ("@ + v.title + "), "@ + visibility_label(v.visibility) + (if v.is_homepage {
        ", (Homepage)"@
    } else {
        Seq::<char>::empty()
    })
}

/// The list of views shown to the site's owner.
pub struct ViewList {}

impl ViewList {
    /// The link target of `view`.
    pub fn link_href(view: &PerseView) -> (r: String)
        ensures
            r@ == view_href(view.route@),
    {
        let mut href = String::from_str("/");
        href.append(view.route.as_str());
        href
    }

    /// The text of `view`'s entry.
    pub fn link_text(view: &PerseView) -> (r: String)
        ensures
            r@ == view_link_text(view.record()),
    {
        let mut text = ViewList::link_href(view);
        text.append(" (");
        text.append(view.title.as_str());
        text.append("), ");
        let label = match view.visibility {
            ViewVisibilityTypes::VisibilityPublic => "(Public)",
            ViewVisibilityTypes::VisibilityUnlisted => "(Unlisted)",
            ViewVisibilityTypes::VisibilityHidden => "(Hidden)",
        };
        text.append(label);
        if view.is_homepage {
            text.append(", (Homepage)");
        }
        text
    }
}

} // verus!
