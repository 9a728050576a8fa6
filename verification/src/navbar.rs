//! The navigation bar's element ids and link styles.
use vstd::prelude::*;
use crate::text::str_eq;

verus! {

/// The element id of the primary navigation item that leads to `path`.
pub open spec fn nav_item_id_of(path: Seq<char>) -> Seq<char> {
    if path == "/"@ {
        "nav-item-home"@
    } else if path == "/events"@ {
        "nav-item-events"@
    } else if path == "/vvip"@ {
        "nav-item-vvip"@
    } else {
        "nav-item"@
    }
}

/// The id of the navigation item for a route: home, events and VVIP have
/// their own, every other route shares one.
pub fn nav_item_id(path: &str) -> (id: &'static str)
    ensures
        id@ == nav_item_id_of(path@),
{
    if str_eq(path, "/") {
        "nav-item-home"
    } else if str_eq(path, "/events") {
        "nav-item-events"
    } else if str_eq(path, "/vvip") {
        "nav-item-vvip"
    } else {
        "nav-item"
    }
}

pub const NAV_LINK_ACTIVE: &'static str = "flex items-center space-x-1 px-4 py-2 rounded-lg transition-all duration-300 text-luxury-gold bg-luxury-gold/10";

pub const NAV_LINK_IDLE: &'static str = "flex items-center space-x-1 px-4 py-2 rounded-lg transition-all duration-300 text-luxury-platinum hover:text-luxury-gold hover:bg-luxury-gold/5";

/// The style of a navigation link: highlighted when its route is the
/// current one.
pub fn nav_link_class(active: bool) -> (class: &'static str)
    ensures
        class@ == (if active {
            NAV_LINK_ACTIVE@
        } else {
            NAV_LINK_IDLE@
        }),
{
    if active {
        NAV_LINK_ACTIVE
    } else {
        NAV_LINK_IDLE
    }
}

pub const DROPDOWN_LINK: &'static str = "block px-4 py-3 text-sm text-gray-700 hover:bg-luxury-gold/10 transition-colors";

/// The style of a link in the account menu.
pub fn dropdown_link_class() -> (class: &'static str)
    ensures
        class@ == DROPDOWN_LINK@,
{
    DROPDOWN_LINK
}

} // verus!
