//! What a session may do, and what a route guard decides from it.
use vstd::prelude::*;

verus! {

/// The capabilities of the signed-in session that the route guards read.
#[derive(Clone, Copy, Debug, PartialEq, Eq, Default)]
pub struct Permissions {
    pub view_admin: bool,
    pub event_management: bool,
    pub manage_super_admin: bool,
}

/// A route guard's decision: wait for the session to be restored, send the
/// visitor elsewhere, or show the page.
#[derive(Clone, Copy, Debug, PartialEq, Eq)]
pub enum RouteGuard {
    Loading,
    Redirect(&'static str),
    Allow,
}

/// The shape of a guard's result: `Loading` while restoring, otherwise
/// `Allow` exactly when the capability is held, and `Redirect` to the
/// fallback when it is not.
pub open spec fn guard_matches(g: RouteGuard, restoring: bool, allowed: bool, fallback: Seq<char>) -> bool {
    if restoring {
        g == RouteGuard::Loading
    } else if allowed {
        g == RouteGuard::Allow
    } else {
        match g {
            RouteGuard::Redirect(p) => p@ == fallback,
            _ => false,
        }
    }
}

} // verus!
