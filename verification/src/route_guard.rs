use vstd::prelude::*;
use crate::auth_model::User;

verus! {

/// What a protected route shows for the current-user lookup.
#[derive(Debug, Clone, Copy, PartialEq, Eq, Structural)]
pub enum RouteAccess {
    /// The lookup has not finished: show nothing yet.
    Pending,
    /// A user is signed in: render the nested route.
    Render,
    /// No user, or the lookup failed: redirect to the login page.
    RedirectToLogin,
}

/// The login page path that protected routes redirect to.
pub fn login_path() -> (path: &'static str)
    ensures
        path@ == "/login"@,
{
    "/login"
}

/// Decides a protected route from the current-user lookup: pending while it
/// loads, render when it found a user, redirect to login otherwise.
pub fn protected_route_access<E>(current_user: &Option<Result<Option<User>, E>>) -> (a: RouteAccess)
    ensures
        a == (match current_user {
            None => RouteAccess::Pending,
            Some(Ok(Some(_))) => RouteAccess::Render,
            Some(_) => RouteAccess::RedirectToLogin,
        }),
{
    match current_user {
        None => RouteAccess::Pending,
        Some(Ok(Some(_))) => RouteAccess::Render,
        Some(_) => RouteAccess::RedirectToLogin,
    }
}

} // verus!
