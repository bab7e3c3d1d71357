use vstd::prelude::*;

use crate::handlers::{after_guard, after_logout, auth_guard, has_live_session, logout};
use crate::outcome::{status_of, Outcome};
use crate::session::{SessionStore, StoreModel, MAX_INSTANT};
use crate::text::str_eq;

verus! {

/// The request methods the dispatch table tells apart.
#[derive(Debug, Clone, Copy, PartialEq, Eq, Structural)]
pub enum Method {
    Get,
    Post,
    Put,
    Delete,
    Patch,
    Head,
    Options,
    Other,
}

/// Where a request is sent.
#[derive(Debug, Clone, Copy, PartialEq, Eq, Structural)]
pub enum Route {
    /// `GET /health`, public.
    Health,
    /// `POST /login`, public.
    Login,
    /// `POST /logout`, behind the session guard.
    Logout,
    /// Everything else: forwarded upstream, behind the session guard.
    Proxy,
}

/// The dispatch table: exact routes first, the catch-all for every other method and path.
pub open spec fn route_of(method: Method, path: Seq<char>) -> Route {
    if method == Method::Get && path == "/health"@ {
        Route::Health
    } else if method == Method::Post && path == "/login"@ {
        Route::Login
    } else if method == Method::Post && path == "/logout"@ {
        Route::Logout
    } else {
        Route::Proxy
    }
}

/// Routes that only a request with a live session may reach.
pub open spec fn is_gated(route: Route) -> bool {
    route == Route::Logout || route == Route::Proxy
}

/// Picks the route of a request from its method and path (without the query).
pub fn route(method: Method, path: &str) -> (r: Route)
    ensures
        r == route_of(method, path@),
{
    match method {
        Method::Get => {
            if str_eq(path, "/health") {
                Route::Health
            } else {
                Route::Proxy
            }
        },
        Method::Post => {
            if str_eq(path, "/login") {
                Route::Login
            } else if str_eq(path, "/logout") {
                Route::Logout
            } else {
                Route::Proxy
            }
        },
        _ => Route::Proxy,
    }
}

impl Route {
    /// Whether the session guard stands before this route.
    pub fn gated(&self) -> (r: bool)
        ensures
            r == is_gated(*self),
    {
        match self {
            Route::Logout | Route::Proxy => true,
            _ => false,
        }
    }
}

/// What the gateway does next with a dispatched request.
#[derive(Debug, Clone, Copy, PartialEq, Eq, Structural)]
pub enum Dispatch {
    /// Answer at once with this outcome.
    Respond(Outcome),
    /// Read the login body, then open a session.
    ReadLogin,
    /// The guard passed: forward the request upstream.
    Forward,
}

/// The decision for a routed request carrying session `id` at `now`, and the store after it.
pub open spec fn dispatch_of(route: Route, m: StoreModel, id: Option<u128>, now: u64) -> (
    Dispatch,
    StoreModel,
) {
    match route {
        Route::Health => (Dispatch::Respond(Outcome::Served), m),
        Route::Login => (Dispatch::ReadLogin, m),
        Route::Logout => (
            Dispatch::Respond(
                if has_live_session(m, id, now) {
                    Outcome::Served
                } else {
                    Outcome::AuthRequired
                },
            ),
            after_logout(m, id, now),
        ),
        Route::Proxy => (
            if has_live_session(m, id, now) {
                Dispatch::Forward
            } else {
                Dispatch::Respond(Outcome::AuthRequired)
            },
            after_guard(m, id, now),
        ),
    }
}

/// Runs the routed request through the session guard where its route has one, and decides
/// what comes next.
pub fn dispatch(store: &mut SessionStore, route: Route, id: Option<u128>, now: u64) -> (r: Dispatch)
    requires
        old(store).inv(),
        now <= MAX_INSTANT,
    ensures
        final(store).inv(),
        (r, final(store)@) == dispatch_of(route, old(store)@, id, now),
{
    match route {
        Route::Health => Dispatch::Respond(Outcome::Served),
        Route::Login => Dispatch::ReadLogin,
        Route::Logout => Dispatch::Respond(logout(store, id, now)),
        Route::Proxy => match auth_guard(store, id, now) {
            Ok(_) => Dispatch::Forward,
            Err(e) => Dispatch::Respond(e),
        },
    }
}

/// `GET /health` is answered 200 and leaves the sessions alone, whatever session the
/// request carries.
pub proof fn health_always_ok(m: StoreModel, id: Option<u128>, now: u64)
    ensures
        route_of(Method::Get, "/health"@) == Route::Health,
        dispatch_of(route_of(Method::Get, "/health"@), m, id, now) == (
            Dispatch::Respond(Outcome::Served),
            m,
        ),
        status_of(Outcome::Served) == 200,
{
}

/// A request to a gated route without a live session never reaches its handler, is answered
/// 401, and leaves the set of live sessions as it was.
pub proof fn gated_routes_refuse_anonymous(route: Route, m: StoreModel, id: Option<u128>, now: u64)
    requires
        is_gated(route),
        !has_live_session(m, id, now),
    ensures
        dispatch_of(route, m, id, now).0 == Dispatch::Respond(Outcome::AuthRequired),
        status_of(Outcome::AuthRequired) == 401,
        forall|x: u128| #[trigger]
            dispatch_of(route, m, id, now).1.active(x, now) == m.active(x, now),
{
}

} // verus!
