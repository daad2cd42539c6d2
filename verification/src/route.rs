//! The fixed route table: which handler answers a method and a path.

use vstd::prelude::*;
use vstd::string::*;

verus! {

/// The request method, as far as the route table tells methods apart.
#[derive(Clone, Copy, PartialEq, Eq, Debug, Structural)]
pub enum Method {
    Get,
    Post,
    Other,
}

/// A path of the route table, or `Unmatched` for every other path. This is
/// the route under which a request is counted.
#[derive(Clone, Copy, PartialEq, Eq, Debug, Structural)]
pub enum Route {
    Root,
    Health,
    Metrics,
    Unmatched,
}

/// The handlers of the service.
#[derive(Clone, Copy, PartialEq, Eq, Debug, Structural)]
pub enum Handler {
    Playground,
    Query,
    Liveness,
    MetricsExport,
}

/// What the route table decides for a request.
#[derive(Clone, Copy, PartialEq, Eq, Debug, Structural)]
pub enum Dispatch {
    Handle(Handler),
    MethodNotAllowed,
    NotFound,
}

/// The route of a path: the three paths of the table match exactly.
pub open spec fn route_of(path: Seq<char>) -> Route {
    if path == "/"@ {
        Route::Root
    } else if path == "/health"@ {
        Route::Health
    } else if path == "/metrics"@ {
        Route::Metrics
    } else {
        Route::Unmatched
    }
}

/// The decision of the route table for a method on a route.
pub open spec fn decision(method: Method, route: Route) -> Dispatch {
    match route {
        Route::Root => match method {
            Method::Get => Dispatch::Handle(Handler::Playground),
            Method::Post => Dispatch::Handle(Handler::Query),
            Method::Other => Dispatch::MethodNotAllowed,
        },
        Route::Health => match method {
            Method::Get => Dispatch::Handle(Handler::Liveness),
            _ => Dispatch::MethodNotAllowed,
        },
        Route::Metrics => match method {
            Method::Get => Dispatch::Handle(Handler::MetricsExport),
            _ => Dispatch::MethodNotAllowed,
        },
        Route::Unmatched => Dispatch::NotFound,
    }
}

/// The status with which the service answers when no handler runs, and the
/// status 200 of a handler that has not failed.
pub open spec fn default_status(d: Dispatch) -> u16 {
    match d {
        Dispatch::Handle(_) => 200,
        Dispatch::MethodNotAllowed => 405,
        Dispatch::NotFound => 404,
    }
}

fn same_text(a: &str, b: &str) -> (same: bool)
    ensures
        same == (a@ == b@),
{
    let left = String::from_str(a);
    let right = String::from_str(b);
    left == right
}

/// Finds the route of a request path.
pub fn match_path(path: &str) -> (route: Route)
    ensures
        route == route_of(path@),
{
    if same_text(path, "/") {
        Route::Root
    } else if same_text(path, "/health") {
        Route::Health
    } else if same_text(path, "/metrics") {
        Route::Metrics
    } else {
        Route::Unmatched
    }
}

/// Picks the handler for a method on a route.
pub fn dispatch_route(method: Method, route: Route) -> (d: Dispatch)
    ensures
        d == decision(method, route),
{
    match route {
        Route::Root => match method {
            Method::Get => Dispatch::Handle(Handler::Playground),
            Method::Post => Dispatch::Handle(Handler::Query),
            Method::Other => Dispatch::MethodNotAllowed,
        },
        Route::Health => match method {
            Method::Get => Dispatch::Handle(Handler::Liveness),
            _ => Dispatch::MethodNotAllowed,
        },
        Route::Metrics => match method {
            Method::Get => Dispatch::Handle(Handler::MetricsExport),
            _ => Dispatch::MethodNotAllowed,
        },
        Route::Unmatched => Dispatch::NotFound,
    }
}

/// Picks the handler for a method and a request path.
pub fn dispatch(method: Method, path: &str) -> (d: Dispatch)
    ensures
        d == decision(method, route_of(path@)),
{
    dispatch_route(method, match_path(path))
}

/// The status of a response that the route table gives without a handler.
pub fn status_without_handler(d: Dispatch) -> (status: u16)
    ensures
        status == default_status(d),
{
    match d {
        Dispatch::Handle(_) => 200,
        Dispatch::MethodNotAllowed => 405,
        Dispatch::NotFound => 404,
    }
}

impl Route {
    /// Position of the route in the fixed order of the table.
    pub open spec fn rank(self) -> nat {
        match self {
            Route::Root => 0,
            Route::Health => 1,
            Route::Metrics => 2,
            Route::Unmatched => 3,
        }
    }

    /// The label under which the route appears in the metrics text.
    pub open spec fn label_text(self) -> Seq<char> {
        match self {
            Route::Root => "/"@,
            Route::Health => "/health"@,
            Route::Metrics => "/metrics"@,
            Route::Unmatched => "unmatched"@,
        }
    }

    /// The position of the route as a machine integer.
    pub fn index(self) -> (i: usize)
        ensures
            i == self.rank(),
            i < 4,
    {
        match self {
            Route::Root => 0,
            Route::Health => 1,
            Route::Metrics => 2,
            Route::Unmatched => 3,
        }
    }

    /// The label of the route.
    pub fn label(self) -> (text: &'static str)
        ensures
            text@ == self.label_text(),
    {
        match self {
            Route::Root => "/",
            Route::Health => "/health",
            Route::Metrics => "/metrics",
            Route::Unmatched => "unmatched",
        }
    }
}

/// The route at a position of the fixed order; past the end, the last one.
pub open spec fn route_at(i: nat) -> Route {
    if i == 0 {
        Route::Root
    } else if i == 1 {
        Route::Health
    } else if i == 2 {
        Route::Metrics
    } else {
        Route::Unmatched
    }
}

/// Finds the route at a position.
pub fn route_from_index(i: usize) -> (route: Route)
    ensures
        route == route_at(i as nat),
        i < 4 ==> route.rank() == i,
{
    if i == 0 {
        Route::Root
    } else if i == 1 {
        Route::Health
    } else if i == 2 {
        Route::Metrics
    } else {
        Route::Unmatched
    }
}

/// A path of the table always reaches its liveness handler on GET, whatever
/// else the service is doing: the decision reads the method and the path only.
pub proof fn health_route_is_fixed()
    ensures
        decision(Method::Get, route_of("/health"@)) == Dispatch::Handle(Handler::Liveness),
{
    reveal_strlit("/");
    reveal_strlit("/health");
    assert("/health"@.len() == 7);
    assert("/"@.len() == 1);
}

} // verus!
