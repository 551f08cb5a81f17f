//! The resolved-route context a matched request carries to the
//! dispatcher, and the route-resolution stage's wrapper types.

use vstd::prelude::*;

use crate::api::EntryView;
use crate::api::ManagedApi;
use crate::api::clone_string_vec;

verus! {

/// The context attached to a matched request: the matched entry's target
/// servers, of which the first is used, and its rewritten target path.
#[derive(Debug)]
pub struct Route {
    pub target_servers: Vec<String>,
    pub target_path: String,
}

/// Mathematical image of a route context.
pub ghost struct RouteView {
    pub target_servers: Seq<Seq<char>>,
    pub target_path: Seq<char>,
}

impl View for Route {
    type V = RouteView;

    open spec fn view(&self) -> RouteView {
        RouteView {
            target_servers: self.target_servers.deep_view(),
            target_path: self.target_path@,
        }
    }
}

impl Clone for Route {
    /// A clone has the same mathematical image as the original.
    fn clone(&self) -> (res: Self)
        ensures
            res@ == self@,
    {
        Route {
            target_servers: clone_string_vec(&self.target_servers),
            target_path: self.target_path.clone(),
        }
    }
}

/// The route context a resolved entry hands the dispatcher.
pub open spec fn route_of(e: EntryView) -> RouteView {
    RouteView { target_servers: e.api.target_servers, target_path: e.api.target_path }
}

impl Route {
    /// The context of a resolved entry.
    pub fn from_api(m_api: ManagedApi) -> (r: Route)
        ensures
            r@ == route_of(m_api@),
    {
        Route {
            target_servers: m_api.de_api.target_servers,
            target_path: m_api.de_api.target_path,
        }
    }
}

/// A fixed route for wiring a pipeline by hand.
pub fn dummy_route() -> (r: Route)
    ensures
        r@.target_servers == seq!["https://httpbin.org"@],
        r@.target_path == Seq::<char>::empty(),
{
    let mut target_servers: Vec<String> = Vec::new();
    target_servers.push(String::from_str("https://httpbin.org"));
    let r = Route { target_servers, target_path: String::new() };
    assert(r@.target_servers =~= seq!["https://httpbin.org"@]);
    r
}

/// A layer that attaches one fixed route to every request.
#[derive(Debug)]
pub struct RouteLayer {
    pub route: Route,
}

/// The route stage wrapped around an inner stage: it attaches its route
/// to each request it forwards.
#[derive(Debug)]
pub struct RouteService<S> {
    pub inner: S,
    pub route: Route,
}

impl RouteLayer {
    /// A layer carrying the route it will attach.
    pub fn new(route: Route) -> (r: Self)
        ensures
            r.route == route,
    {
        RouteLayer { route }
    }

    /// Wraps an inner stage.
    pub fn layer<S>(&self, inner: S) -> (r: RouteService<S>)
        ensures
            r.inner == inner,
            r.route@ == self.route@,
    {
        RouteService { inner, route: self.route.clone() }
    }
}

} // verus!
