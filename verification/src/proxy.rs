//! The proxy dispatcher's decision: where the outbound call goes.
//!
//! The outbound call itself — and its transport — belongs to the
//! surrounding process; this stage only fixes the target URI from the
//! resolved route.

use vstd::prelude::*;

use crate::route::Route;

verus! {

/// The terminal dispatcher of the pipeline.
#[derive(Debug, Clone, Copy)]
pub struct ProxyService;

impl ProxyService {
    /// The outbound target: the route's first target server followed by
    /// its rewritten target path.
    pub fn outbound_target(&self, route: &Route) -> (r: String)
        requires
            route@.target_servers.len() > 0,
        ensures
            r@ == route@.target_servers[0] + route@.target_path,
    {
        let mut out = route.target_servers[0].clone();
        out.append(route.target_path.as_str());
        out
    }
}

} // verus!
