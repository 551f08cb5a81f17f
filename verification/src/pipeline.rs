//! The composed request pipeline, outermost to innermost: CORS, route
//! resolution, access logging, proxy dispatch.
//!
//! Request-side effects apply outside-in and response-side effects
//! inside-out. The request side either short-circuits with a
//! route-not-found response — never invoking the inner stages or any
//! upstream — or yields a forwarding plan: the resolved route, the
//! outbound target URI and the fresh metric. The surrounding process
//! makes the outbound call and hands its outcome to the response side,
//! which turns a transport failure into a bad-gateway response and lets
//! the CORS stage set its headers on every response on the way out.

use vstd::prelude::*;

use crate::access_log::Metric;
use crate::cors::apply_cors;
use crate::cors::with_cors;
use crate::message::HeaderView;
use crate::message::ResponseHead;
use crate::proxy::ProxyService;
use crate::route::Route;
use crate::route::route_of;
use crate::store::RouteTableStore;
use crate::store::active_of;
use crate::table::lemma_found_entry_wf;
use crate::table::table_find;

verus! {

/// The status of the response the route-resolution stage short-circuits
/// with.
pub const STATUS_NOT_FOUND: u16 = 404;

/// The status of the response a failed outbound call becomes.
pub const STATUS_BAD_GATEWAY: u16 = 502;

/// Everything the forwarding half of a matched request needs: the
/// resolved route context, the outbound target URI, and the fresh metric
/// of the request.
#[derive(Debug)]
pub struct ForwardPlan {
    pub route: Route,
    pub outbound_uri: String,
    pub metric: Metric,
}

/// What the request side of the pipeline decides for one request.
#[derive(Debug)]
pub enum RequestOutcome {
    /// No route matched: respond at once, without contacting any
    /// upstream.
    NotFound(ResponseHead),
    /// A route matched: forward to its target.
    Forward(ForwardPlan),
}

/// The request side of the pipeline. Resolves the method and path against
/// the active table generation: on a miss it short-circuits with the
/// CORS-decorated not-found response; on a match it yields the resolved
/// route, the outbound target — the entry's first target server followed
/// by the rewritten target path — and the fresh metric of the request.
pub fn handle_request(store: &RouteTableStore, method: &str, uri: &str, request_id: u64) -> (r:
    RequestOutcome)
    requires
        store.wf(),
    ensures
        ({
            let found = table_find(active_of(store@), method@, uri@);
            match r {
                RequestOutcome::NotFound(resp) => {
                    &&& found is None
                    &&& resp@.status == STATUS_NOT_FOUND
                    &&& resp@.headers == with_cors(Seq::<HeaderView>::empty())
                },
                RequestOutcome::Forward(plan) => {
                    &&& found is Some
                    &&& plan.route@ == route_of(found.unwrap())
                    &&& plan.outbound_uri@ == found.unwrap().api.target_servers[0]
                        + found.unwrap().api.target_path
                    &&& plan.metric == (Metric {
                        id: request_id,
                        request_size: 0,
                        response_size: 0,
                        finalized: false,
                    })
                },
            }
        }),
{
    proof {
        lemma_found_entry_wf(active_of(store@), method@, uri@);
    }
    match store.find_api_by_reqline(method, uri) {
        None => {
            let mut resp = ResponseHead { status: STATUS_NOT_FOUND, headers: Vec::new() };
            assert(resp@.headers =~= Seq::<HeaderView>::empty());
            apply_cors(&mut resp);
            RequestOutcome::NotFound(resp)
        },
        Some(m_api) => {
            let route = Route::from_api(m_api);
            let proxy = ProxyService;
            let outbound_uri = proxy.outbound_target(&route);
            let metric = Metric::new(request_id);
            RequestOutcome::Forward(ForwardPlan { route, outbound_uri, metric })
        },
    }
}

/// The response side of the pipeline. An upstream response travels back
/// out unmodified but for the stages' own effects; an outbound transport
/// failure becomes the bad-gateway response; and the CORS stage sets its
/// three wildcard headers on every response on the way out.
pub fn complete_response(outcome: Result<ResponseHead, String>) -> (r: ResponseHead)
    ensures
        match outcome {
            Ok(upstream) => {
                &&& r@.status == upstream@.status
                &&& r@.headers == with_cors(upstream@.headers)
            },
            Err(_) => {
                &&& r@.status == STATUS_BAD_GATEWAY
                &&& r@.headers == with_cors(Seq::<HeaderView>::empty())
            },
        },
{
    let mut resp = match outcome {
        Ok(upstream) => upstream,
        Err(_e) => {
            let failed = ResponseHead { status: STATUS_BAD_GATEWAY, headers: Vec::new() };
            assert(failed@.headers =~= Seq::<HeaderView>::empty());
            failed
        },
    };
    apply_cors(&mut resp);
    resp
}

} // verus!
