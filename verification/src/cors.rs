//! The CORS stage: on the response path it unconditionally sets three
//! permissive wildcard headers; it never touches the request.

use vstd::prelude::*;

use crate::message::HeaderView;
use crate::message::ResponseHead;
use crate::message::set_header;

verus! {

/// The response headers after the CORS stage: the three wildcard fields
/// set over whatever the inner stages produced.
pub open spec fn with_cors(hs: Seq<HeaderView>) -> Seq<HeaderView> {
    set_header(
        set_header(
            set_header(hs, "access-control-allow-origin"@, "*"@),
            "access-control-allow-headers"@,
            "*"@,
        ),
        "access-control-allow-methods"@,
        "*"@,
    )
}

/// Sets the three permissive wildcard headers on an outgoing response.
pub fn apply_cors(resp: &mut ResponseHead)
    ensures
        final(resp)@.status == old(resp)@.status,
        final(resp)@.headers == with_cors(old(resp)@.headers),
{
    resp.set_header("access-control-allow-origin", "*");
    resp.set_header("access-control-allow-headers", "*");
    resp.set_header("access-control-allow-methods", "*");
}

/// The CORS stage as a layer.
#[derive(Debug, Clone, Copy)]
pub struct CorsLayer;

/// The CORS stage wrapped around an inner stage.
#[derive(Debug, Clone, Copy)]
pub struct CorsService<S> {
    pub inner: S,
}

impl CorsLayer {
    /// Wraps an inner stage.
    pub fn layer<S>(&self, inner: S) -> (r: CorsService<S>)
        ensures
            r == (CorsService { inner }),
    {
        CorsService { inner }
    }
}

} // verus!
