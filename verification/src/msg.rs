//! Message types and the target rewrite: an inbound request is rewritten to
//! point at the fixed upstream origin, duplicated, and keyed by its path.

use vstd::prelude::*;
use crate::dup::{bytes_eq, copy_bytes, extend_bytes};

verus! {

/// The reserved introspection path, `/status`, as bytes.
pub open spec fn status_path() -> Seq<u8> {
    seq![47u8, 115u8, 116u8, 97u8, 116u8, 117u8, 115u8]
}

/// The fixed upstream origin, `https://www.standard.tech`, as bytes.
pub open spec fn upstream_origin() -> Seq<u8> {
    seq![
        104u8, 116u8, 116u8, 112u8, 115u8, 58u8, 47u8, 47u8, 119u8, 119u8, 119u8, 46u8, 115u8,
        116u8, 97u8, 110u8, 100u8, 97u8, 114u8, 100u8, 46u8, 116u8, 101u8, 99u8, 104u8,
    ]
}

/// The view of an optional byte buffer, such as a query string.
pub open spec fn opt_bytes(o: Option<Vec<u8>>) -> Option<Seq<u8>> {
    match o {
        Option::None => Option::None,
        Option::Some(v) => Option::Some(v@),
    }
}

/// The absolute upstream target for an inbound path and optional query:
/// the fixed origin, then the path verbatim, then `?` and the query if any.
pub open spec fn upstream_uri(path: Seq<u8>, query: Option<Seq<u8>>) -> Seq<u8> {
    match query {
        Option::None => upstream_origin() + path,
        Option::Some(q) => upstream_origin() + path + seq![63u8] + q,
    }
}

/// An inbound request, already drained into plain values by the transport.
pub struct InboundRequest {
    /// The request method, e.g. `GET`; carried but deliberately not part of
    /// the cache key.
    pub method: Vec<u8>,
    /// The target path, starting with `/`.
    pub path: Vec<u8>,
    /// The query string after `?`, if one was present.
    pub query: Option<Vec<u8>>,
    /// The fully drained request body.
    pub body: Vec<u8>,
}

/// A request rewritten to point at the fixed upstream origin.
pub struct UpstreamRequest {
    /// The absolute target, `upstream_uri` of the path and query.
    pub uri: Vec<u8>,
    /// The inbound path, kept verbatim; it is also the cache key.
    pub path: Vec<u8>,
    /// The inbound query string, kept verbatim.
    pub query: Option<Vec<u8>>,
    /// An independent copy of the inbound body.
    pub body: Vec<u8>,
}

impl UpstreamRequest {
    /// The target invariant: the URI that is forwarded is exactly the rewrite
    /// of the path that the cache key is derived from.
    pub open spec fn wf(self) -> bool {
        self.uri@ == upstream_uri(self.path@, opt_bytes(self.query))
    }
}

/// Two upstream requests carry the same target and the same bytes.
pub open spec fn upstream_req_eq(a: UpstreamRequest, b: UpstreamRequest) -> bool {
    &&& a.uri@ == b.uri@
    &&& a.path@ == b.path@
    &&& opt_bytes(a.query) == opt_bytes(b.query)
    &&& a.body@ == b.body@
}

/// A response of the core, ready for the transport to send.
pub struct ProxyResponse {
    /// The HTTP status code.
    pub status: u16,
    /// `Some(age)` puts a `cache-control: max-age=age` header on the wire.
    pub max_age_seconds: Option<u64>,
    /// The response body.
    pub body: Vec<u8>,
}

/// Why a round trip to the upstream origin did not complete.
#[derive(Clone, Copy, Debug, PartialEq, Eq)]
pub enum UpstreamError {
    /// The connection could not be established.
    ConnectFailed,
    /// The exchange timed out.
    TimedOut,
    /// The exchange started but did not complete as HTTP.
    Protocol,
}

/// A request-scoped failure of the core pipeline. A cache key is always
/// derivable here (it is the path verbatim), so no key-construction case
/// exists.
#[derive(Clone, Copy, Debug, PartialEq, Eq)]
pub enum ProxyError {
    /// A message body could not be fully drained.
    BodyRead,
    /// The forwarder could not complete the round trip.
    Upstream(UpstreamError),
}

/// Returns true exactly when `path` is the reserved status path.
pub fn is_status_path(path: &Vec<u8>) -> (r: bool)
    ensures
        r == (path@ == status_path()),
{
    let mut s: Vec<u8> = Vec::new();
    s.push(47);
    s.push(115);
    s.push(116);
    s.push(97);
    s.push(116);
    s.push(117);
    s.push(115);
    proof {
        assert(s@ =~= status_path());
    }
    bytes_eq(path, &s)
}

/// Returns the fixed upstream origin as an owned buffer.
fn upstream_origin_bytes() -> (r: Vec<u8>)
    ensures
        r@ == upstream_origin(),
{
    let mut s: Vec<u8> = Vec::new();
    s.push(104);
    s.push(116);
    s.push(116);
    s.push(112);
    s.push(115);
    s.push(58);
    s.push(47);
    s.push(47);
    s.push(119);
    s.push(119);
    s.push(119);
    s.push(46);
    s.push(115);
    s.push(116);
    s.push(97);
    s.push(110);
    s.push(100);
    s.push(97);
    s.push(114);
    s.push(100);
    s.push(46);
    s.push(116);
    s.push(101);
    s.push(99);
    s.push(104);
    proof {
        assert(s@ =~= upstream_origin());
    }
    s
}

/// Rewrites an inbound request into an upstream request: the target becomes
/// the fixed origin followed by the inbound path and query verbatim, and the
/// body is copied.
pub fn rewrite_request(req: &InboundRequest) -> (r: UpstreamRequest)
    ensures
        r.wf(),
        r.path@ == req.path@,
        opt_bytes(r.query) == opt_bytes(req.query),
        r.body@ == req.body@,
{
    let mut uri = upstream_origin_bytes();
    extend_bytes(&mut uri, &req.path);
    let query: Option<Vec<u8>> = match &req.query {
        None => None,
        Some(q) => {
            uri.push(63);
            extend_bytes(&mut uri, q);
            proof {
                assert(uri@ =~= upstream_origin() + req.path@ + seq![63u8] + q@);
            }
            Some(copy_bytes(q))
        },
    };
    let path = copy_bytes(&req.path);
    let body = copy_bytes(&req.body);
    UpstreamRequest { uri, path, query, body }
}

/// Duplicates an upstream request: the consumed original and a fresh copy are
/// returned, carrying identical target and bytes, so that one can be sent and
/// the other's path can serve as the cache key.
pub fn duplicate_request(req: UpstreamRequest) -> (r: (UpstreamRequest, UpstreamRequest))
    ensures
        upstream_req_eq(r.0, req),
        upstream_req_eq(r.1, req),
{
    let uri = copy_bytes(&req.uri);
    let path = copy_bytes(&req.path);
    let query: Option<Vec<u8>> = match &req.query {
        None => None,
        Some(q) => Some(copy_bytes(q)),
    };
    let body = copy_bytes(&req.body);
    let twin = UpstreamRequest { uri, path, query, body };
    (req, twin)
}

/// Maps a request-scoped failure to the response the caller sees: an
/// internal error for a body that could not be drained, a bad-gateway for a
/// failed upstream round trip; the body is empty either way.
pub fn error_response(e: &ProxyError) -> (r: ProxyResponse)
    ensures
        r.max_age_seconds is None,
        r.body@.len() == 0,
        e matches ProxyError::BodyRead ==> r.status == 500,
        e matches ProxyError::Upstream(_) ==> r.status == 502,
{
    let status: u16 = match e {
        ProxyError::BodyRead => 500,
        ProxyError::Upstream(_) => 502,
    };
    ProxyResponse { status, max_age_seconds: None, body: Vec::new() }
}

} // verus!
