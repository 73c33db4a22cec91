//! The request router: for every inbound request it decides between the
//! status branch, a cache hit, and a cache miss that must be forwarded, and
//! it applies the outcome of a forward to the shared state. The network round
//! trip itself is the surrounding binary's business: the router hands it a
//! rewritten request and takes back the drained response bytes, so every
//! decision here is stated and proved over plain values.

use vstd::prelude::*;
use crate::cache::{CacheStore, CACHE_CAPACITY, TTL_MILLIS};
use crate::dup::duplicate_bytes;
use crate::msg::{
    status_path, upstream_uri, opt_bytes, upstream_req_eq, InboundRequest, UpstreamRequest,
    ProxyResponse, ProxyError, UpstreamError, is_status_path, rewrite_request, duplicate_request,
    error_response,
};
use crate::stats::{Stats, status_body, render_status_body};

verus! {

/// The freshness that a cache hit announces, independent of the remaining
/// time-to-live of the entry that served it.
pub const HIT_MAX_AGE_SECONDS: u64 = 30;

/// The two shared resources, owned by the process and handed to the router
/// by reference for every request.
pub struct ProxyState {
    /// The cache store.
    pub cache: CacheStore,
    /// The count of proxied cache-miss requests.
    pub stats: Stats,
}

impl ProxyState {
    /// Well-formed: the cache store is.
    pub open spec fn wf(self) -> bool {
        self.cache.wf()
    }

    /// The process-start state: an empty cache and a zero counter.
    pub fn new() -> (r: ProxyState)
        ensures
            r.wf(),
            r.stats.proxied == 0,
            r.cache.entries@.len() == 0,
            forall|k: Seq<u8>| !r.cache.spec_contains(k),
    {
        ProxyState { cache: CacheStore::new(), stats: Stats::new() }
    }
}

/// What the router decided for one inbound request: either a finished
/// response, or an upstream request that must be forwarded before the request
/// can be answered.
pub enum Decision {
    /// The request is answered without reaching the upstream origin.
    Respond(ProxyResponse),
    /// The request must be forwarded: `send` goes on the wire, `keep` is the
    /// identical copy whose path is the cache key.
    Forward {
        /// The copy to put on the wire.
        send: UpstreamRequest,
        /// The identical copy kept back for the cache step.
        keep: UpstreamRequest,
    },
}

/// Routes one inbound request at instant `now_millis`. Exactly one of three
/// things happens, and the shared state is read, never changed:
/// - the status path is answered at once with the human-readable counter and
///   never forwarded;
/// - any other path cached live under its (path-only) key is served from the
///   store, announcing the fixed freshness;
/// - any other path not cached live becomes a forward instruction carrying
///   two identical copies of the rewritten request.
pub fn handle_request(state: &ProxyState, req: &InboundRequest, now_millis: u64) -> (d: Decision)
    requires
        state.wf(),
    ensures
        req.path@ == status_path() ==> (d matches Decision::Respond(r) && r.status == 200
            && r.max_age_seconds is None && r.body@ == status_body(state.stats.proxied as nat)),
        req.path@ != status_path() ==> (state.cache.spec_lookup(req.path@, now_millis) matches
            Option::Some(v) ==> (d matches Decision::Respond(r) && r.status == 200
            && r.max_age_seconds == Option::Some(HIT_MAX_AGE_SECONDS) && r.body@ == v)),
        req.path@ != status_path() && state.cache.spec_lookup(req.path@, now_millis) is None
            ==> (d matches Decision::Forward { send, keep } && upstream_req_eq(send, keep)
            && send.wf() && send.path@ == req.path@ && opt_bytes(send.query) == opt_bytes(req.query)
            && send.body@ == req.body@
            && send.uri@ == upstream_uri(req.path@, opt_bytes(req.query))),
{
    if is_status_path(&req.path) {
        let body = render_status_body(state.stats.snapshot());
        Decision::Respond(ProxyResponse { status: 200, max_age_seconds: None, body })
    } else {
        let rewritten = rewrite_request(req);
        let (send, keep) = duplicate_request(rewritten);
        match state.cache.lookup(&keep.path, now_millis) {
            Some(v) => Decision::Respond(
                ProxyResponse {
                    status: 200,
                    max_age_seconds: Some(HIT_MAX_AGE_SECONDS),
                    body: v,
                },
            ),
            None => Decision::Forward { send, keep },
        }
    }
}

/// Applies the outcome of the upstream round trip for the miss that `keep`
/// came from, at instant `now_millis`.
/// - On success the response bytes are duplicated; one copy is stored under
///   `keep`'s path with the fixed time-to-live, the counter grows by exactly
///   one, and the other copy is served with status 200.
/// - On failure nothing is stored, the counter keeps its value, the state is
///   exactly what it was, and the caller sees the bad-gateway response.
pub fn complete_forward(
    state: &mut ProxyState,
    keep: &UpstreamRequest,
    outcome: Result<Vec<u8>, UpstreamError>,
    now_millis: u64,
) -> (r: ProxyResponse)
    requires
        old(state).wf(),
        old(state).stats.proxied < u64::MAX,
        now_millis <= u64::MAX - TTL_MILLIS,
    ensures
        final(state).wf(),
        (outcome matches Result::Ok(body) ==> r.status == 200
            && r.max_age_seconds is None
            && r.body@ == body@
            && final(state).stats.proxied == old(state).stats.proxied + 1
            && final(state).cache.spec_contains(keep.path@)
            && final(state).cache.spec_value(keep.path@) == body@
            && final(state).cache.spec_expiry(keep.path@) == now_millis + TTL_MILLIS
            && (forall|k2: Seq<u8>| #![auto]
                k2 != keep.path@ && final(state).cache.spec_contains(k2)
                    ==> old(state).cache.spec_contains(k2)
                    && final(state).cache.spec_value(k2) == old(state).cache.spec_value(k2)
                    && final(state).cache.spec_expiry(k2) == old(state).cache.spec_expiry(k2))
            && ((old(state).cache.spec_contains(keep.path@)
                || old(state).cache.entries@.len() < CACHE_CAPACITY) ==> (forall|k2: Seq<u8>|
                #![auto]
                k2 != keep.path@ && old(state).cache.spec_contains(k2)
                    ==> final(state).cache.spec_contains(k2)))),
        (outcome matches Result::Err(_) ==> r.status == 502
            && r.max_age_seconds is None
            && r.body@.len() == 0
            && *final(state) == *old(state)),
{
    match outcome {
        Ok(body) => {
            let (to_store, to_serve) = duplicate_bytes(&body);
            state.cache.insert(&keep.path, to_store, now_millis);
            state.stats.increment();
            ProxyResponse { status: 200, max_age_seconds: None, body: to_serve }
        },
        Err(e) => error_response(&ProxyError::Upstream(e)),
    }
}

/// Exactly one route applies to any request: the status guard, the live
/// cache hit, and the miss are mutually exclusive and leave nothing out.
pub proof fn lemma_route_exclusive(c: CacheStore, path: Seq<u8>, now_millis: u64)
    ensures
        ({
            let on_status = path == status_path();
            let hit = path != status_path() && c.spec_lookup(path, now_millis) is Some;
            let miss = path != status_path() && c.spec_lookup(path, now_millis) is None;
            (on_status && !hit && !miss) || (!on_status && hit && !miss) || (!on_status && !hit
                && miss)
        }),
{
}

} // verus!
