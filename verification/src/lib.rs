//! A caching reverse proxy core: routing between a status endpoint and a
//! proxy path, duplication of one-shot message bodies, a TTL-bounded cache
//! store, and a counter of proxied requests.
//!
//! The surrounding binary owns the network transport; this library holds the
//! decision logic and the shared state, stated and verified over plain byte
//! values, with the clock supplied by the caller as milliseconds.

pub mod cache;
pub mod dup;
pub mod msg;
pub mod router;
pub mod stats;
