use proxy_cache::cache::{CacheStore, CACHE_CAPACITY, TTL_MILLIS};
use proxy_cache::dup::{bytes_eq, duplicate_bytes};
use proxy_cache::msg::{InboundRequest, rewrite_request, is_status_path};
use proxy_cache::stats::{Stats, render_status_body, render_u64};

fn b(s: &str) -> Vec<u8> {
    s.as_bytes().to_vec()
}

#[test]
fn empty_store_misses() {
    let c = CacheStore::new();
    assert!(c.lookup(&b("/a"), 0).is_none());
    assert!(c.lookup(&Vec::new(), 0).is_none());
}

#[test]
fn insert_then_lookup_within_ttl() {
    let mut c = CacheStore::new();
    c.insert(&b("/a"), b("hello"), 1_000);
    assert_eq!(c.lookup(&b("/a"), 1_000), Some(b("hello")));
    assert_eq!(c.lookup(&b("/a"), 1_000 + TTL_MILLIS - 1), Some(b("hello")));
    assert_eq!(c.lookup(&b("/a"), 1_000 + TTL_MILLIS), None);
    assert_eq!(c.lookup(&b("/b"), 1_000), None);
}

#[test]
fn insert_replaces_prior_entry() {
    let mut c = CacheStore::new();
    c.insert(&b("/a"), b("one"), 0);
    c.insert(&b("/a"), b("two"), 10);
    assert_eq!(c.entries.len(), 1);
    assert_eq!(c.lookup(&b("/a"), 10), Some(b("two")));
    // The replacement refreshed the expiry.
    assert_eq!(c.lookup(&b("/a"), 10 + TTL_MILLIS - 1), Some(b("two")));
}

#[test]
fn full_store_discards_the_oldest() {
    let mut c = CacheStore::new();
    for i in 0..CACHE_CAPACITY {
        c.insert(&b(&format!("/k{}", i)), b("v"), 0);
    }
    assert_eq!(c.entries.len(), CACHE_CAPACITY);
    c.insert(&b("/fresh"), b("w"), 0);
    assert_eq!(c.entries.len(), CACHE_CAPACITY);
    assert_eq!(c.lookup(&b("/k0"), 0), None);
    assert_eq!(c.lookup(&b("/k1"), 0), Some(b("v")));
    assert_eq!(c.lookup(&b("/fresh"), 0), Some(b("w")));
}

#[test]
fn stats_counts_one_by_one() {
    let mut s = Stats::new();
    assert_eq!(s.snapshot(), 0);
    s.increment();
    s.increment();
    assert_eq!(s.snapshot(), 2);
}

#[test]
fn rendering_is_decimal() {
    assert_eq!(render_u64(0), b("0"));
    assert_eq!(render_u64(30), b("30"));
    assert_eq!(render_u64(12_345), b("12345"));
    assert_eq!(render_u64(u64::MAX), b("18446744073709551615"));
    assert_eq!(render_status_body(0), b("proxied: 0"));
    assert_eq!(render_status_body(3), b("proxied: 3"));
}

#[test]
fn duplicator_yields_equal_copies() {
    let (x, y) = duplicate_bytes(&b("payload"));
    assert_eq!(x, b("payload"));
    assert_eq!(y, b("payload"));
    let (e1, e2) = duplicate_bytes(&Vec::new());
    assert!(e1.is_empty() && e2.is_empty());
    assert!(bytes_eq(&x, &y));
    assert!(!bytes_eq(&x, &b("other")));
    assert!(!bytes_eq(&b("ab"), &b("abc")));
}

#[test]
fn rewrite_keeps_path_query_and_body() {
    let req = InboundRequest {
        method: b("PUT"),
        path: b("/p/q"),
        query: Some(b("k=v&n=2")),
        body: b("payload"),
    };
    let up = rewrite_request(&req);
    assert_eq!(up.uri, b("https://www.standard.tech/p/q?k=v&n=2"));
    assert_eq!(up.path, b("/p/q"));
    assert_eq!(up.query, Some(b("k=v&n=2")));
    assert_eq!(up.body, b("payload"));

    let bare = rewrite_request(&InboundRequest {
        method: b("GET"),
        path: b("/p"),
        query: None,
        body: Vec::new(),
    });
    assert_eq!(bare.uri, b("https://www.standard.tech/p"));
}

#[test]
fn status_path_is_exact() {
    assert!(is_status_path(&b("/status")));
    assert!(!is_status_path(&b("/status/")));
    assert!(!is_status_path(&b("/stat")));
    assert!(!is_status_path(&b("")));
}
