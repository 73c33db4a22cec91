//! The stats counter: how many requests were proxied to the upstream origin,
//! and its human-readable rendering for the status endpoint.

use vstd::prelude::*;

verus! {

/// The shared count of successfully proxied cache-miss requests. Cache hits
/// and status queries leave it unchanged; it is never reset.
pub struct Stats {
    /// The number of requests forwarded upstream and answered.
    pub proxied: u64,
}

impl Stats {
    /// A fresh counter, at zero.
    pub fn new() -> (r: Stats)
        ensures
            r.proxied == 0,
    {
        Stats { proxied: 0 }
    }

    /// Adds exactly one.
    pub fn increment(&mut self)
        requires
            old(self).proxied < u64::MAX,
        ensures
            final(self).proxied == old(self).proxied + 1,
    {
        self.proxied = self.proxied + 1;
    }

    /// Returns the current count.
    pub fn snapshot(&self) -> (r: u64)
        ensures
            r == self.proxied,
    {
        self.proxied
    }
}

/// The decimal digits of `n`, most significant first, as ASCII bytes.
pub open spec fn dec_rep(n: nat) -> Seq<u8>
    decreases n,
{
    if n < 10 {
        seq![(48 + n) as u8]
    } else {
        dec_rep(n / 10).push((48 + n % 10) as u8)
    }
}

/// The status endpoint's body for a proxied count of `n`:
/// `proxied: ` followed by the count in decimal.
pub open spec fn status_body(n: nat) -> Seq<u8> {
    seq![112u8, 114u8, 111u8, 120u8, 105u8, 101u8, 100u8, 58u8, 32u8] + dec_rep(n)
}

/// Renders `n` in decimal as ASCII bytes.
pub fn render_u64(n: u64) -> (r: Vec<u8>)
    ensures
        r@ == dec_rep(n as nat),
    decreases n,
{
    if n < 10 {
        let mut r: Vec<u8> = Vec::new();
        r.push(48 + (n as u8));
        proof {
            assert(r@ =~= dec_rep(n as nat));
        }
        r
    } else {
        let mut r = render_u64(n / 10);
        r.push(48 + ((n % 10) as u8));
        r
    }
}

/// Renders the status endpoint's body for a proxied count of `n`.
pub fn render_status_body(n: u64) -> (r: Vec<u8>)
    ensures
        r@ == status_body(n as nat),
{
    let mut r: Vec<u8> = Vec::new();
    r.push(112);
    r.push(114);
    r.push(111);
    r.push(120);
    r.push(105);
    r.push(101);
    r.push(100);
    r.push(58);
    r.push(32);
    let digits = render_u64(n);
    crate::dup::extend_bytes(&mut r, &digits);
    proof {
        assert(r@ =~= status_body(n as nat));
    }
    r
}

} // verus!
