//! The cache store: a key-to-bytes mapping, bounded in size, each entry
//! expiring a fixed time after its insertion. The clock is supplied by the
//! caller as milliseconds, so expiry is part of the stated semantics: a
//! lookup never observably returns a value whose time has passed.

use vstd::prelude::*;
use crate::dup::{bytes_eq, copy_bytes};
use crate::msg::opt_bytes;

verus! {

/// The store never holds more entries than this; inserting into a full store
/// discards its oldest entry.
pub const CACHE_CAPACITY: usize = 1000;

/// Every entry expires this long after the instant it was inserted.
pub const TTL_MILLIS: u64 = 30000;

/// One cached payload: the path it was fetched under, the response bytes,
/// and the instant at which it stops being served.
pub struct CacheEntry {
    /// The cache key: the request path, verbatim.
    pub key: Vec<u8>,
    /// The cached response body.
    pub value: Vec<u8>,
    /// The first instant at which this entry no longer counts as live.
    pub expires_at_millis: u64,
}

/// The store itself: entries in insertion order, oldest first, no key twice.
pub struct CacheStore {
    /// The live and not-yet-collected entries, oldest first.
    pub entries: Vec<CacheEntry>,
}

impl CacheStore {
    /// Well-formed: within capacity, and no key occurs twice.
    pub open spec fn wf(self) -> bool {
        &&& self.entries@.len() <= CACHE_CAPACITY
        &&& forall|i: int, j: int|
            #![trigger self.entries@[i].key@, self.entries@[j].key@]
            0 <= i < j < self.entries@.len() ==> self.entries@[i].key@ != self.entries@[j].key@
    }

    /// Whether some entry, live or expired, is stored under `k`.
    pub open spec fn spec_contains(self, k: Seq<u8>) -> bool {
        exists|i: int| 0 <= i < self.entries@.len() && self.entries@[i].key@ == k
    }

    /// The index of the entry stored under `k` (meaningful when one exists;
    /// by well-formedness there is at most one).
    pub open spec fn entry_index(self, k: Seq<u8>) -> int {
        choose|i: int| 0 <= i < self.entries@.len() && self.entries@[i].key@ == k
    }

    /// The bytes stored under `k`.
    pub open spec fn spec_value(self, k: Seq<u8>) -> Seq<u8> {
        self.entries@[self.entry_index(k)].value@
    }

    /// The expiry instant of the entry stored under `k`.
    pub open spec fn spec_expiry(self, k: Seq<u8>) -> u64 {
        self.entries@[self.entry_index(k)].expires_at_millis
    }

    /// What a lookup at `now_millis` returns: the stored bytes when an entry
    /// for `k` exists and its time has not yet passed, and nothing otherwise.
    pub open spec fn spec_lookup(self, k: Seq<u8>, now_millis: u64) -> Option<Seq<u8>> {
        if self.spec_contains(k) && now_millis < self.spec_expiry(k) {
            Option::Some(self.spec_value(k))
        } else {
            Option::None
        }
    }

    /// With no key stored twice, any index whose entry carries `k` is the
    /// index that the spec functions speak of.
    pub proof fn lemma_entry_index(self, k: Seq<u8>, i: int)
        requires
            self.wf(),
            0 <= i < self.entries@.len(),
            self.entries@[i].key@ == k,
        ensures
            self.spec_contains(k),
            self.entry_index(k) == i,
    {
        assert(self.spec_contains(k));
        let j = self.entry_index(k);
        assert(0 <= j < self.entries@.len() && self.entries@[j].key@ == k);
        if i < j {
            assert(self.entries@[i].key@ != self.entries@[j].key@);
        }
        if j < i {
            assert(self.entries@[j].key@ != self.entries@[i].key@);
        }
    }

    /// A fresh, empty store.
    pub fn new() -> (r: CacheStore)
        ensures
            r.wf(),
            r.entries@.len() == 0,
            forall|k: Seq<u8>| !r.spec_contains(k),
    {
        CacheStore { entries: Vec::new() }
    }

    /// Returns the index of the entry stored under `key`, if one exists.
    fn find(&self, key: &Vec<u8>) -> (r: Option<usize>)
        ensures
            match r {
                Option::Some(i) => 0 <= i < self.entries@.len()
                    && self.entries@[i as int].key@ == key@,
                Option::None => !self.spec_contains(key@),
            },
    {
        let mut i: usize = 0;
        while i < self.entries.len()
            invariant
                i <= self.entries@.len(),
                forall|j: int| 0 <= j < i ==> self.entries@[j].key@ != key@,
            decreases self.entries@.len() - i,
        {
            if bytes_eq(&self.entries[i].key, key) {
                return Some(i);
            }
            i = i + 1;
        }
        None
    }

    /// Returns the bytes cached under `key` if an entry exists and its time
    /// has not passed at `now_millis`; indicates absence otherwise.
    pub fn lookup(&self, key: &Vec<u8>, now_millis: u64) -> (r: Option<Vec<u8>>)
        requires
            self.wf(),
        ensures
            opt_bytes(r) == self.spec_lookup(key@, now_millis),
    {
        match self.find(key) {
            None => None,
            Some(i) => {
                proof {
                    self.lemma_entry_index(key@, i as int);
                }
                if now_millis < self.entries[i].expires_at_millis {
                    Some(copy_bytes(&self.entries[i].value))
                } else {
                    None
                }
            },
        }
    }

    /// Stores `value` under `key`, replacing any prior entry for that key,
    /// with an absolute expiry of `now_millis` plus the fixed time-to-live.
    /// When the store is full and the key is new, the oldest entry is
    /// discarded to make room. No other entry is touched: every other key
    /// keeps its bytes and its expiry, and none appears from nowhere.
    pub fn insert(&mut self, key: &Vec<u8>, value: Vec<u8>, now_millis: u64)
        requires
            old(self).wf(),
            now_millis <= u64::MAX - TTL_MILLIS,
        ensures
            final(self).wf(),
            final(self).spec_contains(key@),
            final(self).spec_value(key@) == value@,
            final(self).spec_expiry(key@) == now_millis + TTL_MILLIS,
            forall|k2: Seq<u8>| #![auto]
                k2 != key@ && final(self).spec_contains(k2) ==> old(self).spec_contains(k2)
                    && final(self).spec_value(k2) == old(self).spec_value(k2)
                    && final(self).spec_expiry(k2) == old(self).spec_expiry(k2),
            (old(self).spec_contains(key@) || old(self).entries@.len() < CACHE_CAPACITY)
                ==> forall|k2: Seq<u8>| #![auto]
                k2 != key@ && old(self).spec_contains(k2) ==> final(self).spec_contains(k2),
            (!old(self).spec_contains(key@) && old(self).entries@.len() == CACHE_CAPACITY)
                ==> forall|k2: Seq<u8>| #![auto]
                k2 != key@ && k2 != old(self).entries@[0].key@ && old(self).spec_contains(k2)
                    ==> final(self).spec_contains(k2),
    {
        let ghost s0: Seq<CacheEntry> = self.entries@;
        let found = self.find(key);
        match found {
            Some(i) => {
                proof {
                    old(self).lemma_entry_index(key@, i as int);
                }
                self.entries.remove(i);
            },
            None => {
                if self.entries.len() == CACHE_CAPACITY {
                    self.entries.remove(0);
                }
            },
        }
        let entry = CacheEntry {
            key: copy_bytes(key),
            value,
            expires_at_millis: now_millis + TTL_MILLIS,
        };
        self.entries.push(entry);
        proof {
            let contains0 = old(self).spec_contains(key@);
            let removed = contains0 || s0.len() == CACHE_CAPACITY;
            let ri: int = if contains0 {
                old(self).entry_index(key@)
            } else {
                0
            };
            let s1: Seq<CacheEntry> = if removed {
                s0.remove(ri)
            } else {
                s0
            };
            if removed {
                s0.remove_ensures(ri);
            }
            let s2 = self.entries@;
            let n1 = s1.len() as int;
            assert(s2 == s1.push(entry));
            assert(s2[n1].key@ == key@);
            assert(s2[n1].value@ == value@);

            // Every slot of the trimmed prefix keeps some old entry, and none
            // of them carries `key`.
            assert forall|j: int| 0 <= j < n1 implies s2[j] == s0[
                if removed && j >= ri {
                    j + 1
                } else {
                    j
                }
            ] && s2[j].key@ != key@ by {
                assert(s2[j] == s1[j]);
                let j0: int = if removed && j >= ri {
                    j + 1
                } else {
                    j
                };
                assert(s1[j] == s0[j0]);
                if contains0 {
                    assert(s0[ri].key@ == key@);
                    if j0 < ri {
                        assert(s0[j0].key@ != s0[ri].key@);
                    } else {
                        assert(s0[ri].key@ != s0[j0].key@);
                    }
                } else {
                    if s0[j0].key@ == key@ {
                        assert(old(self).spec_contains(key@));
                    }
                }
            }

            // Well-formedness of the new store.
            assert forall|a: int, b: int|
                0 <= a < b < s2.len() implies s2[a].key@ != s2[b].key@ by {
                if b < n1 {
                    let a0: int = if removed && a >= ri {
                        a + 1
                    } else {
                        a
                    };
                    let b0: int = if removed && b >= ri {
                        b + 1
                    } else {
                        b
                    };
                    assert(s2[a] == s0[a0]);
                    assert(s2[b] == s0[b0]);
                    assert(0 <= a0 < b0 < s0.len());
                    assert(s0[a0].key@ != s0[b0].key@);
                } else {
                    assert(b == n1);
                    assert(s2[a].key@ != key@);
                }
            }
            assert(self.wf());
            self.lemma_entry_index(key@, n1);

            // No entry appears from nowhere, and none changes under another key.
            assert forall|k2: Seq<u8>|
                k2 != key@ && self.spec_contains(k2) implies old(self).spec_contains(k2)
                    && self.spec_value(k2) == old(self).spec_value(k2)
                    && self.spec_expiry(k2) == old(self).spec_expiry(k2) by {
                let j = self.entry_index(k2);
                assert(0 <= j < s2.len() && s2[j].key@ == k2);
                assert(j != n1);
                let j0: int = if removed && j >= ri {
                    j + 1
                } else {
                    j
                };
                assert(s2[j] == s0[j0]);
                assert(old(self).entries@[j0].key@ == k2);
                assert(old(self).spec_contains(k2));
                old(self).lemma_entry_index(k2, j0);
                self.lemma_entry_index(k2, j);
            }

            // Replacing a key, or inserting below capacity, loses no other key.
            if contains0 || s0.len() < CACHE_CAPACITY {
                assert forall|k2: Seq<u8>|
                    k2 != key@ && old(self).spec_contains(k2) implies self.spec_contains(
                    k2,
                ) by {
                    let i0 = old(self).entry_index(k2);
                    assert(0 <= i0 < s0.len() && s0[i0].key@ == k2);
                    if removed {
                        assert(contains0);
                        assert(s0[ri].key@ == key@);
                        assert(i0 != ri);
                        let j: int = if i0 < ri {
                            i0
                        } else {
                            i0 - 1
                        };
                        assert(s1[j] == s0[i0]);
                        assert(s2[j].key@ == k2);
                        self.lemma_entry_index(k2, j);
                    } else {
                        assert(s2[i0].key@ == k2);
                        self.lemma_entry_index(k2, i0);
                    }
                }
            }

            // A full store discards at most its oldest entry.
            if !contains0 && s0.len() == CACHE_CAPACITY {
                assert forall|k2: Seq<u8>|
                    k2 != key@ && k2 != s0[0].key@ && old(self).spec_contains(k2)
                        implies self.spec_contains(k2) by {
                    let i0 = old(self).entry_index(k2);
                    assert(0 <= i0 < s0.len() && s0[i0].key@ == k2);
                    assert(i0 != 0);
                    assert(s1[i0 - 1] == s0[i0]);
                    assert(s2[i0 - 1].key@ == k2);
                    self.lemma_entry_index(k2, i0 - 1);
                }
            }
        }
    }
}

/// Idempotence within the time-to-live window: a store holding `key` with
/// bytes `v` and the expiry that an insertion at `t0` gives it serves exactly
/// `v` at any instant `t1` before that expiry.
pub proof fn lemma_repeat_within_ttl(c: CacheStore, key: Seq<u8>, v: Seq<u8>, t0: u64, t1: u64)
    requires
        c.wf(),
        c.spec_contains(key),
        c.spec_value(key) == v,
        c.spec_expiry(key) == t0 + TTL_MILLIS,
        t0 <= t1 < t0 + TTL_MILLIS,
    ensures
        c.spec_lookup(key, t1) == Option::Some(v),
{
}

/// After the time-to-live has elapsed, a repeat lookup misses even though the
/// entry is still stored: a store holding `key` with the expiry that an
/// insertion at `t0` gives it returns nothing at any instant from that expiry
/// on.
pub proof fn lemma_repeat_after_expiry(c: CacheStore, key: Seq<u8>, t0: u64, t1: u64)
    requires
        c.wf(),
        c.spec_contains(key),
        c.spec_expiry(key) == t0 + TTL_MILLIS,
        t1 >= t0 + TTL_MILLIS,
    ensures
        c.spec_lookup(key, t1) is None,
{
}

} // verus!
