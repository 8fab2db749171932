use vstd::prelude::*;
use crate::error::ProxyError;
use crate::strutil::str_eq;

verus! {

/// The entry bound the service configures its shared cache with.
pub const CACHE_MAX_ENTRIES: usize = 1000;

/// The fixed time-to-live of every cache entry, in seconds: ten minutes.
pub const CACHE_TTL_SECONDS: u64 = 600;

/// One resident cache entry: a key, the payload stored under it, and the
/// time the entry was (re)inserted.
pub struct CacheEntry {
    pub key: String,
    pub payload: serde_json::Value,
    pub inserted_at: u64,
}

/// No two entries share a key.
pub open spec fn distinct_keys(s: Seq<CacheEntry>) -> bool {
    forall|i: int, j: int| 0 <= i < j < s.len() ==> s[i].key@ != s[j].key@
}

/// Some entry of `s` carries the key `k`.
pub open spec fn seq_has(s: Seq<CacheEntry>, k: Seq<char>) -> bool {
    exists|j: int| 0 <= j < s.len() && s[j].key@ == k
}

/// The index of the entry carrying `k` (meaningful when `seq_has` holds and
/// the keys are distinct).
pub open spec fn seq_idx(s: Seq<CacheEntry>, k: Seq<char>) -> int {
    choose|j: int| 0 <= j < s.len() && s[j].key@ == k
}

/// Exactly one resident key, `dropped`, made room under capacity pressure:
/// it was resident before the store and every other key resident before is
/// still resident after.
pub open spec fn displaced_only(
    pre: PayloadCache,
    post: PayloadCache,
    dropped: Seq<char>,
) -> bool {
    pre.has_key(dropped) && forall|k: Seq<char>|
        pre.has_key(k) && k != dropped ==> post.has_key(k)
}

/// A bounded, time-expiring key-to-payload store. An entry is created on
/// the first successful resolution for its key, is served for lookups until
/// its age reaches the time-to-live, and is evicted silently by time or by
/// capacity pressure; there is no explicit deletion. When a store would
/// exceed the bound, the longest-resident entry makes room.
pub struct PayloadCache {
    entries: Vec<CacheEntry>,
    max_entries: usize,
    time_to_live: u64,
}

impl PayloadCache {
    /// The configured maximum number of resident entries.
    pub closed spec fn cap(self) -> int {
        self.max_entries as int
    }

    /// The configured time-to-live, in the driver's clock units.
    pub closed spec fn ttl(self) -> int {
        self.time_to_live as int
    }

    /// The number of resident entries (expired ones included until they are
    /// displaced).
    pub closed spec fn size(self) -> int {
        self.entries.len() as int
    }

    /// Whether an entry for `k` is resident, expired or not.
    pub closed spec fn has_key(self, k: Seq<char>) -> bool {
        seq_has(self.entries@, k)
    }

    /// The payload resident under `k`.
    pub closed spec fn stored(self, k: Seq<char>) -> serde_json::Value {
        self.entries@[seq_idx(self.entries@, k)].payload
    }

    /// The time the entry under `k` was last stored.
    pub closed spec fn stored_at(self, k: Seq<char>) -> int {
        self.entries@[seq_idx(self.entries@, k)].inserted_at as int
    }

    /// Well-formedness: the bound is positive, the entry count respects it,
    /// and no key is resident twice.
    pub closed spec fn wf(self) -> bool {
        &&& self.max_entries >= 1
        &&& self.entries@.len() <= self.max_entries
        &&& distinct_keys(self.entries@)
    }

    /// An entry for `k` is resident and its age is still below the
    /// time-to-live, so a lookup at `now` must serve it.
    pub open spec fn live(self, k: Seq<char>, now: u64) -> bool {
        self.has_key(k) && now < self.stored_at(k) + self.ttl()
    }

    /// An empty cache with the given bound and time-to-live.
    pub fn new(max_entries: usize, time_to_live: u64) -> (r: PayloadCache)
        requires
            max_entries >= 1,
        ensures
            r.wf(),
            r.size() == 0,
            r.cap() == max_entries,
            r.ttl() == time_to_live,
            forall|k: Seq<char>| !r.has_key(k),
    {
        PayloadCache { entries: Vec::new(), max_entries, time_to_live }
    }

    fn find(&self, key: &str) -> (r: Option<usize>)
        ensures
            (match r {
                Some(i) => 0 <= i < self.entries@.len() && self.entries@[i as int].key@ == key@,
                None => !seq_has(self.entries@, key@),
            }),
    {
        let n = self.entries.len();
        let mut i: usize = 0;
        while i < n
            invariant
                n == self.entries@.len(),
                i <= n,
                forall|j: int| 0 <= j < i ==> self.entries@[j].key@ != key@,
            decreases n - i,
        {
            if str_eq(self.entries[i].key.as_str(), key) {
                return Some(i);
            }
            i += 1;
        }
        None
    }

    /// Serve a lookup at time `now`: the stored payload (as a copy the
    /// caller owns) exactly when an unexpired entry for the key is
    /// resident, and nothing otherwise. Expired entries are logically
    /// absent. The cache itself is not changed by a lookup.
    pub fn lookup(&self, key: &str, now: u64) -> (r: Option<serde_json::Value>)
        requires
            self.wf(),
        ensures
            self.live(key@, now) ==> r == Some(self.stored(key@)),
            !self.live(key@, now) ==> r is None,
    {
        match self.find(key) {
            Some(i) => {
                proof {
                    lemma_seq_idx(self.entries@, key@);
                }
                let e = &self.entries[i];
                let fresh = now >= e.inserted_at && now - e.inserted_at < self.time_to_live;
                if fresh || now < e.inserted_at {
                    Some(e.payload.clone())
                } else {
                    None
                }
            },
            None => None,
        }
    }

    /// Store a payload under a key at time `now`: the key then holds that
    /// payload with a fresh timestamp; no other key's entry changes; at
    /// most one other entry (the longest-resident one, and only under
    /// capacity pressure) is displaced; and the entry count never exceeds
    /// the bound.
    pub fn store(&mut self, key: &str, payload: serde_json::Value, now: u64)
        requires
            old(self).wf(),
        ensures
            final(self).wf(),
            final(self).cap() == old(self).cap(),
            final(self).ttl() == old(self).ttl(),
            final(self).has_key(key@),
            final(self).stored(key@) == payload,
            final(self).stored_at(key@) == now as int,
            forall|k: Seq<char>|
                k != key@ && final(self).has_key(k) ==> old(self).has_key(k)
                    && final(self).stored(k) == old(self).stored(k)
                    && final(self).stored_at(k) == old(self).stored_at(k),
            old(self).has_key(key@) ==> final(self).size() == old(self).size()
                && (forall|k: Seq<char>| old(self).has_key(k) ==> final(self).has_key(k)),
            !old(self).has_key(key@) && old(self).size() < old(self).cap() ==> final(self).size()
                == old(self).size() + 1
                && (forall|k: Seq<char>| old(self).has_key(k) ==> final(self).has_key(k)),
            !old(self).has_key(key@) && old(self).size() == old(self).cap() ==> final(self).size()
                == old(self).cap() && (exists|dropped: Seq<char>|
                displaced_only(*old(self), *final(self), dropped)),
    {
        let ghost s0 = self.entries@;
        let ghost mut removed_idx: int = -1;
        match self.find(key) {
            Some(i) => {
                proof {
                    lemma_seq_idx(s0, key@);
                    removed_idx = i as int;
                }
                self.entries.remove(i);
                proof {
                    lemma_remove_distinct(s0, i as int);
                    lemma_remove_all_other_keys(s0, i as int, key@);
                }
            },
            None => {
                if self.entries.len() == self.max_entries {
                    proof {
                        removed_idx = 0;
                    }
                    self.entries.remove(0);
                    proof {
                        lemma_remove_distinct(s0, 0);
                        assert(!seq_has(s0.remove(0), key@)) by {
                            assert forall|j: int| 0 <= j < s0.remove(0).len() implies s0.remove(
                                0,
                            )[j].key@ != key@ by {
                                assert(s0.remove(0)[j] == s0[j + 1]);
                            }
                        }
                    }
                }
            },
        }
        let ghost s1 = self.entries@;
        let entry = CacheEntry { key: key.to_owned(), payload, inserted_at: now };
        self.entries.push(entry);
        proof {
            lemma_push_new_key(s1, entry);
            let s2 = self.entries@;
            assert(s2[s1.len() as int].key@ == key@);
            assert(seq_has(s2, key@));
            lemma_seq_idx(s2, key@);
            assert(seq_idx(s2, key@) == s1.len() as int);
            if removed_idx >= 0 {
                lemma_store_frame_removed(s0, removed_idx, s2, entry, key@);
            } else {
                lemma_store_frame_keep(s0, s2, entry, key@);
            }
            if removed_idx == 0 && !seq_has(s0, key@) {
                assert(seq_has(s0, s0[0].key@));
                assert(forall|k: Seq<char>| seq_has(s0, k) && k != s0[0].key@ ==> seq_has(s2, k));
                assert(displaced_only(*old(self), *self, s0[0].key@));
                assert(exists|dropped: Seq<char>| displaced_only(*old(self), *self, dropped));
            }
        }
    }

    /// Record the terminal result of a resolution for a key at time `now`
    /// and hand it back: a payload is stored under the key before being
    /// returned, while a failure leaves the cache exactly as it was, so the
    /// next request for the key retries the full chain.
    pub fn cache_result(
        &mut self,
        key: &str,
        result: Result<serde_json::Value, ProxyError>,
        now: u64,
    ) -> (r: Result<serde_json::Value, ProxyError>)
        requires
            old(self).wf(),
        ensures
            r == result,
            final(self).wf(),
            final(self).cap() == old(self).cap(),
            final(self).ttl() == old(self).ttl(),
            result matches Ok(v) ==> final(self).has_key(key@)
                && final(self).stored(key@) == v
                && final(self).stored_at(key@) == now as int,
            forall|k: Seq<char>|
                k != key@ && final(self).has_key(k) ==> old(self).has_key(k)
                    && final(self).stored(k) == old(self).stored(k)
                    && final(self).stored_at(k) == old(self).stored_at(k),
            result is Err ==> *final(self) == *old(self),
    {
        match result {
            Ok(v) => {
                let out = v.clone();
                self.store(key, v, now);
                Ok(out)
            },
            Err(e) => Err(e),
        }
    }
}

proof fn lemma_seq_idx(s: Seq<CacheEntry>, k: Seq<char>)
    requires
        distinct_keys(s),
        seq_has(s, k),
    ensures
        0 <= seq_idx(s, k) < s.len(),
        s[seq_idx(s, k)].key@ == k,
        forall|j: int| 0 <= j < s.len() && s[j].key@ == k ==> j == seq_idx(s, k),
{
    let j0 = choose|j: int| 0 <= j < s.len() && s[j].key@ == k;
    assert(0 <= j0 < s.len() && s[j0].key@ == k);
    assert forall|j: int| 0 <= j < s.len() && s[j].key@ == k implies j == seq_idx(s, k) by {
        if j != seq_idx(s, k) {
            assert(s[j].key@ != s[seq_idx(s, k)].key@);
        }
    }
}

proof fn lemma_remove_distinct(s: Seq<CacheEntry>, i: int)
    requires
        distinct_keys(s),
        0 <= i < s.len(),
    ensures
        distinct_keys(s.remove(i)),
{
    assert forall|a: int, b: int| 0 <= a < b < s.remove(i).len() implies s.remove(i)[a].key@
        != s.remove(i)[b].key@ by {
        let a0 = if a < i { a } else { a + 1 };
        let b0 = if b < i { b } else { b + 1 };
        assert(s.remove(i)[a] == s[a0]);
        assert(s.remove(i)[b] == s[b0]);
    }
}

proof fn lemma_remove_all_other_keys(s: Seq<CacheEntry>, i: int, k: Seq<char>)
    requires
        distinct_keys(s),
        0 <= i < s.len(),
        s[i].key@ == k,
    ensures
        !seq_has(s.remove(i), k),
{
    assert forall|j: int| 0 <= j < s.remove(i).len() implies s.remove(i)[j].key@ != k by {
        let j0 = if j < i { j } else { j + 1 };
        assert(s.remove(i)[j] == s[j0]);
    }
}

proof fn lemma_push_new_key(s: Seq<CacheEntry>, e: CacheEntry)
    requires
        distinct_keys(s),
        !seq_has(s, e.key@),
    ensures
        distinct_keys(s.push(e)),
{
    assert forall|a: int, b: int| 0 <= a < b < s.push(e).len() implies s.push(e)[a].key@ != s.push(
        e,
    )[b].key@ by {
        if b == s.len() {
            assert(s.push(e)[a] == s[a]);
        } else {
            assert(s.push(e)[a] == s[a]);
            assert(s.push(e)[b] == s[b]);
        }
    }
}

/// Relates the entries after a plain append (`s2 = s0.push(e)`) back to the
/// entries before it: every key of `s0` survives at its place, and every
/// key of `s2` other than the new entry's comes from `s0` unchanged.
proof fn lemma_store_frame_keep(s0: Seq<CacheEntry>, s2: Seq<CacheEntry>, e: CacheEntry, key: Seq<
    char,
>)
    requires
        distinct_keys(s0),
        distinct_keys(s2),
        e.key@ == key,
        s2 == s0.push(e),
    ensures
        forall|k: Seq<char>|
            k != key && seq_has(s2, k) ==> seq_has(s0, k) && s2[seq_idx(s2, k)]
                == s0[seq_idx(s0, k)],
        forall|k: Seq<char>| seq_has(s0, k) ==> seq_has(s2, k),
{
    assert forall|k: Seq<char>| k != key && seq_has(s2, k) implies seq_has(s0, k) && s2[seq_idx(
        s2,
        k,
    )] == s0[seq_idx(s0, k)] by {
        lemma_seq_idx(s2, k);
        let j2 = seq_idx(s2, k);
        assert(j2 != s0.len());
        assert(s2[j2] == s0[j2]);
        assert(seq_has(s0, k));
        lemma_seq_idx(s0, k);
    }
    assert forall|k: Seq<char>| seq_has(s0, k) implies seq_has(s2, k) by {
        let j0 = choose|j: int| 0 <= j < s0.len() && s0[j].key@ == k;
        assert(s2[j0] == s0[j0]);
    }
}

/// Relates the entries after a displace-and-append
/// (`s2 = s0.remove(i).push(e)`) back to the entries before it: every key
/// of `s2` other than the new entry's comes from `s0` unchanged, and every
/// key of `s0` other than the displaced entry's and the new entry's
/// survives.
proof fn lemma_store_frame_removed(
    s0: Seq<CacheEntry>,
    i: int,
    s2: Seq<CacheEntry>,
    e: CacheEntry,
    key: Seq<char>,
)
    requires
        distinct_keys(s0),
        distinct_keys(s2),
        e.key@ == key,
        0 <= i < s0.len(),
        s2 == s0.remove(i).push(e),
    ensures
        forall|k: Seq<char>|
            k != key && seq_has(s2, k) ==> seq_has(s0, k) && s2[seq_idx(s2, k)]
                == s0[seq_idx(s0, k)],
        forall|k: Seq<char>|
            seq_has(s0, k) && k != key && k != s0[i].key@ ==> seq_has(s2, k),
{
    let s1 = s0.remove(i);
    assert forall|k: Seq<char>| k != key && seq_has(s2, k) implies seq_has(s0, k) && s2[seq_idx(
        s2,
        k,
    )] == s0[seq_idx(s0, k)] by {
        lemma_seq_idx(s2, k);
        let j2 = seq_idx(s2, k);
        assert(j2 != s1.len());
        assert(s2[j2] == s1[j2]);
        let j0 = if j2 < i { j2 } else { j2 + 1 };
        assert(s1[j2] == s0[j0]);
        assert(seq_has(s0, k));
        lemma_seq_idx(s0, k);
    }
    assert forall|k: Seq<char>| seq_has(s0, k) && k != key && k != s0[i].key@ implies seq_has(
        s2,
        k,
    ) by {
        lemma_seq_idx(s0, k);
        let j0 = seq_idx(s0, k);
        assert(j0 != i);
        let j1 = if j0 < i { j0 } else { j0 - 1 };
        assert(s1[j1] == s0[j0]);
        assert(s2[j1] == s1[j1]);
    }
}

/// Capacity bound: a well-formed cache never holds more resident entries
/// than its configured maximum, however many distinct keys are stored
/// into it.
pub proof fn lemma_capacity_bound(c: PayloadCache)
    requires
        c.wf(),
    ensures
        c.size() <= c.cap(),
{
}

/// Cache hits avoid upstream work: once a payload is stored under a key,
/// any lookup within the time-to-live window is served that payload from
/// the cache, so the resolver is not run again for the key.
pub proof fn lemma_cache_hit_avoids_refetch(c: PayloadCache, k: Seq<char>, now: u64)
    requires
        c.wf(),
        c.has_key(k),
        now < c.stored_at(k) + c.ttl(),
    ensures
        c.live(k, now),
{
}

/// Expiry: once the time-to-live window has elapsed since a key's entry was
/// stored, a lookup no longer serves it, so the resolver runs again.
pub proof fn lemma_expiry_forces_refetch(c: PayloadCache, k: Seq<char>, now: u64)
    requires
        c.wf(),
        now >= c.stored_at(k) + c.ttl(),
    ensures
        !c.live(k, now),
{
}

} // verus!
