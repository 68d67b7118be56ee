//! The in-memory cache of DNS answers: one table per record type, keyed by
//! query name, each answer usable until its time to live runs out, and a
//! capacity past which expired answers are swept out and new ones refused.
//!
//! Time is a reading of a monotonic clock in nanoseconds from an origin;
//! the tables take it as an argument, the cache reads it.

use vstd::prelude::*;

use std::time::{Duration, Instant};

use crate::dns::model::DnsCacheConfig;
use crate::net::{copy_ips, IpAddr};
use crate::keyed::{
    distinct_keys, lemma_lookup_absent, lemma_lookup_at, lemma_lookup_drop_first, lemma_lookup_update, lookup,
};
use crate::time::{duration_nanos, max_duration_nanos, nanos};

verus! {

/// One stored answer and the clock reading from which it is stale.
pub struct CacheEntry<T> {
    pub value: T,
    pub expires_at: u128,
}

impl<T> CacheEntry<T> {
    pub fn is_expired(&self, now: u128) -> (r: bool)
        ensures
            r == (now >= self.expires_at),
    {
        now >= self.expires_at
    }
}

/// The entry when it is still usable at `now`.
pub open spec fn live<T>(e: Option<CacheEntry<T>>, now: nat) -> Option<CacheEntry<T>> {
    match e {
        Some(x) => if now < x.expires_at {
            Some(x)
        } else {
            None
        },
        None => None,
    }
}

/// The number of entries still usable at `now`.
pub open spec fn live_count<T>(s: Seq<(String, CacheEntry<T>)>, now: nat) -> nat
    decreases s.len(),
{
    if s.len() == 0 {
        0
    } else {
        (if now < s[0].1.expires_at {
            1nat
        } else {
            0nat
        }) + live_count(s.drop_first(), now)
    }
}

proof fn lemma_written_when_full<T>(start: AnswerTable<T>, next: AnswerTable<T>, key: Seq<char>, value: T, now: nat)
    requires
        start.size() >= start.capacity(),
        start.swept_to(next, now),
        next.size() >= next.capacity(),
    ensures
        start.written_to(next, key, value, now),
{
}

proof fn lemma_written<T>(
    start: AnswerTable<T>,
    base: AnswerTable<T>,
    next: AnswerTable<T>,
    key: Seq<char>,
    value: T,
    now: nat,
)
    requires
        start.size() >= start.capacity() ==> start.swept_to(base, now),
        start.size() < start.capacity() ==> base == start,
        base.size() < base.capacity(),
        next.ttl() == base.ttl() && next.capacity() == base.capacity(),
        next.entry(key) == Some(CacheEntry { value, expires_at: (now + start.ttl()) as u128 }),
        forall|k: Seq<char>| k != key ==> #[trigger] next.entry(k) == base.entry(k),
        next.size() == base.size() + if base.entry(key) is Some {
            0nat
        } else {
            1nat
        },
    ensures
        start.written_to(next, key, value, now),
{
}

/// The answers of one record type.
pub struct AnswerTable<T> {
    ttl: u128,
    max_entries: usize,
    entries: Vec<(String, CacheEntry<T>)>,
}

impl<T> AnswerTable<T> {
    /// Each key at most once, and a time to live that a duration can hold.
    pub closed spec fn wf(self) -> bool {
        distinct_keys(self.entries@) && self.ttl <= max_duration_nanos()
    }

    /// The entry stored under the key.
    pub closed spec fn entry(self, key: Seq<char>) -> Option<CacheEntry<T>> {
        lookup(self.entries@, key)
    }

    /// The number of stored entries (expired ones included).
    pub closed spec fn size(self) -> nat {
        self.entries@.len()
    }

    /// The number of stored entries still usable at `now`.
    pub closed spec fn live_size(self, now: nat) -> nat {
        live_count(self.entries@, now)
    }

    /// The time to live in nanoseconds.
    pub closed spec fn ttl(self) -> nat {
        self.ttl as nat
    }

    /// The number of entries past which nothing new is stored.
    pub closed spec fn capacity(self) -> nat {
        self.max_entries as nat
    }

    /// The answer usable at `now`.
    pub open spec fn answer(self, key: Seq<char>, now: nat) -> Option<T> {
        match live(self.entry(key), now) {
            Some(e) => Some(e.value),
            None => None,
        }
    }

    /// `next` is this table after a sweep at `now`: exactly the entries
    /// still usable remain.
    pub open spec fn swept_to(self, next: Self, now: nat) -> bool {
        &&& next.ttl() == self.ttl() && next.capacity() == self.capacity()
        &&& next.size() == self.live_size(now)
        &&& forall|k: Seq<char>| #[trigger] next.entry(k) == live(self.entry(k), now)
    }

    /// `next` is this table after storing `value` under `key` at `now`: a
    /// full table is swept first; if it is still full nothing is stored,
    /// else the answer is stored (replacing the key's entry) until `now`
    /// plus the time to live.
    pub open spec fn written_to(self, next: Self, key: Seq<char>, value: T, now: nat) -> bool {
        let full = self.size() >= self.capacity();
        let base_size = if full {
            self.live_size(now)
        } else {
            self.size()
        };
        &&& next.ttl() == self.ttl() && next.capacity() == self.capacity()
        &&& if full && self.live_size(now) >= self.capacity() {
            &&& next.size() == base_size
            &&& forall|k: Seq<char>| #[trigger] next.entry(k) == live(self.entry(k), now)
        } else {
            let before = if full {
                live(self.entry(key), now)
            } else {
                self.entry(key)
            };
            &&& next.entry(key) == Some(CacheEntry { value, expires_at: (now + self.ttl()) as u128 })
            &&& forall|k: Seq<char>|
                k != key ==> #[trigger] next.entry(k) == if full {
                    live(self.entry(k), now)
                } else {
                    self.entry(k)
                }
            &&& next.size() == base_size + if before is Some {
                0nat
            } else {
                1nat
            }
        }
    }

    /// An empty table.
    pub fn new(ttl: &Duration, max_entries: usize) -> (t: Self)
        ensures
            t.wf(),
            t.ttl() == nanos(*ttl),
            t.capacity() == max_entries,
            t.size() == 0,
            forall|k: Seq<char>| #[trigger] t.entry(k) is None,
    {
        AnswerTable { ttl: duration_nanos(ttl), max_entries, entries: Vec::new() }
    }

    /// The answer stored under the key, when still usable at `now`.
    pub fn get(&self, key: &str, now: u128) -> (r: Option<&T>)
        requires
            self.wf(),
        ensures
            match r {
                Some(v) => self.answer(key@, now as nat) == Some(*v),
                None => self.answer(key@, now as nat) is None,
            },
    {
        let k = crate::text::copy_str(key);
        let mut i: usize = 0;
        while i < self.entries.len()
            invariant
                self.wf(),
                k@ == key@,
                i <= self.entries@.len(),
                forall|j: int| 0 <= j < i ==> (#[trigger] self.entries@[j]).0@ != key@,
            decreases self.entries@.len() - i,
        {
            if self.entries[i].0 == k {
                proof {
                    lemma_lookup_at(self.entries@, key@, i as int);
                }
                let e = &self.entries[i].1;
                if e.is_expired(now) {
                    return None;
                } else {
                    return Some(&e.value);
                }
            }
            i += 1;
        }
        proof {
            lemma_lookup_absent(self.entries@, key@);
        }
        None
    }

    /// Sweeps out the entries no longer usable at `now`.
    pub fn evict_expired(&mut self, now: u128)
        requires
            old(self).wf(),
        ensures
            final(self).wf(),
            old(self).swept_to(*final(self), now as nat),
    {
        let ghost all = self.entries@;
        let mut rest: Vec<(String, CacheEntry<T>)> = Vec::new();
        std::mem::swap(&mut rest, &mut self.entries);
        let mut kept: Vec<(String, CacheEntry<T>)> = Vec::new();
        assert(all.skip(all.len() as int) =~= Seq::<(String, CacheEntry<T>)>::empty());
        while rest.len() > 0
            invariant
                distinct_keys(all),
                rest@ == all.take(rest@.len() as int),
                rest@.len() <= all.len(),
                distinct_keys(kept@),
                kept@.len() == live_count(all.skip(rest@.len() as int), now as nat),
                forall|k: Seq<char>| #[trigger] lookup(kept@, k) == live(
                    lookup(all.skip(rest@.len() as int), k),
                    now as nat,
                ),
                forall|a: int| 0 <= a < kept@.len() ==> lookup(all.skip(rest@.len() as int), (#[trigger] kept@[a]).0@) is Some,
            decreases rest@.len(),
        {
            let ghost n = rest@.len() as int;
            let ghost suffix = all.skip(n);
            let ghost next = all.skip(n - 1);
            let e = rest.pop().unwrap();
            proof {
                assert(e == all[n - 1]);
                assert(next[0] == e);
                assert(next.drop_first() =~= suffix);
                assert(distinct_keys(next)) by {
                    assert forall|i: int, j: int| 0 <= i < j < next.len() implies (#[trigger] next[i]).0@ != (#[trigger] next[j]).0@ by {
                        assert(next[i] == all[n - 1 + i] && next[j] == all[n - 1 + j]);
                    }
                }
                assert forall|i: int| 0 <= i < suffix.len() implies (#[trigger] suffix[i]).0@ != e.0@ by {
                    assert(suffix[i] == all[n + i]);
                }
                lemma_lookup_absent(suffix, e.0@);
                lemma_lookup_at(next, e.0@, 0);
                assert forall|k: Seq<char>| k != e.0@ implies #[trigger] lookup(next, k) == lookup(suffix, k) by {
                    lemma_lookup_drop_first(next, k);
                }
                assert forall|a: int| 0 <= a < kept@.len() implies (#[trigger] kept@[a]).0@ != e.0@ by {
                    assert(lookup(suffix, kept@[a].0@) is Some);
                }
                assert(rest@ =~= all.take(n - 1));
            }
            if !e.1.is_expired(now) {
                let ghost before = kept@;
                let ghost ee = e;
                kept.push(e);
                proof {
                    assert forall|a: int, b: int| 0 <= a < b < kept@.len() implies (#[trigger] kept@[a]).0@ != (#[trigger] kept@[b]).0@ by {
                        if b < before.len() {
                            assert(before[a].0@ != before[b].0@);
                        }
                    }
                    assert(kept@.drop_last() =~= before);
                    assert(kept@.last() == ee);
                    assert forall|k: Seq<char>| #[trigger] lookup(kept@, k) == live(lookup(next, k), now as nat) by {
                        if k == ee.0@ {
                            assert(lookup(next, k) == Some(ee.1));
                        } else {
                            assert(lookup(kept@, k) == lookup(before, k));
                            assert(lookup(next, k) == lookup(suffix, k));
                        }
                    }
                    assert forall|a: int| 0 <= a < kept@.len() implies lookup(next, (#[trigger] kept@[a]).0@) is Some by {
                        if a < before.len() {
                            assert(kept@[a] == before[a]);
                        }
                    }
                }
            }
        }
        assert(all.skip(0) =~= all);
        self.entries = kept;
    }

    /// Stores the answer under the key at `now`; see `written_to`.
    pub fn set(&mut self, key: &str, value: T, now: u128)
        requires
            old(self).wf(),
            now <= max_duration_nanos(),
        ensures
            final(self).wf(),
            old(self).written_to(*final(self), key@, value, now as nat),
    {
        let ghost start = *self;
        let ghost v = value;
        if self.entries.len() >= self.max_entries {
            self.evict_expired(now);
            if self.entries.len() >= self.max_entries {
                proof {
                    lemma_written_when_full(start, *self, key@, v, now as nat);
                }
                return;
            }
        }
        let ghost base = *self;
        assert(start.size() < start.capacity() ==> base == start);
        let k = crate::text::copy_str(key);
        let entry = CacheEntry { value, expires_at: now + self.ttl };
        let ghost pair = (k, entry);
        let mut i: usize = 0;
        while i < self.entries.len()
            invariant
                *self == base,
                start == *old(self),
                v == value,
                base.wf(),
                start.size() >= start.capacity() ==> start.swept_to(base, now as nat),
                start.size() < start.capacity() ==> base == start,
                base.size() < base.capacity(),
                entry.expires_at == now + start.ttl(),
                entry.value == v,
                k@ == key@,
                pair == (k, entry),
                i <= self.entries@.len(),
                forall|j: int| 0 <= j < i ==> (#[trigger] self.entries@[j]).0@ != key@,
            decreases self.entries@.len() - i,
        {
            if self.entries[i].0 == k {
                proof {
                    lemma_lookup_at(base.entries@, key@, i as int);
                    lemma_lookup_update(base.entries@, i as int, pair, key@);
                    assert forall|q: Seq<char>| q != key@ implies #[trigger] lookup(base.entries@.update(i as int, pair), q) == lookup(base.entries@, q) by {
                        lemma_lookup_update(base.entries@, i as int, pair, q);
                    }
                }
                self.entries.set(i, (k, entry));
                proof {
                    assert(self.entries@ == base.entries@.update(i as int, pair));
                    lemma_written(start, base, *self, key@, v, now as nat);
                }
                return;
            }
            i += 1;
        }
        proof {
            lemma_lookup_absent(base.entries@, key@);
        }
        self.entries.push((k, entry));
        proof {
            let before = base.entries@;
            assert(self.entries@ == before.push(pair));
            assert forall|a: int, b: int| 0 <= a < b < self.entries@.len() implies (#[trigger] self.entries@[a]).0@ != (#[trigger] self.entries@[b]).0@ by {
                if b < before.len() {
                    assert(before[a].0@ != before[b].0@);
                }
            }
            assert(self.entries@.drop_last() =~= before);
            assert forall|q: Seq<char>| q != key@ implies #[trigger] lookup(self.entries@, q) == lookup(before, q) by {
            }
            lemma_written(start, base, *self, key@, v, now as nat);
        }
    }

    /// Removes every entry.
    pub fn clear(&mut self)
        requires
            old(self).wf(),
        ensures
            final(self).wf(),
            final(self).ttl() == old(self).ttl() && final(self).capacity() == old(self).capacity(),
            final(self).size() == 0,
            forall|k: Seq<char>| #[trigger] final(self).entry(k) is None,
    {
        self.entries = Vec::new();
    }

    /// The number of stored entries.
    pub fn len(&self) -> (r: usize)
        ensures
            r == self.size(),
    {
        self.entries.len()
    }
}

proof fn lemma_live_count_bound<T>(s: Seq<(String, CacheEntry<T>)>, now: nat)
    ensures
        live_count(s, now) <= s.len(),
    decreases s.len(),
{
    if s.len() > 0 {
        lemma_live_count_bound(s.drop_first(), now);
    }
}

/// A stored answer is read back until its time to live runs out: after a
/// write at `now` that was stored, a read at any `later` before
/// `now + ttl` gives the written value.
pub proof fn law_cache_read_after_write<T>(t: AnswerTable<T>, next: AnswerTable<T>, key: Seq<char>, value: T, now: nat, later: nat)
    requires
        t.written_to(next, key, value, now),
        t.size() < t.capacity() || t.live_size(now) < t.capacity(),
        now <= later < now + t.ttl(),
        now + t.ttl() <= u128::MAX,
    ensures
        next.answer(key, later) == Some(value),
{
}

/// A stored answer is gone once its time to live has run out.
pub proof fn law_cache_answer_expires<T>(t: AnswerTable<T>, next: AnswerTable<T>, key: Seq<char>, value: T, now: nat, later: nat)
    requires
        t.written_to(next, key, value, now),
        t.size() < t.capacity() || t.live_size(now) < t.capacity(),
        later >= now + t.ttl(),
        now + t.ttl() <= u128::MAX,
    ensures
        next.answer(key, later) is None,
{
}

/// A write never loses another key's answer that is still usable: from
/// the write's time on, every other key reads as before.
pub proof fn law_cache_write_keeps_other_answers<T>(
    t: AnswerTable<T>,
    next: AnswerTable<T>,
    key: Seq<char>,
    value: T,
    now: nat,
    other: Seq<char>,
    later: nat,
)
    requires
        t.written_to(next, key, value, now),
        other != key,
        later >= now,
    ensures
        next.answer(other, later) == t.answer(other, later),
{
    assert(next.entry(other) == live(t.entry(other), now) || next.entry(other) == t.entry(other));
}

/// A table never holds more entries than its capacity.
pub proof fn law_cache_size_within_capacity<T>(t: AnswerTable<T>, next: AnswerTable<T>, key: Seq<char>, value: T, now: nat)
    requires
        t.written_to(next, key, value, now),
        t.size() <= t.capacity(),
    ensures
        next.size() <= next.capacity(),
{
    lemma_live_count_bound(t.entries@, now);
}

/// A sweep keeps exactly the answers usable from then on.
pub proof fn law_sweep_keeps_usable_answers<T>(t: AnswerTable<T>, next: AnswerTable<T>, now: nat, key: Seq<char>, later: nat)
    requires
        t.swept_to(next, now),
        later >= now,
    ensures
        next.answer(key, later) == t.answer(key, later),
        next.size() <= t.size(),
{
    lemma_live_count_bound(t.entries@, now);
}

/// The answer usable at some reading of the clock (a reading is at most the
/// longest duration): a copy of the stored answer while it is live, none once
/// it has expired or when nothing is stored under the key.
pub open spec fn read_back<T: View>(t: AnswerTable<T>, key: Seq<char>, r: Option<T>) -> bool {
    exists|now: nat| now <= max_duration_nanos() && #[trigger] read_at(t, key, r, now)
}

/// `r` is the answer usable at `now`, as a copy.
pub open spec fn read_at<T: View>(t: AnswerTable<T>, key: Seq<char>, r: Option<T>, now: nat) -> bool {
    match t.answer(key, now) {
        Some(v) => r matches Some(x) && x@ == v@,
        None => r is None,
    }
}

/// The monotonic clock's reading: nanoseconds since `origin`. Nothing but
/// the range of a duration is promised of it.
#[verifier::external_body]
fn clock_nanos(origin: &Instant) -> (r: u128)
    ensures
        r <= max_duration_nanos(),
{
    origin.elapsed().as_nanos()
}

fn copy_texts(v: &Vec<String>) -> (r: Vec<String>)
    ensures
        r@ == v@,
{
    let mut r: Vec<String> = Vec::new();
    let mut i: usize = 0;
    while i < v.len()
        invariant
            i <= v@.len(),
            r@ == v@.take(i as int),
        decreases v@.len() - i,
    {
        r.push(v[i].clone());
        assert(r@ =~= v@.take(i + 1));
        i += 1;
    }
    assert(v@.take(i as int) =~= v@);
    r
}

fn copy_mx(v: &Vec<(u16, String)>) -> (r: Vec<(u16, String)>)
    ensures
        r@ == v@,
{
    let mut r: Vec<(u16, String)> = Vec::new();
    let mut i: usize = 0;
    while i < v.len()
        invariant
            i <= v@.len(),
            r@ == v@.take(i as int),
        decreases v@.len() - i,
    {
        r.push((v[i].0, v[i].1.clone()));
        assert(r@ =~= v@.take(i + 1));
        i += 1;
    }
    assert(v@.take(i as int) =~= v@);
    r
}

/// The answer cache of the resolver pool: addresses, CNAME chains, MX, TXT,
/// NS and PTR records in tables of their own with one time to live and one
/// capacity.
pub struct DnsCache {
    origin: Instant,
    ip: AnswerTable<Vec<IpAddr>>,
    cname: AnswerTable<Vec<String>>,
    mx: AnswerTable<Vec<(u16, String)>>,
    txt: AnswerTable<Vec<String>>,
    ns: AnswerTable<Vec<String>>,
    ptr: AnswerTable<Vec<String>>,
}

impl DnsCache {
    /// Every table is well formed, and all share one time to live and one
    /// capacity.
    pub closed spec fn wf(self) -> bool {
        &&& self.ip.wf() && self.cname.wf() && self.mx.wf()
        &&& self.txt.wf() && self.ns.wf() && self.ptr.wf()
        &&& self.cname.ttl == self.ip.ttl && self.mx.ttl == self.ip.ttl && self.txt.ttl == self.ip.ttl
        &&& self.ns.ttl == self.ip.ttl && self.ptr.ttl == self.ip.ttl
        &&& self.cname.max_entries == self.ip.max_entries && self.mx.max_entries == self.ip.max_entries
        &&& self.txt.max_entries == self.ip.max_entries && self.ns.max_entries == self.ip.max_entries
        &&& self.ptr.max_entries == self.ip.max_entries
    }

    pub closed spec fn ip_table(self) -> AnswerTable<Vec<IpAddr>> {
        self.ip
    }

    pub closed spec fn cname_table(self) -> AnswerTable<Vec<String>> {
        self.cname
    }

    pub closed spec fn mx_table(self) -> AnswerTable<Vec<(u16, String)>> {
        self.mx
    }

    pub closed spec fn txt_table(self) -> AnswerTable<Vec<String>> {
        self.txt
    }

    pub closed spec fn ns_table(self) -> AnswerTable<Vec<String>> {
        self.ns
    }

    pub closed spec fn ptr_table(self) -> AnswerTable<Vec<String>> {
        self.ptr
    }

    /// Every table is empty and has the configured time to live and capacity.
    pub open spec fn empty_with(self, ttl: nat, max_entries: nat) -> bool {
        &&& self.wf()
        &&& self.ip_table().ttl() == ttl && self.ip_table().capacity() == max_entries && self.ip_table().size() == 0
        &&& self.cname_table().ttl() == ttl && self.cname_table().capacity() == max_entries
            && self.cname_table().size() == 0
        &&& self.mx_table().ttl() == ttl && self.mx_table().capacity() == max_entries && self.mx_table().size() == 0
        &&& self.txt_table().ttl() == ttl && self.txt_table().capacity() == max_entries
            && self.txt_table().size() == 0
        &&& self.ns_table().ttl() == ttl && self.ns_table().capacity() == max_entries && self.ns_table().size() == 0
        &&& self.ptr_table().ttl() == ttl && self.ptr_table().capacity() == max_entries
            && self.ptr_table().size() == 0
        &&& forall|k: Seq<char>| #[trigger] self.ip_table().entry(k) is None
        &&& forall|k: Seq<char>| #[trigger] self.cname_table().entry(k) is None
        &&& forall|k: Seq<char>| #[trigger] self.mx_table().entry(k) is None
        &&& forall|k: Seq<char>| #[trigger] self.txt_table().entry(k) is None
        &&& forall|k: Seq<char>| #[trigger] self.ns_table().entry(k) is None
        &&& forall|k: Seq<char>| #[trigger] self.ptr_table().entry(k) is None
    }

    /// An empty cache with the configuration's time to live and capacity.
    pub fn new(config: DnsCacheConfig) -> (c: Self)
        ensures
            c.empty_with(nanos(config.ttl), config.max_entries as nat),
    {
        let ttl = &config.ttl;
        DnsCache {
            origin: crate::dns::model::instant_now(),
            ip: AnswerTable::new(ttl, config.max_entries),
            cname: AnswerTable::new(ttl, config.max_entries),
            mx: AnswerTable::new(ttl, config.max_entries),
            txt: AnswerTable::new(ttl, config.max_entries),
            ns: AnswerTable::new(ttl, config.max_entries),
            ptr: AnswerTable::new(ttl, config.max_entries),
        }
    }

    /// An empty cache with the given time to live and ten thousand entries
    /// per table.
    pub fn with_ttl(ttl: Duration) -> (c: Self)
        ensures
            c.empty_with(nanos(ttl), 10_000),
    {
        DnsCache::new(DnsCacheConfig { ttl, max_entries: 10_000, eviction_interval: None })
    }

    pub fn get_ip(&self, key: &str) -> (r: Option<Vec<IpAddr>>)
        requires
            self.wf(),
        ensures
            read_back(self.ip_table(), key@, r),
    {
        let now = clock_nanos(&self.origin);
        match self.ip.get(key, now) {
            Some(v) => {
                let c = copy_ips(v);
                assert(read_at(self.ip_table(), key@, Some(c), now as nat));
                Some(c)
            },
            None => {
                assert(read_at(self.ip_table(), key@, None, now as nat));
                None
            },
        }
    }

    pub fn set_ip(&mut self, key: &str, value: Vec<IpAddr>)
        requires
            old(self).wf(),
        ensures
            final(self).wf(),
            exists|now: nat| old(self).ip_table().written_to(final(self).ip_table(), key@, value, now),
            final(self).cname_table() == old(self).cname_table() && final(self).mx_table() == old(self).mx_table(),
            final(self).txt_table() == old(self).txt_table() && final(self).ns_table() == old(self).ns_table(),
            final(self).ptr_table() == old(self).ptr_table(),
    {
        let now = clock_nanos(&self.origin);
        let ghost before = *self;
        let ghost v = value;
        self.ip.set(key, value, now);
        assert(before.ip_table().written_to(self.ip_table(), key@, v, now as nat));
    }

    pub fn get_cname(&self, key: &str) -> (r: Option<Vec<String>>)
        requires
            self.wf(),
        ensures
            read_back(self.cname_table(), key@, r),
    {
        let now = clock_nanos(&self.origin);
        match self.cname.get(key, now) {
            Some(v) => {
                let c = copy_texts(v);
                assert(read_at(self.cname_table(), key@, Some(c), now as nat));
                Some(c)
            },
            None => {
                assert(read_at(self.cname_table(), key@, None, now as nat));
                None
            },
        }
    }

    pub fn set_cname(&mut self, key: &str, value: Vec<String>)
        requires
            old(self).wf(),
        ensures
            final(self).wf(),
            exists|now: nat| old(self).cname_table().written_to(final(self).cname_table(), key@, value, now),
            final(self).ip_table() == old(self).ip_table() && final(self).mx_table() == old(self).mx_table(),
            final(self).txt_table() == old(self).txt_table() && final(self).ns_table() == old(self).ns_table(),
            final(self).ptr_table() == old(self).ptr_table(),
    {
        let now = clock_nanos(&self.origin);
        let ghost before = *self;
        let ghost v = value;
        self.cname.set(key, value, now);
        assert(before.cname_table().written_to(self.cname_table(), key@, v, now as nat));
    }

    pub fn get_mx(&self, key: &str) -> (r: Option<Vec<(u16, String)>>)
        requires
            self.wf(),
        ensures
            read_back(self.mx_table(), key@, r),
    {
        let now = clock_nanos(&self.origin);
        match self.mx.get(key, now) {
            Some(v) => {
                let c = copy_mx(v);
                assert(read_at(self.mx_table(), key@, Some(c), now as nat));
                Some(c)
            },
            None => {
                assert(read_at(self.mx_table(), key@, None, now as nat));
                None
            },
        }
    }

    pub fn set_mx(&mut self, key: &str, value: Vec<(u16, String)>)
        requires
            old(self).wf(),
        ensures
            final(self).wf(),
            exists|now: nat| old(self).mx_table().written_to(final(self).mx_table(), key@, value, now),
            final(self).ip_table() == old(self).ip_table() && final(self).cname_table() == old(self).cname_table(),
            final(self).txt_table() == old(self).txt_table() && final(self).ns_table() == old(self).ns_table(),
            final(self).ptr_table() == old(self).ptr_table(),
    {
        let now = clock_nanos(&self.origin);
        let ghost before = *self;
        let ghost v = value;
        self.mx.set(key, value, now);
        assert(before.mx_table().written_to(self.mx_table(), key@, v, now as nat));
    }

    pub fn get_txt(&self, key: &str) -> (r: Option<Vec<String>>)
        requires
            self.wf(),
        ensures
            read_back(self.txt_table(), key@, r),
    {
        let now = clock_nanos(&self.origin);
        match self.txt.get(key, now) {
            Some(v) => {
                let c = copy_texts(v);
                assert(read_at(self.txt_table(), key@, Some(c), now as nat));
                Some(c)
            },
            None => {
                assert(read_at(self.txt_table(), key@, None, now as nat));
                None
            },
        }
    }

    pub fn set_txt(&mut self, key: &str, value: Vec<String>)
        requires
            old(self).wf(),
        ensures
            final(self).wf(),
            exists|now: nat| old(self).txt_table().written_to(final(self).txt_table(), key@, value, now),
            final(self).ip_table() == old(self).ip_table() && final(self).cname_table() == old(self).cname_table(),
            final(self).mx_table() == old(self).mx_table() && final(self).ns_table() == old(self).ns_table(),
            final(self).ptr_table() == old(self).ptr_table(),
    {
        let now = clock_nanos(&self.origin);
        let ghost before = *self;
        let ghost v = value;
        self.txt.set(key, value, now);
        assert(before.txt_table().written_to(self.txt_table(), key@, v, now as nat));
    }

    pub fn get_ns(&self, key: &str) -> (r: Option<Vec<String>>)
        requires
            self.wf(),
        ensures
            read_back(self.ns_table(), key@, r),
    {
        let now = clock_nanos(&self.origin);
        match self.ns.get(key, now) {
            Some(v) => {
                let c = copy_texts(v);
                assert(read_at(self.ns_table(), key@, Some(c), now as nat));
                Some(c)
            },
            None => {
                assert(read_at(self.ns_table(), key@, None, now as nat));
                None
            },
        }
    }

    pub fn set_ns(&mut self, key: &str, value: Vec<String>)
        requires
            old(self).wf(),
        ensures
            final(self).wf(),
            exists|now: nat| old(self).ns_table().written_to(final(self).ns_table(), key@, value, now),
            final(self).ip_table() == old(self).ip_table() && final(self).cname_table() == old(self).cname_table(),
            final(self).mx_table() == old(self).mx_table() && final(self).txt_table() == old(self).txt_table(),
            final(self).ptr_table() == old(self).ptr_table(),
    {
        let now = clock_nanos(&self.origin);
        let ghost before = *self;
        let ghost v = value;
        self.ns.set(key, value, now);
        assert(before.ns_table().written_to(self.ns_table(), key@, v, now as nat));
    }

    pub fn get_ptr(&self, key: &str) -> (r: Option<Vec<String>>)
        requires
            self.wf(),
        ensures
            read_back(self.ptr_table(), key@, r),
    {
        let now = clock_nanos(&self.origin);
        match self.ptr.get(key, now) {
            Some(v) => {
                let c = copy_texts(v);
                assert(read_at(self.ptr_table(), key@, Some(c), now as nat));
                Some(c)
            },
            None => {
                assert(read_at(self.ptr_table(), key@, None, now as nat));
                None
            },
        }
    }

    pub fn set_ptr(&mut self, key: &str, value: Vec<String>)
        requires
            old(self).wf(),
        ensures
            final(self).wf(),
            exists|now: nat| old(self).ptr_table().written_to(final(self).ptr_table(), key@, value, now),
            final(self).ip_table() == old(self).ip_table() && final(self).cname_table() == old(self).cname_table(),
            final(self).mx_table() == old(self).mx_table() && final(self).txt_table() == old(self).txt_table(),
            final(self).ns_table() == old(self).ns_table(),
    {
        let now = clock_nanos(&self.origin);
        let ghost before = *self;
        let ghost v = value;
        self.ptr.set(key, value, now);
        assert(before.ptr_table().written_to(self.ptr_table(), key@, v, now as nat));
    }

    /// Removes every answer of every table.
    pub fn clear(&mut self)
        requires
            old(self).wf(),
        ensures
            final(self).empty_with(old(self).ip_table().ttl(), old(self).ip_table().capacity()),
    {
        self.ip.clear();
        self.cname.clear();
        self.mx.clear();
        self.txt.clear();
        self.ns.clear();
        self.ptr.clear();
    }

    /// The number of stored answers over all tables (expired ones
    /// included), at most `usize::MAX`.
    pub fn len(&self) -> (r: usize)
        ensures
            r == vstd::math::min(
                (self.ip_table().size() + self.cname_table().size() + self.mx_table().size()
                    + self.txt_table().size() + self.ns_table().size() + self.ptr_table().size()) as int,
                usize::MAX as int,
            ),
    {
        let n = self.ip.len().saturating_add(self.cname.len());
        let n = n.saturating_add(self.mx.len());
        let n = n.saturating_add(self.txt.len());
        let n = n.saturating_add(self.ns.len());
        n.saturating_add(self.ptr.len())
    }

    /// No answer is stored.
    pub fn is_empty(&self) -> (r: bool)
        ensures
            r == (self.ip_table().size() + self.cname_table().size() + self.mx_table().size()
                + self.txt_table().size() + self.ns_table().size() + self.ptr_table().size() == 0),
    {
        self.len() == 0
    }

    /// Sweeps the expired answers out of every table, each at a reading of
    /// the clock.
    pub fn evict_all_expired(&mut self)
        requires
            old(self).wf(),
        ensures
            final(self).wf(),
            exists|now: nat| old(self).ip_table().swept_to(final(self).ip_table(), now),
            exists|now: nat| old(self).cname_table().swept_to(final(self).cname_table(), now),
            exists|now: nat| old(self).mx_table().swept_to(final(self).mx_table(), now),
            exists|now: nat| old(self).txt_table().swept_to(final(self).txt_table(), now),
            exists|now: nat| old(self).ns_table().swept_to(final(self).ns_table(), now),
            exists|now: nat| old(self).ptr_table().swept_to(final(self).ptr_table(), now),
    {
        let ghost start = *self;
        let now = clock_nanos(&self.origin);
        let ghost n_ip = now as nat;
        self.ip.evict_expired(now);
        let now = clock_nanos(&self.origin);
        let ghost n_cname = now as nat;
        self.cname.evict_expired(now);
        let now = clock_nanos(&self.origin);
        let ghost n_mx = now as nat;
        self.mx.evict_expired(now);
        let now = clock_nanos(&self.origin);
        let ghost n_txt = now as nat;
        self.txt.evict_expired(now);
        let now = clock_nanos(&self.origin);
        let ghost n_ns = now as nat;
        self.ns.evict_expired(now);
        let now = clock_nanos(&self.origin);
        let ghost n_ptr = now as nat;
        self.ptr.evict_expired(now);
        proof {
            assert(start.ip_table().swept_to(self.ip_table(), n_ip));
            assert(start.cname_table().swept_to(self.cname_table(), n_cname));
            assert(start.mx_table().swept_to(self.mx_table(), n_mx));
            assert(start.txt_table().swept_to(self.txt_table(), n_txt));
            assert(start.ns_table().swept_to(self.ns_table(), n_ns));
            assert(start.ptr_table().swept_to(self.ptr_table(), n_ptr));
        }
    }
}

} // verus!
