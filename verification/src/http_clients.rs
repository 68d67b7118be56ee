//! The pool of HTTP clients kept between probes: one client per scheme,
//! address, host name and port, and the whole pool emptied when it is full.

use vstd::prelude::*;

use crate::http::HttpScheme;
use crate::keyed::{distinct_keys, lemma_lookup_absent, lemma_lookup_at, lemma_lookup_push, lemma_lookup_update, lookup};
use crate::net::IpAddr;
use crate::text::copy_str;

verus! {

/// What a client is kept for.
#[derive(Debug)]
pub struct HttpClientKey {
    pub ip: IpAddr,
    pub hostname: String,
    pub scheme: HttpScheme,
    pub port: u16,
}

impl View for HttpClientKey {
    type V = (IpAddr, Seq<char>, HttpScheme, u16);

    open spec fn view(&self) -> (IpAddr, Seq<char>, HttpScheme, u16) {
        (self.ip, self.hostname@, self.scheme, self.port)
    }
}

impl HttpClientKey {
    pub fn new(ip: IpAddr, hostname: &str, scheme: HttpScheme, port: u16) -> (k: Self)
        ensures
            k@ == (ip, hostname@, scheme, port),
    {
        HttpClientKey { ip, hostname: copy_str(hostname), scheme, port }
    }

    /// The two keys name the same target.
    pub fn same(&self, other: &HttpClientKey) -> (r: bool)
        ensures
            r == (self@ == other@),
    {
        self.ip.equals(&other.ip) && self.hostname == other.hostname && self.scheme == other.scheme && self.port
            == other.port
    }
}

/// Clients by target.
pub struct ClientPool<C> {
    entries: Vec<(HttpClientKey, C)>,
}

impl<C> ClientPool<C> {
    /// Each target at most once.
    pub closed spec fn wf(self) -> bool {
        distinct_keys(self.entries@)
    }

    /// The client kept for the target.
    pub closed spec fn client(self, key: (IpAddr, Seq<char>, HttpScheme, u16)) -> Option<C> {
        lookup(self.entries@, key)
    }

    /// The number of clients kept.
    pub closed spec fn size(self) -> nat {
        self.entries@.len()
    }

    /// An empty pool.
    pub fn new() -> (p: Self)
        ensures
            p.wf(),
            p.size() == 0,
            forall|k: (IpAddr, Seq<char>, HttpScheme, u16)| #[trigger] p.client(k) is None,
    {
        ClientPool { entries: Vec::new() }
    }

    /// The number of clients kept.
    pub fn len(&self) -> (r: usize)
        ensures
            r == self.size(),
    {
        self.entries.len()
    }

    /// The client kept for the target.
    pub fn get(&self, key: &HttpClientKey) -> (r: Option<&C>)
        requires
            self.wf(),
        ensures
            match r {
                Some(c) => self.client(key@) == Some(*c),
                None => self.client(key@) is None,
            },
    {
        let mut i: usize = 0;
        while i < self.entries.len()
            invariant
                self.wf(),
                i <= self.entries@.len(),
                forall|j: int| 0 <= j < i ==> (#[trigger] self.entries@[j]).0@ != key@,
            decreases self.entries@.len() - i,
        {
            if self.entries[i].0.same(key) {
                proof {
                    lemma_lookup_at(self.entries@, key@, i as int);
                }
                return Some(&self.entries[i].1);
            }
            i += 1;
        }
        proof {
            lemma_lookup_absent(self.entries@, key@);
        }
        None
    }

    /// Keeps the client for the target. A pool that already holds `max`
    /// clients is emptied first, so a pool never holds more than `max`
    /// (when `max` is at least one).
    pub fn insert(&mut self, key: HttpClientKey, client: C, max: usize)
        requires
            old(self).wf(),
        ensures
            final(self).wf(),
            final(self).client(key@) == Some(client),
            old(self).size() >= max ==> final(self).size() == 1 && forall|k: (IpAddr, Seq<char>, HttpScheme, u16)|
                k != key@ ==> #[trigger] final(self).client(k) is None,
            old(self).size() < max ==> final(self).size() == old(self).size() + if old(self).client(key@) is Some {
                0nat
            } else {
                1nat
            } && forall|k: (IpAddr, Seq<char>, HttpScheme, u16)|
                k != key@ ==> #[trigger] final(self).client(k) == old(self).client(k),
            1 <= max && old(self).size() <= max ==> final(self).size() <= max,
    {
        if self.entries.len() >= max {
            self.entries.clear();
        }
        let ghost base = self.entries@;
        let mut i: usize = 0;
        while i < self.entries.len()
            invariant
                self.entries@ == base,
                distinct_keys(base),
                old(self).size() >= max ==> base.len() == 0,
                old(self).size() < max ==> base == old(self).entries@,
                i <= base.len(),
                forall|j: int| 0 <= j < i ==> (#[trigger] base[j]).0@ != key@,
            decreases base.len() - i,
        {
            if self.entries[i].0.same(&key) {
                let pair = (key, client);
                proof {
                    assert forall|k: (IpAddr, Seq<char>, HttpScheme, u16)| #![trigger lookup(base.update(i as int, pair), k)]
                        lookup(base.update(i as int, pair), k) == if k == pair.0@ {
                            Some(pair.1)
                        } else {
                            lookup(base, k)
                        } by {
                        lemma_lookup_update(base, i as int, pair, k);
                    }
                    lemma_lookup_update(base, i as int, pair, pair.0@);
                    lemma_lookup_at(base, pair.0@, i as int);
                }
                self.entries.set(i, pair);
                return;
            }
            i += 1;
        }
        proof {
            lemma_lookup_absent(base, key@);
        }
        let ghost e = (key, client);
        proof {
            assert forall|k: (IpAddr, Seq<char>, HttpScheme, u16)| #![trigger lookup(base.push(e), k)]
                lookup(base.push(e), k) == if k == e.0@ {
                    Some(e.1)
                } else {
                    lookup(base, k)
                } by {
                lemma_lookup_push(base, e, k);
            }
            lemma_lookup_push(base, e, e.0@);
        }
        self.entries.push((key, client));
    }
}

} // verus!
