//! Resolvers taken out of service: bans that last until a clock reading,
//! and the list of resolvers that a detection skips.
//!
//! Time is a reading of a monotonic clock in nanoseconds from an origin,
//! taken by the caller.

use vstd::prelude::*;

use std::time::Duration;

use crate::keyed::{distinct_keys, lemma_lookup_absent, lemma_lookup_at, lemma_lookup_update, lookup};
use crate::dns::model::ResolverHealth;
use crate::text::{copy_str, texts};
use crate::time::{duration_nanos, nanos};

verus! {

/// The names in `s` whose ban lasts past `now`, in the order stored.
pub open spec fn active_names(s: Seq<(String, u128)>, now: nat) -> Seq<Seq<char>>
    decreases s.len(),
{
    if s.len() == 0 {
        Seq::empty()
    } else {
        let rest = active_names(s.drop_last(), now);
        if now < s.last().1 {
            rest.push(s.last().0@)
        } else {
            rest
        }
    }
}

/// The names of the resolvers in `s` that are not healthy, in order.
pub open spec fn unhealthy_names_of(s: Seq<(String, ResolverHealth)>) -> Seq<Seq<char>>
    decreases s.len(),
{
    if s.len() == 0 {
        Seq::empty()
    } else {
        let rest = unhealthy_names_of(s.drop_last());
        if s.last().1.spec_is_healthy() {
            rest
        } else {
            rest.push(s.last().0@)
        }
    }
}

/// A name occurs in the active list exactly when its stored ban lasts past
/// `now`, and it occurs there once.
proof fn lemma_active_names(s: Seq<(String, u128)>, now: nat)
    requires
        distinct_keys(s),
    ensures
        forall|n: Seq<char>|
            #![trigger active_names(s, now).contains(n)]
            active_names(s, now).contains(n) <==> (lookup(s, n) matches Some(u) && now < u),
        forall|i: int, j: int|
            0 <= i < j < active_names(s, now).len() ==> active_names(s, now)[i] != active_names(s, now)[j],
    decreases s.len(),
{
    if s.len() > 0 {
        let t = s.drop_last();
        assert(distinct_keys(t)) by {
            assert forall|i: int, j: int| 0 <= i < j < t.len() implies (#[trigger] t[i]).0@ != (#[trigger] t[j]).0@ by {
                assert(t[i] == s[i] && t[j] == s[j]);
            }
        }
        lemma_active_names(t, now);
        let last = s.last();
        assert forall|i: int| 0 <= i < t.len() implies (#[trigger] t[i]).0@ != last.0@ by {
            assert(t[i] == s[i]);
            assert(s[i].0@ != s[s.len() - 1].0@);
        }
        lemma_lookup_absent(t, last.0@);
        let rest = active_names(t, now);
        if now < last.1 {
            assert(active_names(s, now) == rest.push(last.0@));
            assert(!rest.contains(last.0@));
            assert forall|i: int, j: int| 0 <= i < j < active_names(s, now).len() implies active_names(s, now)[i] != active_names(s, now)[j] by {
                if j == rest.len() {
                    assert(rest[i] == active_names(s, now)[i]);
                } else {
                    assert(rest[i] != rest[j]);
                }
            }
            assert forall|n: Seq<char>| #![trigger active_names(s, now).contains(n)]
                active_names(s, now).contains(n) <==> (lookup(s, n) matches Some(u) && now < u) by {
                if n == last.0@ {
                    assert(active_names(s, now)[rest.len() as int] == n);
                } else {
                    if active_names(s, now).contains(n) {
                        let k = choose|k: int| 0 <= k < active_names(s, now).len() && active_names(s, now)[k] == n;
                        assert(k < rest.len());
                        assert(rest[k] == n);
                    }
                    if rest.contains(n) {
                        let k = choose|k: int| 0 <= k < rest.len() && rest[k] == n;
                        assert(active_names(s, now)[k] == n);
                    }
                }
            }
        } else {
            assert forall|n: Seq<char>| #![trigger active_names(s, now).contains(n)]
                active_names(s, now).contains(n) <==> (lookup(s, n) matches Some(u) && now < u) by {
                if n == last.0@ {
                    assert(!rest.contains(n));
                }
            }
        }
    }
}

/// Resolvers banned until a clock reading.
pub struct ResolverBans {
    entries: Vec<(String, u128)>,
}

impl ResolverBans {
    /// Each resolver at most once.
    pub closed spec fn wf(self) -> bool {
        distinct_keys(self.entries@)
    }

    /// The clock reading until which the resolver is banned, if it was
    /// banned and not lifted since.
    pub closed spec fn until(self, name: Seq<char>) -> Option<u128> {
        lookup(self.entries@, name)
    }

    /// The resolvers banned at `now`, in the order in which they were
    /// first banned.
    pub closed spec fn banned_at(self, now: nat) -> Seq<Seq<char>> {
        active_names(self.entries@, now)
    }

    /// The resolver's ban lasts past `now`.
    pub open spec fn is_banned_at(self, name: Seq<char>, now: nat) -> bool {
        match self.until(name) {
            Some(u) => now < u,
            None => false,
        }
    }

    /// The list of banned resolvers holds exactly those banned at `now`,
    /// each once.
    pub proof fn law_banned_list_matches_bans(self, now: nat)
        requires
            self.wf(),
        ensures
            forall|n: Seq<char>| #[trigger] self.banned_at(now).contains(n) <==> self.is_banned_at(n, now),
            forall|i: int, j: int| 0 <= i < j < self.banned_at(now).len() ==> self.banned_at(now)[i] != self.banned_at(now)[j],
    {
        lemma_active_names(self.entries@, now);
    }

    /// No resolver banned.
    pub fn new() -> (r: Self)
        ensures
            r.wf(),
            forall|n: Seq<char>| #[trigger] r.until(n) is None,
    {
        ResolverBans { entries: Vec::new() }
    }

    /// Bans the resolver until `now` plus `duration`, replacing an earlier
    /// ban of it.
    pub fn ban(&mut self, name: &str, now: u128, duration: &Duration)
        requires
            old(self).wf(),
            now + nanos(*duration) <= u128::MAX,
        ensures
            final(self).wf(),
            final(self).until(name@) == Some((now + nanos(*duration)) as u128),
            forall|n: Seq<char>| n != name@ ==> #[trigger] final(self).until(n) == old(self).until(n),
    {
        let until: u128 = now + duration_nanos(duration);
        let key = copy_str(name);
        let mut i: usize = 0;
        while i < self.entries.len()
            invariant
                self.wf(),
                *self == *old(self),
                key@ == name@,
                until == now + nanos(*duration),
                i <= self.entries@.len(),
                forall|j: int| 0 <= j < i ==> (#[trigger] self.entries@[j]).0@ != name@,
            decreases self.entries@.len() - i,
        {
            if self.entries[i].0 == key {
                let ghost before = self.entries@;
                let pair = (key, until);
                proof {
                    assert forall|n: Seq<char>| n != name@ implies #[trigger] lookup(before.update(i as int, pair), n) == lookup(before, n) by {
                        lemma_lookup_update(before, i as int, pair, n);
                    }
                    lemma_lookup_update(before, i as int, pair, name@);
                }
                self.entries.set(i, pair);
                return;
            }
            i += 1;
        }
        let ghost before = self.entries@;
        proof {
            lemma_lookup_absent(before, name@);
        }
        self.entries.push((key, until));
        proof {
            let after = self.entries@;
            assert(after.drop_last() =~= before);
            assert(distinct_keys(after)) by {
                assert forall|a: int, b: int| 0 <= a < b < after.len() implies (#[trigger] after[a]).0@ != (#[trigger] after[b]).0@ by {
                    if b < before.len() {
                        assert(before[a].0@ != before[b].0@);
                    } else {
                        assert(after[a] == before[a]);
                    }
                }
            }
        }
    }

    /// Lifts the resolver's ban, if it has one.
    pub fn unban(&mut self, name: &str)
        requires
            old(self).wf(),
        ensures
            final(self).wf(),
            final(self).until(name@) is None,
            forall|n: Seq<char>| n != name@ ==> #[trigger] final(self).until(n) == old(self).until(n),
    {
        let key = copy_str(name);
        let mut i: usize = 0;
        while i < self.entries.len()
            invariant
                self.wf(),
                *self == *old(self),
                key@ == name@,
                i <= self.entries@.len(),
                forall|j: int| 0 <= j < i ==> (#[trigger] self.entries@[j]).0@ != name@,
            decreases self.entries@.len() - i,
        {
            if self.entries[i].0 == key {
                let ghost before = self.entries@;
                self.entries.remove(i);
                proof {
                    let after = self.entries@;
                    assert(after =~= before.remove(i as int));
                    assert forall|a: int| 0 <= a < after.len() implies #[trigger] after[a] == before[if a < i { a } else { a + 1 }] by {}
                    assert(distinct_keys(after)) by {
                        assert forall|a: int, b: int| 0 <= a < b < after.len() implies (#[trigger] after[a]).0@ != (#[trigger] after[b]).0@ by {
                            let a2 = if a < i { a } else { a + 1 };
                            let b2 = if b < i { b } else { b + 1 };
                            assert(before[a2].0@ != before[b2].0@);
                        }
                    }
                    assert forall|a: int| 0 <= a < after.len() implies (#[trigger] after[a]).0@ != name@ by {
                        let a2 = if a < i { a } else { a + 1 };
                        assert(before[a2].0@ != before[i as int].0@);
                    }
                    lemma_lookup_absent(after, name@);
                    assert forall|n: Seq<char>| n != name@ implies #[trigger] lookup(after, n) == lookup(before, n) by {
                        if exists|j: int| 0 <= j < before.len() && (#[trigger] before[j]).0@ == n {
                            let j = choose|j: int| 0 <= j < before.len() && (#[trigger] before[j]).0@ == n;
                            lemma_lookup_at(before, n, j);
                            assert(j != i);
                            let j2 = if j < i { j } else { j - 1 };
                            assert(after[j2] == before[j]);
                            lemma_lookup_at(after, n, j2);
                        } else {
                            lemma_lookup_absent(before, n);
                            assert forall|a: int| 0 <= a < after.len() implies (#[trigger] after[a]).0@ != n by {
                                let a2 = if a < i { a } else { a + 1 };
                                assert(before[a2].0@ != n);
                            }
                            lemma_lookup_absent(after, n);
                        }
                    }
                }
                return;
            }
            i += 1;
        }
        proof {
            lemma_lookup_absent(self.entries@, name@);
        }
    }

    /// Whether the resolver's ban lasts past `now`.
    pub fn is_banned(&self, name: &str, now: u128) -> (r: bool)
        requires
            self.wf(),
        ensures
            r == self.is_banned_at(name@, now as nat),
    {
        let key = copy_str(name);
        let mut i: usize = 0;
        while i < self.entries.len()
            invariant
                self.wf(),
                key@ == name@,
                i <= self.entries@.len(),
                forall|j: int| 0 <= j < i ==> (#[trigger] self.entries@[j]).0@ != name@,
            decreases self.entries@.len() - i,
        {
            if self.entries[i].0 == key {
                proof {
                    lemma_lookup_at(self.entries@, name@, i as int);
                }
                return now < self.entries[i].1;
            }
            i += 1;
        }
        proof {
            lemma_lookup_absent(self.entries@, name@);
        }
        false
    }

    /// The resolvers whose ban lasts past `now`.
    pub fn banned_names(&self, now: u128) -> (r: Vec<String>)
        ensures
            texts(r@) == self.banned_at(now as nat),
    {
        let mut r: Vec<String> = Vec::new();
        let mut i: usize = 0;
        while i < self.entries.len()
            invariant
                i <= self.entries@.len(),
                texts(r@) == active_names(self.entries@.take(i as int), now as nat),
            decreases self.entries@.len() - i,
        {
            let ghost before = r@;
            proof {
                assert(self.entries@.take(i as int + 1).drop_last() =~= self.entries@.take(i as int));
            }
            if now < self.entries[i].1 {
                r.push(copy_str(self.entries[i].0.as_str()));
                proof {
                    assert(texts(r@) =~= texts(before).push(self.entries@[i as int].0@));
                }
            }
            i += 1;
        }
        proof {
            assert(self.entries@.take(self.entries@.len() as int) =~= self.entries@);
        }
        r
    }
}

/// The resolvers that a detection skips: those whose health record is not
/// healthy, in the order given, followed by those banned at `now`.
pub fn unhealthy_resolver_names(health: &Vec<(String, ResolverHealth)>, bans: &ResolverBans, now: u128) -> (r: Vec<
    String,
>)
    ensures
        texts(r@) == unhealthy_names_of(health@) + bans.banned_at(now as nat),
{
    let mut r: Vec<String> = Vec::new();
    let mut i: usize = 0;
    while i < health.len()
        invariant
            i <= health@.len(),
            texts(r@) == unhealthy_names_of(health@.take(i as int)),
        decreases health@.len() - i,
    {
        let ghost before = r@;
        proof {
            assert(health@.take(i as int + 1).drop_last() =~= health@.take(i as int));
        }
        if !health[i].1.is_healthy() {
            r.push(copy_str(health[i].0.as_str()));
            proof {
                assert(texts(r@) =~= texts(before).push(health@[i as int].0@));
            }
        }
        i += 1;
    }
    proof {
        assert(health@.take(health@.len() as int) =~= health@);
    }
    let mut banned = bans.banned_names(now);
    let ghost first = r@;
    let ghost tail = banned@;
    r.append(&mut banned);
    proof {
        assert(texts(r@) =~= texts(first) + texts(tail));
    }
    r
}

} // verus!
