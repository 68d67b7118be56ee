//! The decisions of one resolver's lookups: which answers to keep, how a
//! CNAME chain grows, what name the address lookup asks for, how the
//! per-resolver answers merge, and when a failing resolver is banned.

use vstd::prelude::*;

use std::time::Duration;

use crate::dns::model::{ResolverHealth, ResolverObservation};
use crate::time::max_duration_nanos;
use crate::hostname::stripped;
use crate::net::{IpAddr, Ipv4Addr};
use crate::text::{
    chars_of, contains_exec, contains_seq, copy_str, ends_with, lower, lower_exec, string_of, string_push,
    texts, trim, trim_end_char, trim_end_char_exec, trim_exec,
};
use crate::time::nanos;

verus! {

/// The name as the detector reports it: trimmed and without trailing dots,
/// or the name unchanged when nothing is left.
pub open spec fn query_name(hostname: Seq<char>) -> Seq<char> {
    let t = trim_end_char(trim(hostname), '.');
    if t.len() == 0 {
        hostname
    } else {
        t
    }
}

pub fn normalize_query_name(hostname: &str) -> (r: String)
    ensures
        r@ == query_name(hostname@),
{
    let cs = chars_of(hostname);
    let t = trim_exec(cs.as_slice());
    let u = trim_end_char_exec(t.as_slice(), '.');
    if u.len() == 0 {
        copy_str(hostname)
    } else {
        string_of(u.as_slice())
    }
}

/// The domains under which Cloudflare hosts CNAME targets.
pub open spec fn cloudflare_cname_domains() -> Seq<Seq<char>> {
    seq!["cloudflare.net"@, "cloudflare.com"@, "cfargoson.com"@, "cfargoson.link"@, "cflare.co"@]
}

/// The lowercased name contains one of Cloudflare's CNAME domains.
pub open spec fn cloudflare_cname(cname: Seq<char>) -> bool {
    exists|i: int|
        0 <= i < cloudflare_cname_domains().len() && contains_seq(
            lower(cname),
            #[trigger] cloudflare_cname_domains()[i],
        )
}

pub fn is_cloudflare_cname(cname: &str) -> (r: bool)
    ensures
        r == cloudflare_cname(cname@),
{
    let cs = chars_of(cname);
    let lowered = lower_exec(cs.as_slice());
    let domains: [&str; 5] = ["cloudflare.net", "cloudflare.com", "cfargoson.com", "cfargoson.link", "cflare.co"];
    let mut i: usize = 0;
    while i < 5
        invariant
            i <= 5,
            lowered@ == lower(cname@),
            domains@ == seq!["cloudflare.net", "cloudflare.com", "cfargoson.com", "cfargoson.link", "cflare.co"],
            forall|k: int| 0 <= k < i ==> !contains_seq(lower(cname@), #[trigger] cloudflare_cname_domains()[k]),
        decreases 5 - i,
    {
        let d = chars_of(domains[i]);
        assert(d@ == cloudflare_cname_domains()[i as int]);
        if contains_exec(lowered.as_slice(), d.as_slice()) {
            return true;
        }
        i += 1;
    }
    false
}

/// An answer worth keeping: not private, loopback, link-local, broadcast,
/// multicast, unspecified or shared (100.64/10) for IPv4; not loopback,
/// multicast, unspecified, unique-local or link-local for IPv6.
pub open spec fn public_answer(ip: IpAddr) -> bool {
    match ip {
        IpAddr::V4(v) => !v.spec_is_private() && !v.spec_is_loopback() && !v.spec_is_link_local()
            && !v.spec_is_broadcast() && !v.spec_is_multicast() && !v.spec_is_unspecified() && !(v.a
            == 100 && 64 <= v.b <= 127),
        IpAddr::V6(v) => !v.spec_is_loopback() && !v.spec_is_multicast() && !v.spec_is_unspecified()
            && !v.spec_is_unique_local() && !v.spec_is_unicast_link_local(),
    }
}

fn is_public_answer(ip: &IpAddr) -> (r: bool)
    ensures
        r == public_answer(*ip),
{
    match ip {
        IpAddr::V4(v) => !v.is_private() && !v.is_loopback() && !v.is_link_local() && !v.is_broadcast()
            && !v.is_multicast() && !v.is_unspecified() && !(v.a == 100 && 64 <= v.b && v.b <= 127),
        IpAddr::V6(v) => !v.is_loopback() && !v.is_multicast() && !v.is_unspecified()
            && !v.is_unique_local() && !v.is_unicast_link_local(),
    }
}

/// The public answers, in order.
pub fn filter_private_ips(ips: &[IpAddr]) -> (r: Vec<IpAddr>)
    ensures
        r@ == ips@.filter(|ip: IpAddr| public_answer(ip)),
{
    let mut r: Vec<IpAddr> = Vec::new();
    let mut i: usize = 0;
    proof {
        reveal_with_fuel(Seq::filter, 1);
    }
    while i < ips.len()
        invariant
            i <= ips@.len(),
            r@ == ips@.take(i as int).filter(|ip: IpAddr| public_answer(ip)),
        decreases ips@.len() - i,
    {
        proof {
            assert(ips@.take(i + 1).drop_last() =~= ips@.take(i as int));
            reveal_with_fuel(Seq::filter, 1);
        }
        if is_public_answer(&ips[i]) {
            r.push(ips[i]);
        }
        i += 1;
    }
    assert(ips@.take(i as int) =~= ips@);
    r
}

/// The texts of `new` appended to `seen`, each only when it is not there
/// yet (first occurrence kept, order kept).
pub open spec fn append_unique(seen: Seq<Seq<char>>, new: Seq<Seq<char>>) -> Seq<Seq<char>>
    decreases new.len(),
{
    if new.len() == 0 {
        seen
    } else if seen.contains(new[0]) {
        append_unique(seen, new.drop_first())
    } else {
        append_unique(seen.push(new[0]), new.drop_first())
    }
}

fn contains_text(v: &Vec<String>, s: &String) -> (r: bool)
    ensures
        r == texts(v@).contains(s@),
{
    let mut i: usize = 0;
    while i < v.len()
        invariant
            i <= v@.len(),
            forall|k: int| 0 <= k < i ==> (#[trigger] texts(v@)[k]) != s@,
        decreases v@.len() - i,
    {
        if v[i] == *s {
            assert(texts(v@)[i as int] == s@);
            return true;
        }
        i += 1;
    }
    false
}

/// Appends the texts not seen yet, in order.
pub fn merge_unique(all: &mut Vec<String>, new: &Vec<String>)
    ensures
        texts(final(all)@) == append_unique(texts(old(all)@), texts(new@)),
{
    let ghost goal = append_unique(texts(all@), texts(new@));
    let mut i: usize = 0;
    assert(texts(new@).skip(0) =~= texts(new@));
    while i < new.len()
        invariant
            i <= new@.len(),
            goal == append_unique(texts(all@), texts(new@).skip(i as int)),
        decreases new@.len() - i,
    {
        let ghost before = texts(all@);
        assert(texts(new@).skip(i as int).drop_first() =~= texts(new@).skip(i + 1));
        assert(texts(new@).skip(i as int)[0] == new@[i as int]@);
        if !contains_text(all, &new[i]) {
            all.push(new[i].clone());
            assert(texts(all@) =~= before.push(new@[i as int]@));
        }
        i += 1;
    }
    assert(texts(new@).skip(i as int) =~= Seq::<Seq<char>>::empty());
}

/// A mail exchanger entry taken as plain values.
pub open spec fn mx_view(m: (u16, String)) -> (u16, Seq<char>) {
    (m.0, m.1@)
}

pub open spec fn mx_views(v: Seq<(u16, String)>) -> Seq<(u16, Seq<char>)> {
    v.map_values(|m: (u16, String)| mx_view(m))
}

/// `append_unique` for mail exchanger entries.
pub open spec fn append_unique_mx(seen: Seq<(u16, Seq<char>)>, new: Seq<(u16, Seq<char>)>) -> Seq<(u16, Seq<char>)>
    decreases new.len(),
{
    if new.len() == 0 {
        seen
    } else if seen.contains(new[0]) {
        append_unique_mx(seen, new.drop_first())
    } else {
        append_unique_mx(seen.push(new[0]), new.drop_first())
    }
}

fn contains_mx(v: &Vec<(u16, String)>, m: &(u16, String)) -> (r: bool)
    ensures
        r == mx_views(v@).contains(mx_view(*m)),
{
    let mut i: usize = 0;
    while i < v.len()
        invariant
            i <= v@.len(),
            forall|k: int| 0 <= k < i ==> (#[trigger] mx_views(v@)[k]) != mx_view(*m),
        decreases v@.len() - i,
    {
        if v[i].0 == m.0 && v[i].1 == m.1 {
            assert(mx_views(v@)[i as int] == mx_view(*m));
            return true;
        }
        i += 1;
    }
    false
}

/// Appends the mail exchanger entries not seen yet, in order.
pub fn merge_unique_mx(all: &mut Vec<(u16, String)>, new: &Vec<(u16, String)>)
    ensures
        mx_views(final(all)@) == append_unique_mx(mx_views(old(all)@), mx_views(new@)),
{
    let ghost goal = append_unique_mx(mx_views(all@), mx_views(new@));
    let mut i: usize = 0;
    assert(mx_views(new@).skip(0) =~= mx_views(new@));
    while i < new.len()
        invariant
            i <= new@.len(),
            goal == append_unique_mx(mx_views(all@), mx_views(new@).skip(i as int)),
        decreases new@.len() - i,
    {
        let ghost before = mx_views(all@);
        assert(mx_views(new@).skip(i as int).drop_first() =~= mx_views(new@).skip(i + 1));
        assert(mx_views(new@).skip(i as int)[0] == mx_view(new@[i as int]));
        if !contains_mx(all, &new[i]) {
            let entry = (new[i].0, new[i].1.clone());
            all.push(entry);
            assert(mx_views(all@) =~= before.push(mx_view(new@[i as int])));
        }
        i += 1;
    }
    assert(mx_views(new@).skip(i as int) =~= Seq::<(u16, Seq<char>)>::empty());
}

/// `append_unique` for addresses.
pub open spec fn append_unique_ips(seen: Seq<IpAddr>, new: Seq<IpAddr>) -> Seq<IpAddr>
    decreases new.len(),
{
    if new.len() == 0 {
        seen
    } else if seen.contains(new[0]) {
        append_unique_ips(seen, new.drop_first())
    } else {
        append_unique_ips(seen.push(new[0]), new.drop_first())
    }
}

/// Appends the addresses not seen yet, in order.
pub fn merge_unique_ips(all: &mut Vec<IpAddr>, new: &Vec<IpAddr>)
    ensures
        final(all)@ == append_unique_ips(old(all)@, new@),
{
    let ghost goal = append_unique_ips(all@, new@);
    let mut i: usize = 0;
    assert(new@.skip(0) =~= new@);
    while i < new.len()
        invariant
            i <= new@.len(),
            goal == append_unique_ips(all@, new@.skip(i as int)),
        decreases new@.len() - i,
    {
        let ghost before = all@;
        assert(new@.skip(i as int).drop_first() =~= new@.skip(i + 1));
        assert(new@.skip(i as int)[0] == new@[i as int]);
        if !crate::dns::model::contains_ip(all, &new[i]) {
            all.push(new[i]);
        }
        i += 1;
    }
    assert(new@.skip(i as int) =~= Seq::<IpAddr>::empty());
}

/// How many more CNAME lookups a walk may make: the depth limit less the
/// names already known, and none when nothing is known or the limit is 0.
pub open spec fn walk_budget(initial_len: nat, max_depth: nat) -> nat {
    if initial_len == 0 || max_depth == 0 || max_depth <= initial_len {
        0
    } else {
        (max_depth - initial_len) as nat
    }
}

pub fn cname_walk_budget(initial_len: usize, max_depth: usize) -> (r: usize)
    ensures
        r == walk_budget(initial_len as nat, max_depth as nat),
{
    if initial_len == 0 || max_depth == 0 {
        0
    } else {
        max_depth.saturating_sub(initial_len)
    }
}

/// The fully-qualified form of a CNAME target: unchanged when it already
/// ends with a dot, else with one appended.
pub open spec fn cname_lookup_name(target: Seq<char>) -> Seq<char> {
    if target.len() > 0 && target.last() == '.' {
        target
    } else {
        target.push('.')
    }
}

pub fn cname_lookup_fqdn(target: &str) -> (r: String)
    ensures
        r@ == cname_lookup_name(target@),
{
    let cs = chars_of(target);
    let mut r = copy_str(target);
    if !(cs.len() > 0 && cs[cs.len() - 1] == '.') {
        string_push(&mut r, '.');
    }
    r
}

/// One step of the CNAME walk: appends the names of the answer that are not
/// in the chain yet, in order; tells whether any was appended (the walk
/// stops otherwise, and the next lookup is for the chain's last name).
pub fn extend_cname_chain(chain: &mut Vec<String>, more: &Vec<String>) -> (progressed: bool)
    ensures
        texts(final(chain)@) == append_unique(texts(old(chain)@), texts(more@)),
        progressed == (final(chain)@.len() > old(chain)@.len()),
{
    let n = chain.len();
    merge_unique(chain, more);
    chain.len() > n
}

/// A CNAME walk: the chain known so far and how many more lookups it may
/// make. Each lookup asks for the chain's last name; an answer that adds no
/// new name, or a failed lookup, ends the walk.
pub struct CnameWalk {
    chain: Vec<String>,
    remaining: usize,
}

impl CnameWalk {
    /// The names of the chain, in the order found.
    pub closed spec fn names(self) -> Seq<Seq<char>> {
        texts(self.chain@)
    }

    /// How many more lookups the walk may make.
    pub closed spec fn budget(self) -> nat {
        self.remaining as nat
    }

    /// The walk still makes a lookup only with a budget left, and it has
    /// something to look up whenever it has a budget.
    pub closed spec fn wf(self) -> bool {
        self.remaining > 0 ==> self.chain@.len() > 0
    }

    /// The name the next lookup asks for, when the walk goes on.
    pub open spec fn next_name(self) -> Option<Seq<char>> {
        if self.budget() > 0 {
            Some(cname_lookup_name(self.names().last()))
        } else {
            None
        }
    }

    /// Starts from the first CNAME answer, with the budget that the depth
    /// limit leaves.
    pub fn start(initial: Vec<String>, max_depth: usize) -> (w: Self)
        ensures
            w.wf(),
            w.names() == texts(initial@),
            w.budget() == walk_budget(initial@.len(), max_depth as nat),
    {
        let remaining = cname_walk_budget(initial.len(), max_depth);
        CnameWalk { chain: initial, remaining }
    }

    /// The name to look up next, or none when the walk has ended.
    pub fn next_lookup(&self) -> (r: Option<String>)
        requires
            self.wf(),
        ensures
            match r {
                Some(n) => self.next_name() == Some(n@),
                None => self.next_name() is None,
            },
    {
        if self.remaining == 0 {
            return None;
        }
        let last = self.chain.len() - 1;
        Some(cname_lookup_fqdn(self.chain[last].as_str()))
    }

    /// Takes the answer to the last lookup (none when it failed): its new
    /// names join the chain; without any, the walk ends.
    pub fn answer(&mut self, more: Option<&Vec<String>>)
        requires
            old(self).wf(),
            old(self).budget() > 0,
        ensures
            final(self).wf(),
            match more {
                Some(m) => final(self).names() == append_unique(old(self).names(), texts(m@)),
                None => final(self).names() == old(self).names(),
            },
            final(self).budget() == if final(self).names().len() > old(self).names().len() {
                (old(self).budget() - 1) as nat
            } else {
                0nat
            },
    {
        let progressed = match more {
            Some(m) => extend_cname_chain(&mut self.chain, m),
            None => false,
        };
        if progressed {
            self.remaining = self.remaining - 1;
        } else {
            self.remaining = 0;
        }
    }

    /// The chain found.
    pub fn finish(self) -> (r: Vec<String>)
        ensures
            texts(r@) == self.names(),
    {
        self.chain
    }
}

/// The name the address lookup asks for: the query name when no CNAME was
/// followed, else the chain's last name, without trailing dots, with one dot.
pub open spec fn address_lookup_name(fqdn: Seq<char>, chain: Seq<Seq<char>>) -> Seq<char> {
    if chain.len() == 0 {
        fqdn
    } else {
        trim_end_char(chain.last(), '.').push('.')
    }
}

pub fn ip_lookup_target(fqdn: &str, chain: &Vec<String>) -> (r: String)
    ensures
        r@ == address_lookup_name(fqdn@, texts(chain@)),
{
    if chain.len() == 0 {
        copy_str(fqdn)
    } else {
        let last = chars_of(chain[chain.len() - 1].as_str());
        let t = trim_end_char_exec(last.as_slice(), '.');
        let mut r = string_of(t.as_slice());
        string_push(&mut r, '.');
        r
    }
}

/// The observation of a resolver that was not asked because the probe was
/// cancelled.
pub fn cancelled_observation(resolver: String, duration: Duration) -> (r: ResolverObservation)
    ensures
        r.resolver == resolver,
        !r.success,
        r.ips@.len() == 0 && r.cname_chain@.len() == 0,
        r.duration == duration,
        r.error matches Some(e) && e@ == "cancelled"@,
        r.mx_records@.len() == 0 && r.txt_records@.len() == 0 && r.ns_records@.len() == 0,
{
    ResolverObservation {
        resolver,
        success: false,
        ips: Vec::new(),
        cname_chain: Vec::new(),
        duration,
        error: Some(copy_str("cancelled")),
        mx_records: Vec::new(),
        txt_records: Vec::new(),
        ns_records: Vec::new(),
    }
}

/// The observation of one resolver from its lookups: it succeeded when the
/// address lookup did (keeping the public answers only), with the error
/// message otherwise; a failed CNAME lookup leaves the chain empty and a
/// failed MX, TXT or NS lookup leaves its list empty.
pub fn resolver_observation(
    resolver: String,
    addresses: Result<Vec<IpAddr>, String>,
    cname_chain: Vec<String>,
    duration: Duration,
    mx: Option<Vec<(u16, String)>>,
    txt: Option<Vec<String>>,
    ns: Option<Vec<String>>,
) -> (r: ResolverObservation)
    ensures
        r.resolver == resolver,
        r.cname_chain == cname_chain,
        r.duration == duration,
        match addresses {
            Ok(ips) => r.success && r.error is None && r.ips@ == ips@.filter(
                |ip: IpAddr| public_answer(ip),
            ),
            Err(e) => !r.success && r.error == Some(e) && r.ips@.len() == 0,
        },
        r.mx_records@ == match mx {
            Some(v) => v@,
            None => Seq::empty(),
        },
        r.txt_records@ == match txt {
            Some(v) => v@,
            None => Seq::empty(),
        },
        r.ns_records@ == match ns {
            Some(v) => v@,
            None => Seq::empty(),
        },
{
    let (success, ips, error) = match addresses {
        Ok(list) => (true, filter_private_ips(list.as_slice()), None),
        Err(e) => {
            let empty: Vec<IpAddr> = Vec::new();
            proof {
                reveal_with_fuel(Seq::filter, 1);
            }
            (false, filter_private_ips(empty.as_slice()), Some(e))
        },
    };
    ResolverObservation {
        resolver,
        success,
        ips,
        cname_chain,
        duration,
        error,
        mx_records: match mx {
            Some(v) => v,
            None => Vec::new(),
        },
        txt_records: match txt {
            Some(v) => v,
            None => Vec::new(),
        },
        ns_records: match ns {
            Some(v) => v,
            None => Vec::new(),
        },
    }
}

/// Records the outcome of one observation in the resolver's health; a
/// failure that leaves a resolver with at least three failures and
/// unhealthy asks for a ban (the result).
pub fn record_observation(h: &mut ResolverHealth, success: bool, duration: Duration) -> (ban: bool)
    requires
        old(h).success_count < u64::MAX,
        old(h).failure_count < u64::MAX,
        nanos(old(h).total_duration) + nanos(duration) <= max_duration_nanos(),
    ensures
        success ==> final(h).success_count == old(h).success_count + 1 && final(h).failure_count
            == old(h).failure_count && nanos(final(h).total_duration) == nanos(old(h).total_duration)
            + nanos(duration) && !ban,
        !success ==> final(h).failure_count == old(h).failure_count + 1 && final(h).success_count
            == old(h).success_count && final(h).total_duration == old(h).total_duration && ban == (
        final(h).failure_count >= 3 && !final(h).spec_is_healthy()),
{
    if success {
        h.record_success(duration);
        false
    } else {
        h.record_failure();
        h.failure_count >= 3 && !h.is_healthy()
    }
}

} // verus!
