//! Combining the answers of several resolvers into one DNS detection.

use vstd::prelude::*;

use std::time::Duration;

use crate::cloudflare::ranges::CloudflareRanges;
use crate::dns::model::{contains_ip, DnsDetection, DnsDetectionStatus, ResolverObservation};
use crate::net::IpAddr;
use crate::text::copy_str;

verus! {

/// `lt` is a strict total order.
pub proof fn lemma_ip_order(a: IpAddr, b: IpAddr, c: IpAddr)
    ensures
        !a.lt(a),
        a.lt(b) && b.lt(c) ==> a.lt(c),
        a.lt(b) ==> !b.lt(a),
        a != b ==> a.lt(b) || b.lt(a),
{
}

/// Ascending without repetition.
pub open spec fn strictly_sorted(s: Seq<IpAddr>) -> bool {
    forall|i: int, j: int| 0 <= i < j < s.len() ==> (#[trigger] s[i]).lt(#[trigger] s[j])
}

/// Some resolver returned the address.
pub open spec fn returned_by_any(obs: Seq<ResolverObservation>, ip: IpAddr) -> bool {
    exists|i: int| 0 <= i < obs.len() && (#[trigger] obs[i]).ips@.contains(ip)
}

/// The resolver succeeded with at least one address.
pub open spec fn answered(o: ResolverObservation) -> bool {
    o.success && o.ips@.len() > 0
}

/// The resolver succeeded with at least one Cloudflare address.
pub open spec fn returned_cloudflare(o: ResolverObservation, ranges: CloudflareRanges) -> bool {
    o.success && exists|j: int| 0 <= j < o.ips@.len() && ranges.spec_contains(#[trigger] o.ips@[j])
}

pub open spec fn count_answered(obs: Seq<ResolverObservation>) -> nat
    decreases obs.len(),
{
    if obs.len() == 0 {
        0
    } else {
        count_answered(obs.drop_last()) + if answered(obs.last()) {
            1nat
        } else {
            0nat
        }
    }
}

pub open spec fn count_succeeded(obs: Seq<ResolverObservation>) -> nat
    decreases obs.len(),
{
    if obs.len() == 0 {
        0
    } else {
        count_succeeded(obs.drop_last()) + if obs.last().success {
            1nat
        } else {
            0nat
        }
    }
}

pub open spec fn count_cloudflare(obs: Seq<ResolverObservation>, ranges: CloudflareRanges) -> nat
    decreases obs.len(),
{
    if obs.len() == 0 {
        0
    } else {
        count_cloudflare(obs.drop_last(), ranges) + if returned_cloudflare(obs.last(), ranges) {
            1nat
        } else {
            0nat
        }
    }
}

/// The two lists hold the same addresses, compared as sets.
pub open spec fn same_addresses(a: Seq<IpAddr>, b: Seq<IpAddr>) -> bool {
    forall|x: IpAddr| a.contains(x) <==> b.contains(x)
}

/// At most one resolver succeeded, or every two succeeding resolvers
/// returned the same set of addresses.
pub open spec fn resolvers_agree(obs: Seq<ResolverObservation>) -> bool {
    count_succeeded(obs) <= 1 || forall|i: int, j: int|
        0 <= i < obs.len() && 0 <= j < obs.len() && (#[trigger] obs[i]).success && (#[trigger] obs[j]).success
            ==> same_addresses(obs[i].ips@, obs[j].ips@)
}

/// Inserts an address into an ascending list without repetition.
fn insert_sorted(v: &mut Vec<IpAddr>, ip: IpAddr)
    requires
        strictly_sorted(old(v)@),
    ensures
        strictly_sorted(final(v)@),
        forall|x: IpAddr| #[trigger] final(v)@.contains(x) == (old(v)@.contains(x) || x == ip),
{
    let mut p: usize = 0;
    while p < v.len() && v[p].less_than(&ip)
        invariant
            p <= v@.len(),
            strictly_sorted(v@),
            forall|j: int| 0 <= j < p ==> (#[trigger] v@[j]).lt(ip),
        decreases v@.len() - p,
    {
        p += 1;
    }
    if p < v.len() && v[p] == ip {
        assert(v@[p as int] == ip);
        return ;
    }
    let ghost old_v = v@;
    proof {
        if p < old_v.len() {
            lemma_ip_order(old_v[p as int], ip, ip);
            assert(ip.lt(old_v[p as int]));
            assert forall|j: int| p <= j < old_v.len() implies ip.lt(#[trigger] old_v[j]) by {
                if j > p {
                    lemma_ip_order(ip, old_v[p as int], old_v[j]);
                }
            }
        }
    }
    v.insert(p, ip);
    proof {
        assert forall|i: int, j: int| 0 <= i < j < v@.len() implies (#[trigger] v@[i]).lt(#[trigger] v@[j]) by {
            if j < p {
            } else if j == p {
            } else if i < p {
                lemma_ip_order(v@[i], ip, v@[j]);
            } else if i == p {
            } else {
            }
        }
        assert forall|x: IpAddr| #[trigger] v@.contains(x) == (old_v.contains(x) || x == ip) by {
            if old_v.contains(x) {
                let k = choose|k: int| 0 <= k < old_v.len() && #[trigger] old_v[k] == x;
                if k < p {
                    assert(v@[k] == x);
                } else {
                    assert(v@[k + 1] == x);
                }
            }
            if x == ip {
                assert(v@[p as int] == x);
            }
            if v@.contains(x) {
                let k = choose|k: int| 0 <= k < v@.len() && #[trigger] v@[k] == x;
                if k < p {
                    assert(old_v[k] == x);
                } else if k > p {
                    assert(old_v[k - 1] == x);
                }
            }
        }
    }
}

/// The distinct addresses of all answers, ascending.
pub fn union_of_answers(obs: &Vec<ResolverObservation>) -> (r: Vec<IpAddr>)
    ensures
        strictly_sorted(r@),
        forall|ip: IpAddr| #[trigger] r@.contains(ip) == returned_by_any(obs@, ip),
{
    let mut r: Vec<IpAddr> = Vec::new();
    let mut i: usize = 0;
    while i < obs.len()
        invariant
            i <= obs@.len(),
            strictly_sorted(r@),
            forall|ip: IpAddr| #[trigger] r@.contains(ip) == returned_by_any(obs@.take(i as int), ip),
        decreases obs@.len() - i,
    {
        let ips = &obs[i].ips;
        let ghost before = r@;
        let mut j: usize = 0;
        while j < ips.len()
            invariant
                i < obs@.len(),
                *ips == obs@[i as int].ips,
                j <= ips@.len(),
                strictly_sorted(r@),
                forall|ip: IpAddr| #[trigger] r@.contains(ip) == (before.contains(ip) || ips@.take(j as int).contains(ip)),
            decreases ips@.len() - j,
        {
            let ghost mid = r@;
            insert_sorted(&mut r, ips[j]);
            proof {
                assert forall|ip: IpAddr| #[trigger] r@.contains(ip) == (before.contains(ip) || ips@.take(j + 1).contains(ip)) by {
                    if ips@.take(j + 1).contains(ip) && ip != ips@[j as int] {
                        let k = choose|k: int| 0 <= k < j + 1 && #[trigger] ips@.take(j + 1)[k] == ip;
                        assert(ips@.take(j as int)[k] == ip);
                    }
                    if ips@.take(j as int).contains(ip) {
                        let k = choose|k: int| 0 <= k < j && #[trigger] ips@.take(j as int)[k] == ip;
                        assert(ips@.take(j + 1)[k] == ip);
                    }
                    if ip == ips@[j as int] {
                        assert(ips@.take(j + 1)[j as int] == ip);
                    }
                }
            }
            j += 1;
        }
        proof {
            assert(ips@.take(j as int) =~= ips@);
            assert forall|ip: IpAddr| #[trigger] r@.contains(ip) == returned_by_any(obs@.take(i + 1), ip) by {
                if returned_by_any(obs@.take(i + 1), ip) {
                    let k = choose|k: int| 0 <= k < i + 1 && (#[trigger] obs@.take(i + 1)[k]).ips@.contains(ip);
                    if k < i {
                        assert(obs@.take(i as int)[k] == obs@[k]);
                        assert(returned_by_any(obs@.take(i as int), ip));
                    }
                }
                if returned_by_any(obs@.take(i as int), ip) {
                    let k = choose|k: int| 0 <= k < i && (#[trigger] obs@.take(i as int)[k]).ips@.contains(ip);
                    assert(obs@.take(i + 1)[k] == obs@[k]);
                }
                if obs@[i as int].ips@.contains(ip) {
                    assert(obs@.take(i + 1)[i as int] == obs@[i as int]);
                }
            }
        }
        i += 1;
    }
    proof {
        assert(obs@.take(i as int) =~= obs@);
    }
    r
}

/// The Cloudflare addresses of an ascending list, in order.
pub fn cloudflare_subset(union: &Vec<IpAddr>, ranges: &CloudflareRanges) -> (r: Vec<IpAddr>)
    requires
        strictly_sorted(union@),
    ensures
        strictly_sorted(r@),
        forall|ip: IpAddr| #[trigger] r@.contains(ip) == (union@.contains(ip) && ranges.spec_contains(ip)),
{
    let mut r: Vec<IpAddr> = Vec::new();
    let mut i: usize = 0;
    while i < union.len()
        invariant
            i <= union@.len(),
            strictly_sorted(union@),
            strictly_sorted(r@),
            forall|k: int, j: int| 0 <= k < r@.len() && i <= j < union@.len() ==> (#[trigger] r@[k]).lt(#[trigger] union@[j]),
            forall|ip: IpAddr| #[trigger] r@.contains(ip) == (union@.take(i as int).contains(ip) && ranges.spec_contains(ip)),
        decreases union@.len() - i,
    {
        let ip = union[i];
        let ghost before = r@;
        if ranges.contains(ip) {
            r.push(ip);
        }
        proof {
            assert forall|k: int, j: int| 0 <= k < r@.len() && i + 1 <= j < union@.len() implies (#[trigger] r@[k]).lt(#[trigger] union@[j]) by {
                if k < before.len() {
                    assert(before[k] == r@[k]);
                } else {
                    assert(r@[k] == union@[i as int]);
                }
            }
            assert forall|x: IpAddr| #[trigger] r@.contains(x) == (union@.take(i + 1).contains(x) && ranges.spec_contains(x)) by {
                if r@.contains(x) {
                    let k = choose|k: int| 0 <= k < r@.len() && #[trigger] r@[k] == x;
                    if k < before.len() {
                        assert(before[k] == x);
                        assert(before.contains(x));
                        assert(union@.take(i as int).contains(x));
                        let m = choose|m: int| 0 <= m < i && #[trigger] union@.take(i as int)[m] == x;
                        assert(union@.take(i as int)[m] == union@[m]);
                        assert(union@.take(i + 1)[m] == x);
                    } else {
                        assert(union@.take(i + 1)[i as int] == x);
                    }
                }
                if union@.take(i + 1).contains(x) && ranges.spec_contains(x) {
                    let m = choose|m: int| 0 <= m < i + 1 && #[trigger] union@.take(i + 1)[m] == x;
                    if m < i {
                        assert(union@.take(i as int)[m] == x);
                        assert(before.contains(x));
                        let k = choose|k: int| 0 <= k < before.len() && #[trigger] before[k] == x;
                        assert(r@[k] == x);
                    } else {
                        assert(r@[r@.len() - 1] == x);
                    }
                }
            }
        }
        i += 1;
    }
    proof {
        assert(union@.take(i as int) =~= union@);
    }
    r
}

fn any_in_ranges(ips: &Vec<IpAddr>, ranges: &CloudflareRanges) -> (r: bool)
    ensures
        r == exists|j: int| 0 <= j < ips@.len() && ranges.spec_contains(#[trigger] ips@[j]),
{
    let mut j: usize = 0;
    while j < ips.len()
        invariant
            j <= ips@.len(),
            forall|k: int| 0 <= k < j ==> !ranges.spec_contains(#[trigger] ips@[k]),
        decreases ips@.len() - j,
    {
        if ranges.contains(ips[j]) {
            return true;
        }
        j += 1;
    }
    false
}

/// The numbers of resolvers that answered, that succeeded, and that
/// returned a Cloudflare address.
fn count_resolvers(obs: &Vec<ResolverObservation>, ranges: &CloudflareRanges) -> (r: (usize, usize, usize))
    ensures
        r.0 == count_answered(obs@),
        r.1 == count_succeeded(obs@),
        r.2 == count_cloudflare(obs@, *ranges),
{
    let mut answered_n: usize = 0;
    let mut succeeded_n: usize = 0;
    let mut cloudflare_n: usize = 0;
    let mut i: usize = 0;
    while i < obs.len()
        invariant
            i <= obs@.len(),
            answered_n <= i && succeeded_n <= i && cloudflare_n <= i,
            answered_n == count_answered(obs@.take(i as int)),
            succeeded_n == count_succeeded(obs@.take(i as int)),
            cloudflare_n == count_cloudflare(obs@.take(i as int), *ranges),
        decreases obs@.len() - i,
    {
        let ghost t = obs@.take(i as int + 1);
        assert(t.drop_last() =~= obs@.take(i as int));
        assert(t.last() == obs@[i as int]);
        let o = &obs[i];
        if o.success {
            succeeded_n += 1;
            if o.ips.len() > 0 {
                answered_n += 1;
            }
            if any_in_ranges(&o.ips, ranges) {
                cloudflare_n += 1;
            }
        }
        i += 1;
    }
    assert(obs@.take(i as int) =~= obs@);
    (answered_n, succeeded_n, cloudflare_n)
}

fn within(a: &Vec<IpAddr>, b: &Vec<IpAddr>) -> (r: bool)
    ensures
        r == forall|x: IpAddr| a@.contains(x) ==> b@.contains(x),
{
    let mut k: usize = 0;
    while k < a.len()
        invariant
            k <= a@.len(),
            forall|m: int| 0 <= m < k ==> b@.contains(#[trigger] a@[m]),
        decreases a@.len() - k,
    {
        if !contains_ip(b, &a[k]) {
            assert(a@.contains(a@[k as int]));
            return false;
        }
        k += 1;
    }
    true
}

fn same_address_set(a: &Vec<IpAddr>, b: &Vec<IpAddr>) -> (r: bool)
    ensures
        r == same_addresses(a@, b@),
{
    within(a, b) && within(b, a)
}

fn all_answers_equal(obs: &Vec<ResolverObservation>) -> (r: bool)
    ensures
        r == forall|i: int, j: int|
            0 <= i < obs@.len() && 0 <= j < obs@.len() && (#[trigger] obs@[i]).success && (#[trigger] obs@[j]).success
                ==> same_addresses(obs@[i].ips@, obs@[j].ips@),
{
    let mut f: usize = 0;
    while f < obs.len() && !obs[f].success
        invariant
            f <= obs@.len(),
            forall|m: int| 0 <= m < f ==> !(#[trigger] obs@[m]).success,
        decreases obs@.len() - f,
    {
        f += 1;
    }
    if f == obs.len() {
        return true;
    }
    let mut i: usize = 0;
    while i < obs.len()
        invariant
            f < obs@.len(),
            obs@[f as int].success,
            i <= obs@.len(),
            forall|m: int| 0 <= m < i && (#[trigger] obs@[m]).success ==> same_addresses(obs@[f as int].ips@, obs@[m].ips@),
        decreases obs@.len() - i,
    {
        if obs[i].success && !same_address_set(&obs[f].ips, &obs[i].ips) {
            assert(!same_addresses(obs@[f as int].ips@, obs@[i as int].ips@));
            return false;
        }
        i += 1;
    }
    assert forall|a: int, b: int|
        0 <= a < obs@.len() && 0 <= b < obs@.len() && (#[trigger] obs@[a]).success && (#[trigger] obs@[b]).success
            implies same_addresses(obs@[a].ips@, obs@[b].ips@) by {
        assert(same_addresses(obs@[f as int].ips@, obs@[a].ips@));
        assert(same_addresses(obs@[f as int].ips@, obs@[b].ips@));
    }
    true
}

/// The DNS detection of the resolvers' answers: the distinct answered
/// addresses ascending, those of Cloudflare among them, the resolver
/// counts, whether the resolvers agree, and the stage status (Cloudflare
/// address found / addresses without Cloudflare / nothing resolved).
pub fn aggregate_observations(
    normalized: &str,
    observations: Vec<ResolverObservation>,
    total_duration: Duration,
    ranges: &CloudflareRanges,
    resolver_count: usize,
    mx_records: Vec<(u16, String)>,
    txt_records: Vec<String>,
    ns_records: Vec<String>,
    cname_chain: Vec<String>,
) -> (r: DnsDetection)
    ensures
        r.hostname@ == normalized@,
        r.normalized_hostname@ == normalized@,
        r.observations@ == observations@,
        strictly_sorted(r.union_ips@),
        forall|ip: IpAddr| #[trigger] r.union_ips@.contains(ip) == returned_by_any(observations@, ip),
        strictly_sorted(r.cloudflare_ips@),
        forall|ip: IpAddr| #[trigger] r.cloudflare_ips@.contains(ip) == (r.union_ips@.contains(ip)
            && ranges.spec_contains(ip)),
        r.cloudflare_resolver_count == count_cloudflare(observations@, *ranges),
        r.successful_resolver_count == count_answered(observations@),
        r.resolver_count == resolver_count,
        r.has_cloudflare_ip == (r.cloudflare_ips@.len() > 0),
        r.all_resolvers_agree == resolvers_agree(observations@),
        r.status == if r.cloudflare_ips@.len() > 0 {
            DnsDetectionStatus::CloudflareIp
        } else if r.union_ips@.len() > 0 {
            DnsDetectionStatus::NoCloudflareIp
        } else {
            DnsDetectionStatus::Unknown
        },
        r.total_duration == total_duration,
        r.mx_records@ == mx_records@,
        r.txt_records@ == txt_records@,
        r.ns_records@ == ns_records@,
        r.cname_chain@ == cname_chain@,
{
    let (answered_n, succeeded_n, cloudflare_n) = count_resolvers(&observations, ranges);
    let union_ips = union_of_answers(&observations);
    let cloudflare_ips = cloudflare_subset(&union_ips, ranges);
    let has_cloudflare_ip = cloudflare_ips.len() > 0;
    let all_resolvers_agree = succeeded_n <= 1 || all_answers_equal(&observations);
    let status = if has_cloudflare_ip {
        DnsDetectionStatus::CloudflareIp
    } else if union_ips.len() > 0 {
        DnsDetectionStatus::NoCloudflareIp
    } else {
        DnsDetectionStatus::Unknown
    };
    DnsDetection {
        hostname: copy_str(normalized),
        normalized_hostname: copy_str(normalized),
        observations,
        union_ips,
        cloudflare_ips,
        cloudflare_resolver_count: cloudflare_n,
        successful_resolver_count: answered_n,
        resolver_count,
        all_resolvers_agree,
        has_cloudflare_ip,
        total_duration,
        status,
        mx_records,
        txt_records,
        ns_records,
        cname_chain,
    }
}

} // verus!
