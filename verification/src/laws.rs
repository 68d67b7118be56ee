//! Properties of the library that span several functions or hold of every
//! input: batch accounting, resolver counts, answer merging, request
//! counters, credentials and confidence.

use vstd::prelude::*;
use vstd::wrapping::u64_specs::wrapping_add;

use crate::cloudflare::ranges::CloudflareRanges;
use crate::dns::aggregate::{count_answered, count_cloudflare, count_succeeded};
use crate::dns::model::ResolverObservation;
use crate::dns::resolution::append_unique;
use crate::evidence::model::{ConfidenceLevel, DetectionClassification, ItemView};
use crate::evidence::policy::ConfidenceRuleSet;
use crate::evidence::scoring::{confidence_of, level_of};
use crate::probe::batch::{count_class, count_status, start_slot, BatchItemResult, BatchItemStatus};
use crate::net::{IpAddr, IpNet, Ipv4Addr, Ipv6Addr};
use crate::cloudflare::client::{api_outcome, ApiResponse};
use crate::evidence::matching::name_matches;
use crate::hostname::normalized;
use crate::text::starts_with;
use crate::probe::policy::{classification, ip_refusal, TargetPolicy};
use crate::server::{authorized, wrapping_decrement};

verus! {

/// Every item of a batch has exactly one of the four statuses, so the four
/// status counts add up to the number of items; and no more items carry a
/// verdict than there are items.
pub proof fn law_batch_counts_partition(items: Seq<BatchItemResult>)
    ensures
        count_status(items, BatchItemStatus::Completed) + count_status(items, BatchItemStatus::Failed)
            + count_status(items, BatchItemStatus::TimedOut) + count_status(items, BatchItemStatus::Cancelled)
            == items.len(),
        count_class(items, DetectionClassification::Cloudflare) + count_class(
            items,
            DetectionClassification::NotCloudflare,
        ) + count_class(items, DetectionClassification::Unknown) <= items.len(),
    decreases items.len(),
{
    if items.len() > 0 {
        law_batch_counts_partition(items.drop_last());
    }
}

/// The start-rate limiter spaces starts: the slot reserved after another
/// (whose successor slot is one interval later) starts at least one
/// interval after it, and no slot starts before the time it was asked for.
pub proof fn law_starts_are_spaced(next: nat, now1: nat, now2: nat, interval: nat)
    ensures
        start_slot(start_slot(next, now1) + interval, now2) >= start_slot(next, now1) + interval,
        start_slot(next, now1) >= now1,
        start_slot(start_slot(next, now1) + interval, now2) >= now2,
{
}

/// A resolver that returned a Cloudflare address answered, and one that
/// answered succeeded: the counts of a DNS detection are ordered.
pub proof fn law_resolver_counts_ordered(obs: Seq<ResolverObservation>, ranges: CloudflareRanges)
    ensures
        count_cloudflare(obs, ranges) <= count_answered(obs),
        count_answered(obs) <= count_succeeded(obs),
        count_succeeded(obs) <= obs.len(),
    decreases obs.len(),
{
    if obs.len() > 0 {
        law_resolver_counts_ordered(obs.drop_last(), ranges);
    }
}

/// Merging record texts keeps them distinct and loses none: the result
/// holds exactly the texts of both lists, each once.
pub proof fn law_merge_is_distinct_union(seen: Seq<Seq<char>>, new: Seq<Seq<char>>)
    requires
        seen.no_duplicates(),
    ensures
        append_unique(seen, new).no_duplicates(),
        forall|x: Seq<char>| #[trigger] append_unique(seen, new).contains(x) <==> (seen.contains(x)
            || new.contains(x)),
    decreases new.len(),
{
    if new.len() > 0 {
        let rest = new.drop_first();
        if seen.contains(new[0]) {
            law_merge_is_distinct_union(seen, rest);
            assert forall|x: Seq<char>| #[trigger] append_unique(seen, new).contains(x) <==> (
            seen.contains(x) || new.contains(x)) by {
                if new.contains(x) && !rest.contains(x) {
                    let k = choose|k: int| 0 <= k < new.len() && new[k] == x;
                    if k > 0 {
                        assert(rest[k - 1] == x);
                    }
                }
                if rest.contains(x) {
                    let k = choose|k: int| 0 <= k < rest.len() && rest[k] == x;
                    assert(new[k + 1] == x);
                }
            }
        } else {
            let grown = seen.push(new[0]);
            assert forall|i: int, j: int|
                0 <= i < grown.len() && 0 <= j < grown.len() && i != j implies grown[i] != grown[j] by {
                if i == seen.len() {
                    assert(seen[j] == grown[j]);
                } else if j == seen.len() {
                    assert(seen[i] == grown[i]);
                }
            }
            law_merge_is_distinct_union(grown, rest);
            assert forall|x: Seq<char>| #[trigger] append_unique(seen, new).contains(x) <==> (
            seen.contains(x) || new.contains(x)) by {
                if grown.contains(x) && !seen.contains(x) {
                    let k = choose|k: int| 0 <= k < grown.len() && grown[k] == x;
                    if k < seen.len() {
                        assert(seen[k] == x);
                    }
                    assert(new[0] == x);
                }
                if seen.contains(x) {
                    let k = choose|k: int| 0 <= k < seen.len() && seen[k] == x;
                    assert(grown[k] == x);
                }
                if new.contains(x) && !rest.contains(x) {
                    let k = choose|k: int| 0 <= k < new.len() && new[k] == x;
                    if k > 0 {
                        assert(rest[k - 1] == x);
                    }
                    assert(grown[seen.len() as int] == x);
                }
                if rest.contains(x) {
                    let k = choose|k: int| 0 <= k < rest.len() && rest[k] == x;
                    assert(new[k + 1] == x);
                }
            }
        }
    }
}

/// Ending a request undoes starting one on the in-flight gauge, whatever
/// its value (the counter wraps both ways).
pub proof fn law_request_end_undoes_start(in_flight: u64)
    ensures
        wrapping_decrement(wrapping_add(in_flight, 1)) == in_flight,
{
}

/// Without a configured key every request is accepted.
pub proof fn law_no_key_accepts_every_request(authorization: Option<String>, x_api_key: Option<String>)
    ensures
        authorized(None, authorization, x_api_key),
{
}

/// With a configured key, `Authorization: Bearer <key>` is accepted, and so
/// is `X-API-Key: <key>`.
pub proof fn law_configured_key_is_accepted(key: String, bearer: String, other: Option<String>)
    requires
        bearer@ == "Bearer "@ + key@,
    ensures
        authorized(Some(key), Some(bearer), other),
        authorized(Some(key), other, Some(key)),
{
    reveal_strlit("Bearer ");
    assert(bearer@.skip(7) =~= key@);
    assert(bearer@.subrange(0, 7) =~= "Bearer "@);
}

/// The IPv6 loopback `::1` is loopback, not the IPv4 address it maps to, so
/// a policy that refuses loopback refuses it whatever else it allows.
pub proof fn law_ipv6_loopback_is_loopback(p: TargetPolicy, v: crate::net::Ipv6Addr)
    requires
        v.spec_is_loopback(),
        !p.allow_loopback,
    ensures
        classification(IpAddr::V6(v)).loopback,
        ip_refusal(p, IpAddr::V6(v)) is Some,
{
}

/// A policy that allows none of the address classes (as the default one)
/// accepts exactly the addresses that are in none of them: not private, not
/// loopback, not link-local, not multicast, not unspecified, not special-use.
pub proof fn law_strict_policy_accepts_only_public_addresses(p: TargetPolicy, ip: IpAddr)
    requires
        !p.allow_private_ips && !p.allow_loopback && !p.allow_link_local && !p.allow_multicast,
        !p.allow_unspecified && !p.allow_special_use_ips,
    ensures
        ip_refusal(p, ip) is None <==> {
            let c = classification(ip);
            !c.private && !c.loopback && !c.link_local && !c.multicast && !c.unspecified && !c.special_use
        },
{
}

/// An IPv6 address with an IPv4 form (mapped or compatible), other than the
/// IPv6 loopback `::1`, is judged as that IPv4 address: the same classes, so
/// the same acceptance.
pub proof fn law_mapped_address_is_judged_as_ipv4(p: TargetPolicy, v: crate::net::Ipv6Addr)
    requires
        v.spec_to_ipv4() is Some,
        !v.spec_is_loopback(),
    ensures
        classification(IpAddr::V6(v)) == classification(IpAddr::V4(v.spec_to_ipv4().unwrap())),
        ip_refusal(p, IpAddr::V6(v)) is None <==> ip_refusal(p, IpAddr::V4(v.spec_to_ipv4().unwrap())) is None,
{
}

/// The confidence of any verdict never exceeds the configured maximum.
pub proof fn law_confidence_at_most_max(
    class: DetectionClassification,
    score: int,
    items: Seq<ItemView>,
    c: ConfidenceRuleSet,
)
    ensures
        confidence_of(class, score, items, c) <= c.max_confidence,
{
}

/// For the positive verdict, a higher score never lowers the confidence.
pub proof fn law_positive_confidence_grows_with_score(
    low: int,
    high: int,
    items: Seq<ItemView>,
    c: ConfidenceRuleSet,
)
    requires
        low <= high,
    ensures
        confidence_of(DetectionClassification::Cloudflare, low, items, c) <= confidence_of(
            DetectionClassification::Cloudflare,
            high,
            items,
            c,
        ),
{
    let nl = if low < 0 {
        0
    } else if low > 100 {
        100
    } else {
        low
    };
    let nh = if high < 0 {
        0
    } else if high > 100 {
        100
    } else {
        high
    };
    if c.positive_divisor > 0 {
        assert(nl * 1000 <= nh * 1000);
        vstd::arithmetic::div_mod::lemma_div_is_ordered(nl * 1000, nh * 1000, c.positive_divisor as int);
    }
}

/// The rank of a confidence level: `VeryHigh > High > Medium > Low >
/// Insufficient`.
pub open spec fn level_rank(level: ConfidenceLevel) -> int {
    match level {
        ConfidenceLevel::VeryHigh => 4,
        ConfidenceLevel::High => 3,
        ConfidenceLevel::Medium => 2,
        ConfidenceLevel::Low => 1,
        ConfidenceLevel::Insufficient => 0,
    }
}

/// A higher confidence never maps to a lower level, whatever the
/// thresholds.
pub proof fn law_level_follows_confidence(
    low: int,
    high: int,
    class: DetectionClassification,
    c: ConfidenceRuleSet,
)
    requires
        low <= high,
    ensures
        level_rank(level_of(low, class, c)) <= level_rank(level_of(high, class, c)),
{
}

/// The RFC 1918 blocks 10/8, 172.16/12 and 192.168/16 and the shared block
/// 100.64/10 are exactly the private IPv4 addresses.
pub proof fn law_private_ipv4_blocks(v: Ipv4Addr)
    ensures
        classification(IpAddr::V4(v)).private <==> (v.a == 10 || (v.a == 172 && 16 <= v.b <= 31) || (v.a == 192
            && v.b == 168) || (v.a == 100 && 64 <= v.b <= 127)),
{
}

/// The other IPv4 classes by their blocks: loopback 127/8, link-local
/// 169.254/16, multicast 224/4, unspecified 0.0.0.0.
pub proof fn law_ipv4_class_blocks(v: Ipv4Addr)
    ensures
        classification(IpAddr::V4(v)).loopback <==> v.a == 127,
        classification(IpAddr::V4(v)).link_local <==> (v.a == 169 && v.b == 254),
        classification(IpAddr::V4(v)).multicast <==> (224 <= v.a <= 239),
        classification(IpAddr::V4(v)).unspecified <==> (v.a == 0 && v.b == 0 && v.c == 0 && v.d == 0),
{
}

/// The IPv6 classes of an address without an IPv4 form by their blocks:
/// unique local fc00::/7 is private, fe80::/10 link-local, ff00::/8
/// multicast.
pub proof fn law_ipv6_class_blocks(v: Ipv6Addr)
    requires
        v.spec_to_ipv4() is None,
    ensures
        classification(IpAddr::V6(v)).private <==> (0xfc00 <= v.s0 <= 0xfdff),
        classification(IpAddr::V6(v)).link_local <==> (0xfe80 <= v.s0 <= 0xfebf),
        classification(IpAddr::V6(v)).multicast <==> v.s0 >= 0xff00,
{
}

/// The default policy refuses every RFC 1918 address.
pub proof fn law_default_policy_refuses_rfc1918(p: TargetPolicy, v: Ipv4Addr)
    requires
        !p.allow_private_ips,
        v.a == 10 || (v.a == 172 && 16 <= v.b <= 31) || (v.a == 192 && v.b == 168),
    ensures
        ip_refusal(p, IpAddr::V4(v)) is Some,
{
}

proof fn lemma_prefix_block_v4(n: u32, x: u32, s: u32)
    by (bit_vector)
    requires
        s < 32,
    ensures
        ((n & (0xffff_ffffu32 << s)) <= x && x <= (n | !(0xffff_ffffu32 << s))) <==> (x >> s) == (n >> s),
{
}

/// An IPv4 network `n/p` holds exactly the addresses that agree with `n` on
/// the first `p` bits (every address when `p` is 0); in particular its last
/// address, `n` with every host bit set, is held.
pub proof fn law_ipv4_network_holds_its_prefix(n: Ipv4Addr, p: u8, x: Ipv4Addr)
    requires
        p <= 32,
    ensures
        (IpNet { addr: IpAddr::V4(n), prefix_len: p }).spec_contains(IpAddr::V4(x)) <==> (p == 0 || (x.bits()
            >> ((32 - p) as u32)) == (n.bits() >> ((32 - p) as u32))),
        p > 0 && x.bits() == (n.bits() | (!(0xffff_ffffu32 << ((32 - p) as u32)))) ==> (IpNet {
            addr: IpAddr::V4(n),
            prefix_len: p,
        }).spec_contains(IpAddr::V4(x)),
{
    if p > 0 {
        let s: u32 = (32 - p) as u32;
        lemma_prefix_block_v4(n.bits(), x.bits(), s);
        let nb = n.bits();
        assert(((nb | !(0xffff_ffffu32 << s)) >> s) == (nb >> s)) by (bit_vector)
            requires
                s < 32,
        ;
    } else {
        let nb = n.bits();
        let xb = x.bits();
        assert((nb & 0u32) <= xb && xb <= (nb | !0u32)) by (bit_vector);
    }
}

#[verifier::rlimit(100)]
proof fn lemma_prefix_block_v6(n: u128, x: u128, s: u128)
    by (bit_vector)
    requires
        s < 128,
    ensures
        ((n & (0xffff_ffff_ffff_ffff_ffff_ffff_ffff_ffffu128 << s)) <= x && x <= (n
            | !(0xffff_ffff_ffff_ffff_ffff_ffff_ffff_ffffu128 << s))) <==> (x >> s) == (n >> s),
{
}

/// An IPv6 network `n/p` holds exactly the addresses that agree with `n` on
/// the first `p` bits (every address when `p` is 0).
pub proof fn law_ipv6_network_holds_its_prefix(n: Ipv6Addr, p: u8, x: Ipv6Addr)
    requires
        p <= 128,
    ensures
        (IpNet { addr: IpAddr::V6(n), prefix_len: p }).spec_contains(IpAddr::V6(x)) <==> (p == 0 || (x.bits()
            >> ((128 - p) as u128)) == (n.bits() >> ((128 - p) as u128))),
{
    if p > 0 {
        let s: u128 = (128 - p) as u128;
        lemma_prefix_block_v6(n.bits(), x.bits(), s);
    } else {
        let nb = n.bits();
        let xb = x.bits();
        assert((nb & 0u128) <= xb && xb <= (nb | !0u128)) by (bit_vector);
    }
}

/// An address of one family is in no network of the other family.
pub proof fn law_network_family_must_match(net: IpNet, ip: IpAddr)
    requires
        (net.addr is V4 && ip is V6) || (net.addr is V6 && ip is V4),
    ensures
        !net.spec_contains(ip),
{
}

/// A `*.` certificate name covers a host name other than itself only when
/// the host name, both normalised, is one non-empty label without a dot in
/// front of the name's `.suffix`.
pub proof fn law_wildcard_covers_one_label(hostname: Seq<char>, pattern: Seq<char>)
    requires
        name_matches(hostname, pattern),
        normalized(hostname) != normalized(pattern),
    ensures
        ({
            let h = normalized(hostname);
            let p = normalized(pattern);
            let suffix = p.subrange(1, p.len() as int);
            &&& starts_with(p, seq!['*', '.'])
            &&& h.len() > suffix.len()
            &&& h.subrange(h.len() - suffix.len(), h.len() as int) == suffix
            &&& forall|i: int| 0 <= i < h.len() - suffix.len() ==> h[i] != '.'
        }),
{
    let h = normalized(hostname);
    let p = normalized(pattern);
    let suffix = p.subrange(1, p.len() as int);
    let prefix = h.subrange(0, h.len() - suffix.len());
    assert forall|i: int| 0 <= i < h.len() - suffix.len() implies h[i] != '.' by {
        assert(prefix[i] == h[i]);
        if h[i] == '.' {
            assert(prefix.contains('.'));
        }
    }
}

/// A host name that is one non-empty label without a dot in front of a
/// `*.` name's `.suffix` is covered by that name.
pub proof fn law_wildcard_covers_its_labels(hostname: Seq<char>, pattern: Seq<char>, label: Seq<char>)
    requires
        starts_with(normalized(pattern), seq!['*', '.']),
        label.len() > 0,
        forall|i: int| 0 <= i < label.len() ==> label[i] != '.',
        normalized(hostname) == label + normalized(pattern).subrange(1, normalized(pattern).len() as int),
    ensures
        name_matches(hostname, pattern),
{
    let h = normalized(hostname);
    let p = normalized(pattern);
    let suffix = p.subrange(1, p.len() as int);
    assert(h.subrange(0, h.len() - suffix.len()) =~= label);
    assert(h.subrange(h.len() - suffix.len(), h.len() as int) =~= suffix);
    assert(!label.contains('.'));
}

/// A successful API answer with ranges gives the result's IPv4 and IPv6
/// lists, each in its own place, and the result's ETag (else the header's).
pub proof fn law_api_ranges_kept_in_place(response: ApiResponse, header_etag: Option<String>)
    requires
        response.success,
        response.result is Some,
        !(response.result->0.ipv4_cidrs@.len() == 0 && response.result->0.ipv6_cidrs@.len() == 0),
    ensures
        api_outcome(response, header_etag) matches Ok((etag, v4, v6)) && v4 == response.result->0.ipv4_cidrs@
            && v6 == response.result->0.ipv6_cidrs@ && etag == match response.result->0.etag {
            Some(e) => Some(e),
            None => header_etag,
        },
{
}

/// A completed item's verdict is its probe's verdict, and each verdict count
/// grows by one exactly for an item whose probe gave that verdict.
pub proof fn law_item_verdict_is_probe_verdict(
    items: Seq<BatchItemResult>,
    item: BatchItemResult,
    class: DetectionClassification,
)
    ensures
        item.result is Some ==> crate::probe::batch::item_class(item) == Some(
            item.result->0.detection.classification,
        ),
        item.result is None ==> crate::probe::batch::item_class(item) is None,
        count_class(items.push(item), class) == count_class(items, class) + if item.result is Some
            && item.result->0.detection.classification == class {
            1nat
        } else {
            0nat
        },
{
    assert(items.push(item).drop_last() =~= items);
}

} // verus!
