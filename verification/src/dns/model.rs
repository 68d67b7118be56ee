//! DNS observations, the aggregated DNS detection and resolver health.

use vstd::prelude::*;

use std::time::Duration;
use std::time::Instant;

use crate::cloudflare::ranges::CloudflareRanges;
use crate::net::IpAddr;
use crate::time::{duration_nanos, duration_of_nanos, max_duration_nanos, nanos};

verus! {

#[verifier::external_type_specification]
#[verifier::external_body]
pub struct ExInstant(Instant);

/// The current instant of the monotonic clock; nothing is promised of it.
#[verifier::external_body]
pub fn instant_now() -> Instant {
    Instant::now()
}

/// `Duration`'s `+`, which panics when the sum exceeds the largest duration.
#[verifier::external_body]
pub fn duration_add(a: Duration, b: Duration) -> (r: Duration)
    requires
        nanos(a) + nanos(b) <= max_duration_nanos(),
    ensures
        nanos(r) == nanos(a) + nanos(b),
{
    a + b
}

/// One resolver's answer for one host name.
#[derive(Debug, Clone)]
pub struct ResolverObservation {
    pub resolver: String,
    pub success: bool,
    pub ips: Vec<IpAddr>,
    pub cname_chain: Vec<String>,
    pub duration: Duration,
    pub error: Option<String>,
    pub mx_records: Vec<(u16, String)>,
    pub txt_records: Vec<String>,
    pub ns_records: Vec<String>,
}

impl ResolverObservation {
    /// Some returned address is in Cloudflare's published ranges.
    pub fn has_cloudflare_ip(&self, ranges: &CloudflareRanges) -> (r: bool)
        ensures
            r == exists|j: int| 0 <= j < self.ips@.len() && ranges.spec_contains(#[trigger] self.ips@[j]),
    {
        let mut j: usize = 0;
        while j < self.ips.len()
            invariant
                j <= self.ips@.len(),
                forall|k: int| 0 <= k < j ==> !ranges.spec_contains(#[trigger] self.ips@[k]),
            decreases self.ips@.len() - j,
        {
            if ranges.contains(self.ips[j]) {
                return true;
            }
            j += 1;
        }
        false
    }

    /// The number of addresses returned.
    pub fn resolved_ip_count(&self) -> (r: usize)
        ensures
            r == self.ips@.len(),
    {
        self.ips.len()
    }
}

/// Classification of the DNS stage.
#[derive(Debug, Clone, Copy, PartialEq, Eq, Structural)]
pub enum DnsDetectionStatus {
    /// At least one resolver returned a Cloudflare address.
    CloudflareIp,
    /// Addresses were resolved, none of them in Cloudflare's ranges.
    NoCloudflareIp,
    /// Nothing was resolved.
    Unknown,
}

/// The DNS result aggregated over several resolvers.
#[derive(Debug, Clone)]
pub struct DnsDetection {
    pub hostname: String,
    pub normalized_hostname: String,
    pub observations: Vec<ResolverObservation>,
    pub union_ips: Vec<IpAddr>,
    pub cloudflare_ips: Vec<IpAddr>,
    pub cloudflare_resolver_count: usize,
    pub successful_resolver_count: usize,
    pub resolver_count: usize,
    pub all_resolvers_agree: bool,
    pub has_cloudflare_ip: bool,
    pub total_duration: Duration,
    pub status: DnsDetectionStatus,
    pub mx_records: Vec<(u16, String)>,
    pub txt_records: Vec<String>,
    pub ns_records: Vec<String>,
    pub cname_chain: Vec<String>,
}

impl DnsDetection {
    pub fn has_mx(&self) -> (r: bool)
        ensures
            r == (self.mx_records@.len() > 0),
    {
        !self.mx_records.is_empty()
    }

    pub fn has_txt(&self) -> (r: bool)
        ensures
            r == (self.txt_records@.len() > 0),
    {
        !self.txt_records.is_empty()
    }

    pub fn has_ns(&self) -> (r: bool)
        ensures
            r == (self.ns_records@.len() > 0),
    {
        !self.ns_records.is_empty()
    }

    pub fn has_cname(&self) -> (r: bool)
        ensures
            r == (self.cname_chain@.len() > 0),
    {
        !self.cname_chain.is_empty()
    }

    /// Every expected address was resolved, and at least one was expected.
    pub fn ips_match_targets(&self, expected_ips: &[IpAddr]) -> (r: bool)
        ensures
            r == (expected_ips@.len() > 0 && forall|i: int|
                0 <= i < expected_ips@.len() ==> self.union_ips@.contains(#[trigger] expected_ips@[i])),
    {
        if expected_ips.len() == 0 {
            return false;
        }
        let mut k: usize = 0;
        while k < expected_ips.len()
            invariant
                k <= expected_ips@.len(),
                forall|i: int| 0 <= i < k ==> self.union_ips@.contains(#[trigger] expected_ips@[i]),
            decreases expected_ips@.len() - k,
        {
            if !contains_ip(&self.union_ips, &expected_ips[k]) {
                return false;
            }
            k += 1;
        }
        true
    }
}

/// The address occurs in the list.
pub fn contains_ip(ips: &Vec<IpAddr>, ip: &IpAddr) -> (r: bool)
    ensures
        r == ips@.contains(*ip),
{
    let mut k: usize = 0;
    while k < ips.len()
        invariant
            k <= ips@.len(),
            forall|m: int| 0 <= m < k ==> ips@[m] != *ip,
        decreases ips@.len() - k,
    {
        if ips[k].equals(ip) {
            return true;
        }
        k += 1;
    }
    false
}

/// Settings of the in-memory cache of DNS answers.
#[derive(Debug, Clone)]
pub struct DnsCacheConfig {
    /// How long an answer stays usable.
    pub ttl: Duration,
    /// The number of answers kept per record type.
    pub max_entries: usize,
    /// How often expired answers are swept out, if at all.
    pub eviction_interval: Option<Duration>,
}

impl Default for DnsCacheConfig {
    /// Five minutes, ten thousand answers, no periodic sweep.
    fn default() -> (r: Self)
        ensures
            nanos(r.ttl) == 300 * 1_000_000_000,
            r.max_entries == 10_000,
            r.eviction_interval is None,
    {
        DnsCacheConfig {
            ttl: crate::time::duration_from_secs(300),
            max_entries: 10_000,
            eviction_interval: None,
        }
    }
}

/// Success and failure counts of one resolver.
#[derive(Debug, Clone)]
pub struct ResolverHealth {
    pub success_count: u64,
    pub failure_count: u64,
    pub total_duration: Duration,
    pub last_success: Option<Instant>,
    pub last_failure: Option<Instant>,
}

impl Default for ResolverHealth {
    /// No queries recorded.
    fn default() -> (r: Self)
        ensures
            r.success_count == 0 && r.failure_count == 0 && nanos(r.total_duration) == 0,
            r.last_success is None && r.last_failure is None,
    {
        ResolverHealth {
            success_count: 0,
            failure_count: 0,
            total_duration: crate::time::duration_from_nanos(0),
            last_success: None,
            last_failure: None,
        }
    }
}

impl ResolverHealth {
    /// Fewer than three queries, or at least half of them succeeded.
    pub open spec fn spec_is_healthy(self) -> bool {
        let total = self.success_count + self.failure_count;
        total < 3 || 2 * self.success_count >= total
    }

    pub fn is_healthy(&self) -> (r: bool)
        ensures
            r == self.spec_is_healthy(),
    {
        let s = self.success_count as u128;
        let total = s + self.failure_count as u128;
        if total < 3 {
            return true;
        }
        2 * s >= total
    }

    /// Records one successful query of the given duration.
    pub fn record_success(&mut self, duration: Duration)
        requires
            old(self).success_count < u64::MAX,
            nanos(old(self).total_duration) + nanos(duration) <= max_duration_nanos(),
        ensures
            final(self).success_count == old(self).success_count + 1,
            final(self).failure_count == old(self).failure_count,
            nanos(final(self).total_duration) == nanos(old(self).total_duration) + nanos(duration),
            final(self).last_success is Some,
            final(self).last_failure == old(self).last_failure,
    {
        self.success_count = self.success_count + 1;
        self.total_duration = duration_add(self.total_duration, duration);
        self.last_success = Some(instant_now());
    }

    /// Records one failed query.
    pub fn record_failure(&mut self)
        requires
            old(self).failure_count < u64::MAX,
        ensures
            final(self).failure_count == old(self).failure_count + 1,
            final(self).success_count == old(self).success_count,
            final(self).total_duration == old(self).total_duration,
            final(self).last_failure is Some,
            final(self).last_success == old(self).last_success,
    {
        self.failure_count = self.failure_count + 1;
        self.last_failure = Some(instant_now());
    }

    /// The mean duration of the successful queries, rounded down to whole
    /// nanoseconds (zero when none succeeded).
    pub fn avg_duration(&self) -> (r: Duration)
        ensures
            self.success_count == 0 ==> nanos(r) == 0,
            self.success_count > 0 ==> nanos(r) == nanos(self.total_duration) / (self.success_count as nat),
    {
        if self.success_count == 0 {
            return duration_of_nanos(0);
        }
        let total: u128 = duration_nanos(&self.total_duration);
        let avg: u128 = total / (self.success_count as u128);
        assert(avg <= total) by (nonlinear_arith)
            requires
                avg == total / (self.success_count as u128),
                self.success_count > 0,
        ;
        duration_of_nanos(avg)
    }
}

} // verus!
