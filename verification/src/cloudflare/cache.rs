//! The decisions of the ranges cache: when a cached copy is fresh or still
//! usable after an error, when a file on disk is trusted, and what a
//! refresh ends with.

use vstd::prelude::*;

use std::time::Duration;

use crate::cloudflare::client::{CloudflareApiRanges, CloudflareFetchResult};
use crate::cloudflare::ranges::{CloudflareRanges, parse_all};
use crate::error::{CfProbeError, ErrorView};
use crate::text::{concat2, copy_str, decimal, decimal_exec, texts};
use crate::time::{duration_from_millis, duration_from_secs, duration_nanos, nanos};

verus! {

/// The version of the cache file layout.
pub const CACHE_SCHEMA_VERSION: u32 = 2;

/// Freshness, stale-if-error window and lock waiting of the cache.
#[derive(Debug, Clone)]
pub struct CacheConfig {
    /// How long a copy counts as fresh.
    pub refresh_interval: Duration,
    /// How old a copy may be to stand in when the network fails.
    pub stale_if_error: Duration,
    /// Longest wait for another process's refresh.
    pub lock_timeout: Duration,
    /// Pause between two tries of the file lock.
    pub lock_retry_interval: Duration,
}

impl Default for CacheConfig {
    /// Fresh for a day, usable for a week after an error, 30 s lock wait,
    /// 100 ms between tries.
    fn default() -> (r: Self)
        ensures
            nanos(r.refresh_interval) == 86_400_000_000_000,
            nanos(r.stale_if_error) == 604_800_000_000_000,
            nanos(r.lock_timeout) == 30_000_000_000,
            nanos(r.lock_retry_interval) == 100_000_000,
    {
        CacheConfig {
            refresh_interval: duration_from_secs(24 * 60 * 60),
            stale_if_error: duration_from_secs(7 * 24 * 60 * 60),
            lock_timeout: duration_from_secs(30),
            lock_retry_interval: duration_from_millis(100),
        }
    }
}

/// Where a set of ranges came from.
#[derive(Debug, Clone, Copy, PartialEq, Eq, Structural)]
pub enum CacheSource {
    Memory,
    Disk,
    Network,
    NotModified,
    StaleFallback,
}

/// The cache file: layout version, fetch time in milliseconds since the
/// UNIX epoch, ETag and the CIDR lists.
#[derive(Debug, Clone)]
pub struct CacheFile {
    pub schema_version: u32,
    pub fetched_at_unix_ms: i64,
    pub etag: Option<String>,
    pub ipv4_cidrs: Vec<String>,
    pub ipv6_cidrs: Vec<String>,
}

/// Age of a copy in nanoseconds at the instant `now` (nanoseconds since the
/// UNIX epoch); none for a negative fetch time or one in the future.
pub open spec fn cache_age(c: CacheFile, now: nat) -> Option<nat> {
    if c.fetched_at_unix_ms < 0 {
        None
    } else {
        let fetched = c.fetched_at_unix_ms as nat * 1_000_000;
        if now >= fetched {
            Some((now - fetched) as nat)
        } else {
            None
        }
    }
}

pub open spec fn age_within(c: CacheFile, now: nat, limit: Duration) -> bool {
    cache_age(c, now) matches Some(a) && a <= nanos(limit)
}

impl CacheFile {
    /// `cache_age`.
    pub fn age(&self, now: u128) -> (r: Option<u128>)
        ensures
            match cache_age(*self, now as nat) {
                Some(a) => r == Some(a as u128),
                None => r is None,
            },
    {
        if self.fetched_at_unix_ms < 0 {
            return None;
        }
        let fetched: u128 = (self.fetched_at_unix_ms as u128) * 1_000_000;
        if now >= fetched {
            Some(now - fetched)
        } else {
            None
        }
    }

    /// The fetch time in milliseconds, when it is not negative.
    pub fn fetched_at(&self) -> (r: Option<u64>)
        ensures
            r == if self.fetched_at_unix_ms < 0 {
                None::<u64>
            } else {
                Some(self.fetched_at_unix_ms as u64)
            },
    {
        if self.fetched_at_unix_ms < 0 {
            None
        } else {
            Some(self.fetched_at_unix_ms as u64)
        }
    }
}

fn within(c: &CacheFile, now: u128, limit: &Duration) -> (r: bool)
    ensures
        r == age_within(*c, now as nat, *limit),
{
    match c.age(now) {
        Some(a) => a <= duration_nanos(limit),
        None => false,
    }
}

/// The copy is at most `refresh_interval` old.
pub fn is_fresh(c: &CacheFile, now: u128, config: &CacheConfig) -> (r: bool)
    ensures
        r == age_within(*c, now as nat, config.refresh_interval),
{
    within(c, now, &config.refresh_interval)
}

/// The copy is at most `stale_if_error` old.
pub fn is_stale_usable(c: &CacheFile, now: u128, config: &CacheConfig) -> (r: bool)
    ensures
        r == age_within(*c, now as nat, config.stale_if_error),
{
    within(c, now, &config.stale_if_error)
}

/// A file read from disk is trusted: current layout, some range, and every
/// CIDR parses.
pub open spec fn trusted_cache_file(c: CacheFile) -> bool {
    &&& c.schema_version == CACHE_SCHEMA_VERSION
    &&& !(c.ipv4_cidrs@.len() == 0 && c.ipv6_cidrs@.len() == 0)
    &&& parse_all(texts(c.ipv4_cidrs@)) is Ok
    &&& parse_all(texts(c.ipv6_cidrs@)) is Ok
}

fn copy_strings(v: &Vec<String>) -> (r: Vec<String>)
    ensures
        r@ == v@,
{
    let mut r: Vec<String> = Vec::new();
    let mut k: usize = 0;
    while k < v.len()
        invariant
            k <= v@.len(),
            r@ == v@.subrange(0, k as int),
        decreases v@.len() - k,
    {
        r.push(v[k].clone());
        k += 1;
        assert(r@ =~= v@.subrange(0, k as int));
    }
    assert(r@ =~= v@);
    r
}

pub(crate) fn copy_etag(e: &Option<String>) -> (r: Option<String>)
    ensures
        r == *e,
{
    match e {
        Some(s) => Some(s.clone()),
        None => None,
    }
}

/// Checks `trusted_cache_file`; a file that fails is to be removed.
pub fn cache_file_trusted(c: &CacheFile) -> (r: bool)
    ensures
        r == trusted_cache_file(*c),
{
    if c.schema_version != CACHE_SCHEMA_VERSION {
        return false;
    }
    if c.ipv4_cidrs.len() == 0 && c.ipv6_cidrs.len() == 0 {
        return false;
    }
    let parsed = CloudflareRanges::new(copy_strings(&c.ipv4_cidrs), copy_strings(&c.ipv6_cidrs), copy_etag(&c.etag));
    parsed.is_ok()
}

/// The ranges of a cached copy, with its fetch time: refused with the
/// file's path when its layout is not current, with the CIDR error when a
/// CIDR does not parse, and with the path when its fetch time is negative.
pub fn ranges_from_cache(c: &CacheFile, path: &str) -> (r: Result<(CloudflareRanges, u64), CfProbeError>)
    ensures
        c.schema_version != CACHE_SCHEMA_VERSION ==> (r matches Err(e) && e@ == (ErrorView::CacheCorrupted {
            path: path@,
            reason: "unsupported schema version "@ + decimal(c.schema_version as nat),
        })),
        c.schema_version == CACHE_SCHEMA_VERSION ==> match (
            parse_all(texts(c.ipv4_cidrs@)),
            parse_all(texts(c.ipv6_cidrs@)),
        ) {
            (Err((v, e)), _) => r matches Err(x) && x@ == (ErrorView::InvalidCidr { value: v, reason: e }),
            (Ok(_), Err((v, e))) => r matches Err(x) && x@ == (ErrorView::InvalidCidr { value: v, reason: e }),
            (Ok(a), Ok(b)) => if c.fetched_at_unix_ms < 0 {
                r matches Err(x) && x@ == (ErrorView::CacheCorrupted {
                    path: path@,
                    reason: "invalid timestamp"@,
                })
            } else {
                r matches Ok((rs, ms)) && rs.v4_nets() == a && rs.v6_nets() == b && rs.etag_text()
                    == match c.etag {
                    Some(e) => Some(e@),
                    None => None::<Seq<char>>,
                } && ms == c.fetched_at_unix_ms
            },
        },
{
    if c.schema_version != CACHE_SCHEMA_VERSION {
        let d = decimal_exec(c.schema_version as u64);
        return Err(
            CfProbeError::CacheCorrupted {
                path: copy_str(path),
                reason: concat2("unsupported schema version ", d.as_str()),
            },
        );
    }
    let ranges = CloudflareRanges::new(copy_strings(&c.ipv4_cidrs), copy_strings(&c.ipv6_cidrs), copy_etag(&c.etag))?;
    match c.fetched_at() {
        Some(ms) => Ok((ranges, ms)),
        None => Err(CfProbeError::CacheCorrupted { path: copy_str(path), reason: copy_str("invalid timestamp") }),
    }
}

/// The copy kept to stand in for a failed fetch: the disk copy when it is
/// still usable.
pub fn stale_candidate(disk: Option<CacheFile>, now: u128, config: &CacheConfig) -> (r: Option<CacheFile>)
    ensures
        r == match disk {
            Some(c) => if age_within(c, now as nat, config.stale_if_error) {
                Some(c)
            } else {
                None::<CacheFile>
            },
            None => None::<CacheFile>,
        },
{
    match disk {
        Some(c) => {
            if is_stale_usable(&c, now, config) {
                Some(c)
            } else {
                None
            }
        },
        None => None,
    }
}

/// How a fetch ended.
pub enum FetchOutcome {
    Fetched(CloudflareFetchResult),
    Failed(CfProbeError),
}

/// What a refresh ends with: the copy to keep (to write back and install)
/// and its source, or the error. A 304 renews the stand-in copy's fetch time
/// (and is an error without one); new ranges make a new copy; a failed
/// fetch falls back to the stand-in copy, or fails.
pub fn settle_refresh(stale: Option<CacheFile>, outcome: FetchOutcome, now_ms: i64) -> (r: Result<
    (CacheFile, CacheSource),
    CfProbeError,
>)
    ensures
        match outcome {
            FetchOutcome::Fetched(CloudflareFetchResult::NotModified) => match stale {
                None => r matches Err(e) && e@ == ErrorView::InvalidResponse(
                    "Cloudflare returned 304 but local cache is unavailable"@,
                ),
                Some(s) => r matches Ok((c, src)) && src == CacheSource::NotModified && c
                    == (CacheFile { fetched_at_unix_ms: now_ms, schema_version: CACHE_SCHEMA_VERSION, ..s }),
            },
            FetchOutcome::Fetched(CloudflareFetchResult::Updated(remote)) => r matches Ok((c, src))
                && src == CacheSource::Network && c == (CacheFile {
                schema_version: CACHE_SCHEMA_VERSION,
                fetched_at_unix_ms: now_ms,
                etag: remote.etag,
                ipv4_cidrs: remote.ipv4_cidrs,
                ipv6_cidrs: remote.ipv6_cidrs,
            }),
            FetchOutcome::Failed(e) => match stale {
                Some(s) => r matches Ok((c, src)) && src == CacheSource::StaleFallback && c == s,
                None => r == Err::<(CacheFile, CacheSource), CfProbeError>(e),
            },
        },
{
    match outcome {
        FetchOutcome::Fetched(CloudflareFetchResult::NotModified) => match stale {
            None => Err(CfProbeError::invalid(copy_str("Cloudflare returned 304 but local cache is unavailable"))),
            Some(s) => Ok(
                (
                    CacheFile { fetched_at_unix_ms: now_ms, schema_version: CACHE_SCHEMA_VERSION, ..s },
                    CacheSource::NotModified,
                ),
            ),
        },
        FetchOutcome::Fetched(CloudflareFetchResult::Updated(remote)) => Ok(
            (
                CacheFile {
                    schema_version: CACHE_SCHEMA_VERSION,
                    fetched_at_unix_ms: now_ms,
                    etag: remote.etag,
                    ipv4_cidrs: remote.ipv4_cidrs,
                    ipv6_cidrs: remote.ipv6_cidrs,
                },
                CacheSource::Network,
            ),
        ),
        FetchOutcome::Failed(e) => match stale {
            Some(s) => Ok((s, CacheSource::StaleFallback)),
            None => Err(e),
        },
    }
}

} // verus!
