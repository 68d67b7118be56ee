//! The HTTP API's rules: its configuration, the request counters and
//! their text exposition, credential checks, request ids, the preparation
//! of a scan and the mapping of errors to answers.

use vstd::prelude::*;
use vstd::utf8::encode_utf8;
use vstd::wrapping::u64_specs::wrapping_add;

use crate::error::{CfProbeError, ErrorView};
use crate::evidence::model::DetectionClassification;
use crate::net::{IpAddr, Ipv4Addr};
use crate::probe::batch::{BatchResult, BatchScanConfig};
use crate::probe::target::Target;
use crate::text::{chars_of, concat2, copy_str, decimal, decimal_exec, push_str, starts_with, starts_with_exec, string_of, sub_vec};
use crate::time::{duration_from_millis, nanos};

verus! {

/// An IP address and a port to listen on.
#[derive(Debug, Clone, Copy, PartialEq, Eq, Structural)]
pub struct ListenAddress {
    pub ip: IpAddr,
    pub port: u16,
}

/// The API server's settings.
#[derive(Debug, Clone)]
pub struct ServerConfig {
    pub listen: ListenAddress,
    /// Bearer API key; required when listening on a wildcard address.
    pub api_key: Option<String>,
    /// Largest request body.
    pub max_body_bytes: usize,
    /// Largest number of targets of one scan request.
    pub max_batch_targets: usize,
    /// Concurrency of a scan that names none.
    pub default_concurrency: usize,
    /// Per-target timeout (ms) of a scan that names none.
    pub default_target_timeout_ms: u64,
    /// Start rate of a scan that names none; `None` for no limit.
    pub default_requests_per_second: Option<u32>,
}

impl Default for ServerConfig {
    /// 127.0.0.1:8080, no key, 1 MiB bodies, 1000 targets, concurrency 32,
    /// 30 s timeout, no rate limit.
    fn default() -> (r: Self)
        ensures
            r.listen == (ListenAddress { ip: IpAddr::V4(Ipv4Addr { a: 127, b: 0, c: 0, d: 1 }), port: 8080 }),
            r.api_key is None,
            r.max_body_bytes == 1024 * 1024,
            r.max_batch_targets == 1000,
            r.default_concurrency == 32,
            r.default_target_timeout_ms == 30_000,
            r.default_requests_per_second is None,
    {
        ServerConfig {
            listen: ListenAddress { ip: IpAddr::V4(Ipv4Addr { a: 127, b: 0, c: 0, d: 1 }), port: 8080 },
            api_key: None,
            max_body_bytes: 1024 * 1024,
            max_batch_targets: 1000,
            default_concurrency: 32,
            default_target_timeout_ms: 30_000,
            default_requests_per_second: None,
        }
    }
}

/// The unspecified address of its family (`0.0.0.0` or `::`).
pub open spec fn is_wildcard(ip: IpAddr) -> bool {
    match ip {
        IpAddr::V4(v) => v.spec_is_unspecified(),
        IpAddr::V6(v) => v.spec_is_unspecified(),
    }
}

impl ServerConfig {
    /// The first problem of the settings, if any.
    pub open spec fn problem(self) -> Option<Seq<char>> {
        if self.max_body_bytes == 0 {
            Some("max_body_bytes cannot be 0"@)
        } else if self.max_batch_targets == 0 {
            Some("max_batch_targets cannot be 0"@)
        } else if self.default_concurrency == 0 {
            Some("default_concurrency cannot be 0"@)
        } else if self.default_target_timeout_ms == 0 {
            Some("default_target_timeout_ms cannot be 0"@)
        } else if self.default_requests_per_second == Some(0u32) {
            Some("default_requests_per_second cannot be 0"@)
        } else if is_wildcard(self.listen.ip) && self.api_key is None {
            Some("an API key is required when binding to a wildcard address"@)
        } else {
            None
        }
    }

    /// Non-zero limits, and a key when listening on a wildcard address.
    pub fn validate(&self) -> (r: Result<(), String>)
        ensures
            match self.problem() {
                None => r is Ok,
                Some(m) => r matches Err(e) && e@ == m,
            },
    {
        if self.max_body_bytes == 0 {
            return Err(copy_str("max_body_bytes cannot be 0"));
        }
        if self.max_batch_targets == 0 {
            return Err(copy_str("max_batch_targets cannot be 0"));
        }
        if self.default_concurrency == 0 {
            return Err(copy_str("default_concurrency cannot be 0"));
        }
        if self.default_target_timeout_ms == 0 {
            return Err(copy_str("default_target_timeout_ms cannot be 0"));
        }
        if let Some(rps) = self.default_requests_per_second {
            if rps == 0 {
                return Err(copy_str("default_requests_per_second cannot be 0"));
            }
        }
        let wildcard = match &self.listen.ip {
            IpAddr::V4(v) => v.is_unspecified(),
            IpAddr::V6(v) => v.is_unspecified(),
        };
        if wildcard && self.api_key.is_none() {
            return Err(copy_str("an API key is required when binding to a wildcard address"));
        }
        Ok(())
    }
}

/// The server's request and target counters (each wraps around as an
/// atomic `u64` counter does).
#[derive(Debug, Clone, Copy, PartialEq, Eq, Structural)]
pub struct ServerMetrics {
    pub requests_total: u64,
    pub requests_failed: u64,
    pub probe_requests_total: u64,
    pub scan_requests_total: u64,
    pub targets_total: u64,
    pub targets_completed: u64,
    pub targets_failed: u64,
    pub targets_timed_out: u64,
    pub targets_cancelled: u64,
    pub cloudflare_total: u64,
    pub not_cloudflare_total: u64,
    pub unknown_total: u64,
    pub in_flight: u64,
}

impl Default for ServerMetrics {
    fn default() -> (r: Self)
        ensures
            r == ServerMetrics::zero(),
    {
        ServerMetrics {
            requests_total: 0,
            requests_failed: 0,
            probe_requests_total: 0,
            scan_requests_total: 0,
            targets_total: 0,
            targets_completed: 0,
            targets_failed: 0,
            targets_timed_out: 0,
            targets_cancelled: 0,
            cloudflare_total: 0,
            not_cloudflare_total: 0,
            unknown_total: 0,
            in_flight: 0,
        }
    }
}

/// `wrapping_sub` of one, as an atomic `fetch_sub(1)` does.
pub open spec fn wrapping_decrement(x: u64) -> u64 {
    if x == 0 {
        u64::MAX
    } else {
        (x - 1) as u64
    }
}

impl ServerMetrics {
    pub open spec fn zero() -> ServerMetrics {
        ServerMetrics {
            requests_total: 0,
            requests_failed: 0,
            probe_requests_total: 0,
            scan_requests_total: 0,
            targets_total: 0,
            targets_completed: 0,
            targets_failed: 0,
            targets_timed_out: 0,
            targets_cancelled: 0,
            cloudflare_total: 0,
            not_cloudflare_total: 0,
            unknown_total: 0,
            in_flight: 0,
        }
    }

    /// One more request, and one more in flight.
    pub fn on_request_start(&mut self)
        ensures
            *final(self) == (ServerMetrics {
                requests_total: wrapping_add(old(self).requests_total, 1),
                in_flight: wrapping_add(old(self).in_flight, 1),
                ..*old(self)
            }),
    {
        self.requests_total = self.requests_total.wrapping_add(1);
        self.in_flight = self.in_flight.wrapping_add(1);
    }

    /// One request fewer in flight.
    pub fn on_request_end(&mut self)
        ensures
            *final(self) == (ServerMetrics { in_flight: wrapping_decrement(old(self).in_flight), ..*old(self) }),
    {
        self.in_flight = if self.in_flight == 0 {
            u64::MAX
        } else {
            self.in_flight - 1
        };
    }

    /// One more failed request.
    pub fn on_request_failed(&mut self)
        ensures
            *final(self) == (ServerMetrics {
                requests_failed: wrapping_add(old(self).requests_failed, 1),
                ..*old(self)
            }),
    {
        self.requests_failed = self.requests_failed.wrapping_add(1);
    }

    /// One more verdict of the given kind.
    pub fn record_classification(&mut self, classification: DetectionClassification)
        ensures
            *final(self) == match classification {
                DetectionClassification::Cloudflare => ServerMetrics {
                    cloudflare_total: wrapping_add(old(self).cloudflare_total, 1),
                    ..*old(self)
                },
                DetectionClassification::NotCloudflare => ServerMetrics {
                    not_cloudflare_total: wrapping_add(old(self).not_cloudflare_total, 1),
                    ..*old(self)
                },
                DetectionClassification::Unknown => ServerMetrics {
                    unknown_total: wrapping_add(old(self).unknown_total, 1),
                    ..*old(self)
                },
            },
    {
        match classification {
            DetectionClassification::Cloudflare => {
                self.cloudflare_total = self.cloudflare_total.wrapping_add(1);
            },
            DetectionClassification::NotCloudflare => {
                self.not_cloudflare_total = self.not_cloudflare_total.wrapping_add(1);
            },
            DetectionClassification::Unknown => {
                self.unknown_total = self.unknown_total.wrapping_add(1);
            },
        }
    }

    /// A finished single probe: one probe request, one target, its verdict.
    pub fn on_probe(&mut self, classification: DetectionClassification)
        ensures
            final(self).probe_requests_total == wrapping_add(old(self).probe_requests_total, 1),
            final(self).targets_total == wrapping_add(old(self).targets_total, 1),
            final(self).cloudflare_total == if classification == DetectionClassification::Cloudflare {
                wrapping_add(old(self).cloudflare_total, 1)
            } else {
                old(self).cloudflare_total
            },
            final(self).not_cloudflare_total == if classification == DetectionClassification::NotCloudflare {
                wrapping_add(old(self).not_cloudflare_total, 1)
            } else {
                old(self).not_cloudflare_total
            },
            final(self).unknown_total == if classification == DetectionClassification::Unknown {
                wrapping_add(old(self).unknown_total, 1)
            } else {
                old(self).unknown_total
            },
            final(self).requests_total == old(self).requests_total,
            final(self).requests_failed == old(self).requests_failed,
            final(self).scan_requests_total == old(self).scan_requests_total,
            final(self).targets_completed == old(self).targets_completed,
            final(self).targets_failed == old(self).targets_failed,
            final(self).targets_timed_out == old(self).targets_timed_out,
            final(self).targets_cancelled == old(self).targets_cancelled,
            final(self).in_flight == old(self).in_flight,
    {
        self.probe_requests_total = self.probe_requests_total.wrapping_add(1);
        self.targets_total = self.targets_total.wrapping_add(1);
        self.record_classification(classification);
    }

    /// A finished scan: one scan request, and its counts added.
    pub fn on_batch(&mut self, result: &BatchResult)
        ensures
            *final(self) == (ServerMetrics {
                scan_requests_total: wrapping_add(old(self).scan_requests_total, 1),
                targets_total: wrapping_add(old(self).targets_total, result.total as u64),
                targets_completed: wrapping_add(old(self).targets_completed, result.completed as u64),
                targets_failed: wrapping_add(old(self).targets_failed, result.failed as u64),
                targets_timed_out: wrapping_add(old(self).targets_timed_out, result.timed_out as u64),
                targets_cancelled: wrapping_add(old(self).targets_cancelled, result.cancelled as u64),
                cloudflare_total: wrapping_add(old(self).cloudflare_total, result.cloudflare as u64),
                not_cloudflare_total: wrapping_add(old(self).not_cloudflare_total, result.not_cloudflare as u64),
                unknown_total: wrapping_add(old(self).unknown_total, result.unknown as u64),
                ..*old(self)
            }),
    {
        self.scan_requests_total = self.scan_requests_total.wrapping_add(1);
        self.targets_total = self.targets_total.wrapping_add(result.total as u64);
        self.targets_completed = self.targets_completed.wrapping_add(result.completed as u64);
        self.targets_failed = self.targets_failed.wrapping_add(result.failed as u64);
        self.targets_timed_out = self.targets_timed_out.wrapping_add(result.timed_out as u64);
        self.targets_cancelled = self.targets_cancelled.wrapping_add(result.cancelled as u64);
        self.cloudflare_total = self.cloudflare_total.wrapping_add(result.cloudflare as u64);
        self.not_cloudflare_total = self.not_cloudflare_total.wrapping_add(result.not_cloudflare as u64);
        self.unknown_total = self.unknown_total.wrapping_add(result.unknown as u64);
    }

    /// The Prometheus text exposition of the counters.
    pub open spec fn exposition(self) -> Seq<char> {
        "# TYPE cfprobe_requests_total counter\ncfprobe_requests_total "@ + decimal(self.requests_total as nat)
            + "\n\n# TYPE cfprobe_requests_failed_total counter\ncfprobe_requests_failed_total "@
            + decimal(self.requests_failed as nat)
            + "\n\n# TYPE cfprobe_probe_requests_total counter\ncfprobe_probe_requests_total "@
            + decimal(self.probe_requests_total as nat)
            + "\n\n# TYPE cfprobe_scan_requests_total counter\ncfprobe_scan_requests_total "@
            + decimal(self.scan_requests_total as nat)
            + "\n\n# TYPE cfprobe_targets_total counter\ncfprobe_targets_total "@ + decimal(
            self.targets_total as nat,
        ) + "\n\n# TYPE cfprobe_targets_completed_total counter\ncfprobe_targets_completed_total "@
            + decimal(self.targets_completed as nat)
            + "\n\n# TYPE cfprobe_targets_failed_total counter\ncfprobe_targets_failed_total "@
            + decimal(self.targets_failed as nat)
            + "\n\n# TYPE cfprobe_targets_timed_out_total counter\ncfprobe_targets_timed_out_total "@
            + decimal(self.targets_timed_out as nat)
            + "\n\n# TYPE cfprobe_targets_cancelled_total counter\ncfprobe_targets_cancelled_total "@
            + decimal(self.targets_cancelled as nat)
            + "\n\n# TYPE cfprobe_cloudflare_total counter\ncfprobe_cloudflare_total "@ + decimal(
            self.cloudflare_total as nat,
        ) + "\n\n# TYPE cfprobe_not_cloudflare_total counter\ncfprobe_not_cloudflare_total "@
            + decimal(self.not_cloudflare_total as nat)
            + "\n\n# TYPE cfprobe_unknown_total counter\ncfprobe_unknown_total "@ + decimal(
            self.unknown_total as nat,
        ) + "\n\n# TYPE cfprobe_requests_in_flight gauge\ncfprobe_requests_in_flight "@ + decimal(
            self.in_flight as nat,
        ) + "\n"@
    }

    pub fn render_prometheus(&self) -> (r: String)
        ensures
            r@ == self.exposition(),
    {
        let mut r = copy_str("# TYPE cfprobe_requests_total counter\ncfprobe_requests_total ");
        let d = decimal_exec(self.requests_total);
        push_str(&mut r, d.as_str());
        push_str(&mut r, "\n\n# TYPE cfprobe_requests_failed_total counter\ncfprobe_requests_failed_total ");
        let d = decimal_exec(self.requests_failed);
        push_str(&mut r, d.as_str());
        push_str(&mut r, "\n\n# TYPE cfprobe_probe_requests_total counter\ncfprobe_probe_requests_total ");
        let d = decimal_exec(self.probe_requests_total);
        push_str(&mut r, d.as_str());
        push_str(&mut r, "\n\n# TYPE cfprobe_scan_requests_total counter\ncfprobe_scan_requests_total ");
        let d = decimal_exec(self.scan_requests_total);
        push_str(&mut r, d.as_str());
        push_str(&mut r, "\n\n# TYPE cfprobe_targets_total counter\ncfprobe_targets_total ");
        let d = decimal_exec(self.targets_total);
        push_str(&mut r, d.as_str());
        push_str(&mut r, "\n\n# TYPE cfprobe_targets_completed_total counter\ncfprobe_targets_completed_total ");
        let d = decimal_exec(self.targets_completed);
        push_str(&mut r, d.as_str());
        push_str(&mut r, "\n\n# TYPE cfprobe_targets_failed_total counter\ncfprobe_targets_failed_total ");
        let d = decimal_exec(self.targets_failed);
        push_str(&mut r, d.as_str());
        push_str(&mut r, "\n\n# TYPE cfprobe_targets_timed_out_total counter\ncfprobe_targets_timed_out_total ");
        let d = decimal_exec(self.targets_timed_out);
        push_str(&mut r, d.as_str());
        push_str(&mut r, "\n\n# TYPE cfprobe_targets_cancelled_total counter\ncfprobe_targets_cancelled_total ");
        let d = decimal_exec(self.targets_cancelled);
        push_str(&mut r, d.as_str());
        push_str(&mut r, "\n\n# TYPE cfprobe_cloudflare_total counter\ncfprobe_cloudflare_total ");
        let d = decimal_exec(self.cloudflare_total);
        push_str(&mut r, d.as_str());
        push_str(&mut r, "\n\n# TYPE cfprobe_not_cloudflare_total counter\ncfprobe_not_cloudflare_total ");
        let d = decimal_exec(self.not_cloudflare_total);
        push_str(&mut r, d.as_str());
        push_str(&mut r, "\n\n# TYPE cfprobe_unknown_total counter\ncfprobe_unknown_total ");
        let d = decimal_exec(self.unknown_total);
        push_str(&mut r, d.as_str());
        push_str(&mut r, "\n\n# TYPE cfprobe_requests_in_flight gauge\ncfprobe_requests_in_flight ");
        let d = decimal_exec(self.in_flight);
        push_str(&mut r, d.as_str());
        push_str(&mut r, "\n");
        r
    }
}

/// Compares two byte strings without stopping at the first difference.
pub fn constant_time_eq(left: &[u8], right: &[u8]) -> (r: bool)
    ensures
        r == (left@ == right@),
{
    if left.len() != right.len() {
        return false;
    }
    let mut difference: u8 = 0;
    let mut i: usize = 0;
    while i < left.len()
        invariant
            i <= left@.len(),
            left@.len() == right@.len(),
            (difference == 0) == (forall|j: int| 0 <= j < i ==> left@[j] == right@[j]),
        decreases left@.len() - i,
    {
        let a = left[i];
        let b = right[i];
        proof {
            assert((difference | (a ^ b)) == 0u8 <==> (difference == 0u8 && a == b)) by (bit_vector);
        }
        difference = difference | (a ^ b);
        i += 1;
    }
    proof {
        if difference == 0 {
            assert(left@ =~= right@);
        }
    }
    difference == 0
}

/// The credentials are accepted: no key is configured, or the
/// `Authorization` header is `Bearer ` and the key, or the `X-API-Key`
/// header is the key (compared as bytes).
pub open spec fn authorized(api_key: Option<String>, authorization: Option<String>, x_api_key: Option<String>) -> bool {
    match api_key {
        None => true,
        Some(key) => {
            ||| (authorization matches Some(a) && starts_with(a@, "Bearer "@) && encode_utf8(a@.skip(7))
                == encode_utf8(key@))
            ||| (x_api_key matches Some(x) && encode_utf8(x@) == encode_utf8(key@))
        },
    }
}

/// Checks the credentials of a request; see `authorized`. The header values
/// are those that are visible text.
pub fn authorize(api_key: &Option<String>, authorization: &Option<String>, x_api_key: &Option<String>) -> (r: bool)
    ensures
        r == authorized(*api_key, *authorization, *x_api_key),
{
    let key = match api_key {
        None => {
            return true;
        },
        Some(k) => k,
    };
    let expected = key.as_str().as_bytes();
    let bearer = match authorization {
        Some(a) => {
            let cs = chars_of(a.as_str());
            let prefix = chars_of("Bearer ");
            proof {
                reveal_strlit("Bearer ");
            }
            if starts_with_exec(cs.as_slice(), prefix.as_slice()) {
                let rest = sub_vec(cs.as_slice(), 7, cs.len());
                assert(rest@ =~= a@.skip(7));
                let token = string_of(rest.as_slice());
                constant_time_eq(token.as_str().as_bytes(), expected)
            } else {
                false
            }
        },
        None => false,
    };
    if bearer {
        return true;
    }
    match x_api_key {
        Some(x) => constant_time_eq(x.as_str().as_bytes(), expected),
        None => false,
    }
}

/// A request id offered by the client is kept when it is not empty and at
/// most 128 bytes long.
pub fn usable_request_id(value: &str) -> (r: bool)
    ensures
        r == (encode_utf8(value@).len() > 0 && encode_utf8(value@).len() <= 128),
{
    let n = value.as_bytes().len();
    n > 0 && n <= 128
}

/// An error answer of the API: HTTP status, error code and message.
#[derive(Debug, Clone)]
pub struct ApiFailure {
    pub status: u16,
    pub code: String,
    pub message: String,
}

/// Which API operation failed.
#[derive(Debug, Clone, Copy, PartialEq, Eq, Structural)]
pub enum ApiOperation {
    Probe,
    Scan,
}

/// The answer for an error of a probe or scan: 403 for a refused target
/// (with the refusal's reason), 408 for a cancellation, 500 otherwise (with
/// the error's text).
pub open spec fn failure_answer(op: ApiOperation, e: ErrorView) -> (u16, Seq<char>, Seq<char>) {
    match e {
        ErrorView::TargetRejected { reason } => (403, "target_rejected"@, reason),
        ErrorView::Cancelled => (
            408,
            "cancelled"@,
            if op == ApiOperation::Probe {
                "probe was cancelled"@
            } else {
                "scan was cancelled"@
            },
        ),
        _ => (
            500,
            if op == ApiOperation::Probe {
                "probe_failed"@
            } else {
                "scan_failed"@
            },
            e.text(),
        ),
    }
}

pub fn error_answer(op: ApiOperation, error: &CfProbeError) -> (r: ApiFailure)
    ensures
        (r.status, r.code@, r.message@) == failure_answer(op, error@),
{
    match error {
        CfProbeError::TargetRejected { reason } => ApiFailure {
            status: 403,
            code: copy_str("target_rejected"),
            message: reason.clone(),
        },
        CfProbeError::Cancelled => ApiFailure {
            status: 408,
            code: copy_str("cancelled"),
            message: match op {
                ApiOperation::Probe => copy_str("probe was cancelled"),
                ApiOperation::Scan => copy_str("scan was cancelled"),
            },
        },
        _ => ApiFailure {
            status: 500,
            code: match op {
                ApiOperation::Probe => copy_str("probe_failed"),
                ApiOperation::Scan => copy_str("scan_failed"),
            },
            message: error.to_string(),
        },
    }
}

/// The index of the first target that fails its structural check, if any.
pub open spec fn first_invalid(targets: Seq<Target>) -> Option<int> {
    if exists|i: int| 0 <= i < targets.len() && (#[trigger] targets[i]).check() is Err {
        Some(choose|i: int| 0 <= i < targets.len() && (#[trigger] targets[i]).check() is Err && forall|j: int|
            0 <= j < i ==> (#[trigger] targets[j]).check() is Ok)
    } else {
        None
    }
}

/// A scan request is refused when it has no target (400), more targets
/// than allowed (413) or a structurally invalid target (400, the first
/// one's error); else it runs with the request's settings, the server's
/// defaults where the request names none, and the server's target limit.
pub fn prepare_scan(
    config: &ServerConfig,
    targets: &Vec<Target>,
    concurrency: Option<usize>,
    target_timeout_ms: Option<u64>,
    requests_per_second: Option<u32>,
) -> (r: Result<BatchScanConfig, ApiFailure>)
    ensures
        targets@.len() == 0 ==> (r matches Err(f) && f.status == 400 && f.code@ == "empty_targets"@
            && f.message@ == "targets cannot be empty"@),
        targets@.len() > config.max_batch_targets ==> (r matches Err(f) && f.status == 413 && f.code@
            == "too_many_targets"@ && f.message@ == "maximum targets per request is "@ + decimal(
            config.max_batch_targets as nat,
        )),
        0 < targets@.len() <= config.max_batch_targets ==> match first_invalid(targets@) {
            Some(i) => r matches Err(f) && f.status == 400 && f.code@ == "invalid_target"@ && f.message@
                == targets@[i].check()->Err_0.text(),
            None => r matches Ok(c) && c.concurrency == match concurrency {
                Some(n) => n,
                None => config.default_concurrency,
            } && nanos(c.target_timeout) == match target_timeout_ms {
                Some(t) => t,
                None => config.default_target_timeout_ms,
            } as nat * 1_000_000 && c.requests_per_second == match requests_per_second {
                Some(x) => Some(x),
                None => config.default_requests_per_second,
            } && c.max_targets == Some(config.max_batch_targets),
        },
{
    if targets.len() == 0 {
        return Err(
            ApiFailure {
                status: 400,
                code: copy_str("empty_targets"),
                message: copy_str("targets cannot be empty"),
            },
        );
    }
    if targets.len() > config.max_batch_targets {
        let d = decimal_exec(config.max_batch_targets as u64);
        return Err(
            ApiFailure {
                status: 413,
                code: copy_str("too_many_targets"),
                message: concat2("maximum targets per request is ", d.as_str()),
            },
        );
    }
    let mut i: usize = 0;
    while i < targets.len()
        invariant
            i <= targets@.len(),
            0 < targets@.len() <= config.max_batch_targets,
            forall|j: int| 0 <= j < i ==> (#[trigger] targets@[j]).check() is Ok,
        decreases targets@.len() - i,
    {
        match targets[i].validate() {
            Err(e) => {
                proof {
                    assert(targets@[i as int].check() is Err);
                    let k = choose|k: int| 0 <= k < targets@.len() && (#[trigger] targets@[k]).check() is Err
                        && forall|j: int| 0 <= j < k ==> (#[trigger] targets@[j]).check() is Ok;
                    if k < i {
                        assert(targets@[k].check() is Ok);
                    }
                    if k > i {
                        assert(targets@[i as int].check() is Ok);
                    }
                    assert(k == i);
                }
                return Err(ApiFailure { status: 400, code: copy_str("invalid_target"), message: e.to_string() });
            },
            Ok(()) => {},
        }
        i += 1;
    }
    proof {
        if exists|k: int| 0 <= k < targets@.len() && (#[trigger] targets@[k]).check() is Err {
            let k = choose|k: int| 0 <= k < targets@.len() && (#[trigger] targets@[k]).check() is Err;
            assert(targets@[k].check() is Ok);
        }
    }
    let n = match concurrency {
        Some(n) => n,
        None => config.default_concurrency,
    };
    let t = match target_timeout_ms {
        Some(t) => t,
        None => config.default_target_timeout_ms,
    };
    let rps = match requests_per_second {
        Some(x) => Some(x),
        None => config.default_requests_per_second,
    };
    let c = BatchScanConfig::default().with_concurrency(n).with_target_timeout(duration_from_millis(t)).with_requests_per_second(
        rps,
    ).with_max_targets(Some(config.max_batch_targets));
    Ok(c)
}

} // verus!
