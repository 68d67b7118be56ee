//! The HTTP stage: scheme, probe configuration, the request plan, header
//! reading and the Cloudflare header signals.

use vstd::prelude::*;
use vstd::utf8::*;
use vstd::string::*;

use std::time::Duration;

use crate::error::{CfProbeError, ErrorView};
use crate::hostname::{check_dns_name, dns_name_error, stripped};
use crate::net::IpAddr;
use crate::text::{
    chars_of, concat2, concat3, copy_str, decimal, decimal_exec, lower, lower_exec, push_str,
    string_of, string_push, trim, trim_end_char_exec, trim_exec,
};
use crate::time::{duration_from_secs, duration_nanos, nanos};

verus! {

/// `http` or `https`.
#[derive(Debug, Clone, Copy, PartialEq, Eq, Hash, Structural)]
pub enum HttpScheme {
    Http,
    Https,
}

impl HttpScheme {
    pub open spec fn text(self) -> Seq<char> {
        match self {
            HttpScheme::Http => "http"@,
            HttpScheme::Https => "https"@,
        }
    }

    pub open spec fn spec_default_port(self) -> u16 {
        match self {
            HttpScheme::Http => 80,
            HttpScheme::Https => 443,
        }
    }

    pub fn as_str(&self) -> (r: &'static str)
        ensures
            r@ == self.text(),
    {
        match self {
            HttpScheme::Http => "http",
            HttpScheme::Https => "https",
        }
    }

    pub fn default_port(&self) -> (r: u16)
        ensures
            r == self.spec_default_port(),
    {
        match self {
            HttpScheme::Http => 80,
            HttpScheme::Https => 443,
        }
    }

    /// The variant's name, as `{:?}` writes it.
    pub open spec fn debug_text(self) -> Seq<char> {
        match self {
            HttpScheme::Http => "Http"@,
            HttpScheme::Https => "Https"@,
        }
    }

    pub fn debug_str(&self) -> (r: &'static str)
        ensures
            r@ == self.debug_text(),
    {
        match self {
            HttpScheme::Http => "Http",
            HttpScheme::Https => "Https",
        }
    }
}

/// Execution state of the HTTP stage.
#[derive(Debug, Clone, Copy, PartialEq, Eq, Structural)]
pub enum HttpProbeStatus {
    /// Response headers were received (any status code).
    ResponseReceived,
    /// The request failed (network, timeout, connection).
    RequestFailed,
    /// The body exceeded the configured limit and was cut off.
    ResponseBodyLimitReached,
    /// Not run or unknown.
    Unknown,
}

/// One response header.
#[derive(Debug, Clone)]
pub struct HttpHeader {
    pub name: String,
    pub value: String,
}

/// A response header as it arrived: its lowercase name, and its value when
/// the value is visible ASCII text.
#[derive(Debug, Clone)]
pub struct RawHeader {
    pub name: String,
    pub value: Option<String>,
}

/// The Cloudflare-specific headers found in a response.
#[derive(Debug, Clone)]
pub struct CloudflareHttpSignals {
    pub cf_ray: Option<String>,
    pub cf_cache_status: Option<String>,
    pub server: Option<String>,
    pub server_cloudflare: bool,
    pub cf_connecting_ip: Option<String>,
    pub cf_ip_country: Option<String>,
    pub age: Option<String>,
    pub via: Option<String>,
    pub cdn_cache_control: Option<String>,
    pub cf_mitigated: Option<String>,
}

impl Default for CloudflareHttpSignals {
    fn default() -> (r: Self)
        ensures
            r.cf_ray is None && r.cf_cache_status is None && r.server is None && !r.server_cloudflare
                && r.cf_connecting_ip is None && r.cf_ip_country is None && r.age is None && r.via is None
                && r.cdn_cache_control is None && r.cf_mitigated is None,
    {
        CloudflareHttpSignals {
            cf_ray: None,
            cf_cache_status: None,
            server: None,
            server_cloudflare: false,
            cf_connecting_ip: None,
            cf_ip_country: None,
            age: None,
            via: None,
            cdn_cache_control: None,
            cf_mitigated: None,
        }
    }
}

impl CloudflareHttpSignals {
    /// The points of the headers present: CF-Ray 40, CF-Cache-Status 25,
    /// `Server: cloudflare` 20, CF-Connecting-IP, CF-IPCountry and CF-Mitigated 5 each.
    pub open spec fn points(self) -> int {
        (if self.cf_ray is Some { 40int } else { 0 }) + (if self.cf_cache_status is Some {
            25int
        } else {
            0
        }) + (if self.server_cloudflare { 20int } else { 0 }) + (if self.cf_connecting_ip is Some {
            5int
        } else {
            0
        }) + (if self.cf_ip_country is Some { 5int } else { 0 }) + (if self.cf_mitigated is Some {
            5int
        } else {
            0
        })
    }

    /// A 0..=100 score from the Cloudflare-specific headers present.
    pub fn score(&self) -> (r: u8)
        ensures
            r == if self.points() < 100 { self.points() } else { 100 },
    {
        let mut score = 0u8;
        if self.cf_ray.is_some() {
            score = score.saturating_add(40);
        }
        if self.cf_cache_status.is_some() {
            score = score.saturating_add(25);
        }
        if self.server_cloudflare {
            score = score.saturating_add(20);
        }
        if self.cf_connecting_ip.is_some() {
            score = score.saturating_add(5);
        }
        if self.cf_ip_country.is_some() {
            score = score.saturating_add(5);
        }
        if self.cf_mitigated.is_some() {
            score = score.saturating_add(5);
        }
        if score < 100 {
            score
        } else {
            100
        }
    }

    /// A strong signal is present: CF-Ray, CF-Cache-Status or `Server: cloudflare`.
    pub fn has_cloudflare_signal(&self) -> (r: bool)
        ensures
            r == (self.cf_ray is Some || self.cf_cache_status is Some || self.server_cloudflare),
    {
        self.cf_ray.is_some() || self.cf_cache_status.is_some() || self.server_cloudflare
    }
}

/// Result of the HTTP stage.
#[derive(Debug, Clone)]
pub struct HttpDetection {
    pub ip: IpAddr,
    pub hostname: String,
    pub port: u16,
    pub url: String,
    pub final_url: Option<String>,
    pub status_code: Option<u16>,
    pub http_version: Option<String>,
    pub status: HttpProbeStatus,
    pub headers: Vec<HttpHeader>,
    pub signals: CloudflareHttpSignals,
    pub content_type: Option<String>,
    pub content_length: Option<u64>,
    pub body_bytes_read: u64,
    pub body_truncated: bool,
    pub redirect_location: Option<String>,
    pub error: Option<String>,
}

impl HttpDetection {
    /// A "request failed" result.
    pub fn failed(ip: IpAddr, hostname: String, port: u16, url: String, error: String) -> (r: Self)
        ensures
            r.ip == ip && r.hostname == hostname && r.port == port && r.url == url,
            r.final_url is None && r.status_code is None && r.http_version is None,
            r.status == HttpProbeStatus::RequestFailed,
            r.headers@.len() == 0,
            r.signals.cf_ray is None && r.signals.cf_cache_status is None && r.signals.server is None
                && !r.signals.server_cloudflare && r.signals.cf_connecting_ip is None
                && r.signals.cf_ip_country is None && r.signals.age is None && r.signals.via is None
                && r.signals.cdn_cache_control is None && r.signals.cf_mitigated is None,
            r.content_type is None && r.content_length is None,
            r.body_bytes_read == 0 && !r.body_truncated,
            r.redirect_location is None,
            r.error == Some(error),
    {
        HttpDetection {
            ip,
            hostname,
            port,
            url,
            final_url: None,
            status_code: None,
            http_version: None,
            status: HttpProbeStatus::RequestFailed,
            headers: Vec::new(),
            signals: CloudflareHttpSignals::default(),
            content_type: None,
            content_length: None,
            body_bytes_read: 0,
            body_truncated: false,
            redirect_location: None,
            error: Some(error),
        }
    }
}

/// HTTP probe parameters.
#[derive(Debug, Clone)]
pub struct HttpProbeConfig {
    pub scheme: HttpScheme,
    pub port: u16,
    pub timeout: Duration,
    pub connect_timeout: Duration,
    pub max_body_bytes: u64,
    pub follow_redirects: bool,
    pub max_redirects: usize,
    pub accept_invalid_certs: bool,
    pub accept_invalid_hostnames: bool,
    pub user_agent: String,
    pub max_header_value_bytes: usize,
    /// Most target-specific clients kept; the cache is emptied when full.
    pub max_cached_clients: usize,
    pub pool_idle_timeout: Duration,
    pub pool_max_idle_per_host: usize,
}

impl Default for HttpProbeConfig {
    fn default() -> (r: Self)
        ensures
            r.scheme == HttpScheme::Https && r.port == 443,
            nanos(r.timeout) == 10_000_000_000nat,
            nanos(r.connect_timeout) == 5_000_000_000nat,
            r.max_body_bytes == 1024 * 1024,
            !r.follow_redirects && r.max_redirects == 1,
            r.accept_invalid_certs && r.accept_invalid_hostnames,
            r.user_agent@ == "cfprobe/0.1"@,
            r.max_header_value_bytes == 4096,
            r.max_cached_clients == 64,
            nanos(r.pool_idle_timeout) == 90_000_000_000nat,
            r.pool_max_idle_per_host == 4,
    {
        HttpProbeConfig {
            scheme: HttpScheme::Https,
            port: 443,
            timeout: duration_from_secs(10),
            connect_timeout: duration_from_secs(5),
            max_body_bytes: 1024 * 1024,
            follow_redirects: false,
            max_redirects: 1,
            accept_invalid_certs: true,
            accept_invalid_hostnames: true,
            user_agent: copy_str("cfprobe/0.1"),
            max_header_value_bytes: 4096,
            max_cached_clients: 64,
            pool_idle_timeout: duration_from_secs(90),
            pool_max_idle_per_host: 4,
        }
    }
}

impl HttpProbeConfig {
    /// Why the configuration is refused, if it is.
    pub open spec fn problem(self) -> Option<Seq<char>> {
        if self.port == 0 {
            Some("HTTP port cannot be 0"@)
        } else if self.max_body_bytes == 0 {
            Some("max_body_bytes cannot be 0"@)
        } else if nanos(self.connect_timeout) > nanos(self.timeout) {
            Some("connect_timeout cannot be greater than timeout"@)
        } else if self.max_cached_clients == 0 {
            Some("max_cached_clients cannot be 0"@)
        } else if self.pool_max_idle_per_host == 0 {
            Some("pool_max_idle_per_host cannot be 0"@)
        } else {
            None
        }
    }

    /// The checks a prober makes on its configuration before it is built.
    pub fn validate(&self) -> (r: Result<(), CfProbeError>)
        ensures
            match self.problem() {
                None => r is Ok,
                Some(m) => r matches Err(e) && e@ == ErrorView::InvalidResponse(m),
            },
    {
        if self.port == 0 {
            return Err(CfProbeError::invalid(copy_str("HTTP port cannot be 0")));
        }
        if self.max_body_bytes == 0 {
            return Err(CfProbeError::invalid(copy_str("max_body_bytes cannot be 0")));
        }
        if duration_nanos(&self.connect_timeout) > duration_nanos(&self.timeout) {
            return Err(CfProbeError::invalid(copy_str("connect_timeout cannot be greater than timeout")));
        }
        if self.max_cached_clients == 0 {
            return Err(CfProbeError::invalid(copy_str("max_cached_clients cannot be 0")));
        }
        if self.pool_max_idle_per_host == 0 {
            return Err(CfProbeError::invalid(copy_str("pool_max_idle_per_host cannot be 0")));
        }
        Ok(())
    }
}

/// `scheme://host/` when the port is the scheme's default, else `scheme://host:port/`.
pub open spec fn url_text(scheme: HttpScheme, host: Seq<char>, port: u16) -> Seq<char> {
    if port == scheme.spec_default_port() {
        scheme.text() + "://"@ + host + "/"@
    } else {
        scheme.text() + "://"@ + host + ":"@ + decimal(port as nat) + "/"@
    }
}

/// `host` when the port is the scheme's default, else `host:port`.
pub open spec fn host_header_text(host: Seq<char>, scheme: HttpScheme, port: u16) -> Seq<char> {
    if port == scheme.spec_default_port() {
        host
    } else {
        host + ":"@ + decimal(port as nat)
    }
}

pub fn build_url(scheme: HttpScheme, hostname: &str, port: u16) -> (r: String)
    ensures
        r@ == url_text(scheme, hostname@, port),
{
    let mut r = concat3(scheme.as_str(), "://", hostname);
    if port != scheme.default_port() {
        push_str(&mut r, ":");
        let d = decimal_exec(port as u64);
        push_str(&mut r, d.as_str());
    }
    push_str(&mut r, "/");
    r
}

pub fn build_host_header(hostname: &str, scheme: HttpScheme, port: u16) -> (r: String)
    ensures
        r@ == host_header_text(hostname@, scheme, port),
{
    if port == scheme.default_port() {
        copy_str(hostname)
    } else {
        let mut r = concat2(hostname, ":");
        let d = decimal_exec(port as u64);
        push_str(&mut r, d.as_str());
        r
    }
}

/// How the HTTP stage checks a host name before any request: trimmed,
/// non-empty without trailing dots, accepted by the DNS name syntax, and
/// lowercased.
pub open spec fn http_hostname(h: Seq<char>) -> Result<Seq<char>, ErrorView> {
    if trim(h).len() == 0 || stripped(h).len() == 0 {
        Err(ErrorView::Dns { message: "hostname is empty"@ })
    } else {
        match dns_name_error(stripped(h).push('.')) {
            Some(e) => Err(
                ErrorView::Dns { message: "invalid hostname `"@ + stripped(h) + "`: "@ + e },
            ),
            None => Ok(lower(stripped(h))),
        }
    }
}

/// Checks and lowercases the host name for a TLS or HTTP connection.
pub fn check_probe_hostname(hostname: &str) -> (r: Result<String, CfProbeError>)
    ensures
        match http_hostname(hostname@) {
            Ok(h) => r matches Ok(s) && s@ == h,
            Err(e) => r matches Err(x) && x@ == e,
        },
{
    let cs = chars_of(hostname);
    let t = trim_exec(cs.as_slice());
    if t.len() == 0 {
        return Err(CfProbeError::Dns { message: copy_str("hostname is empty") });
    }
    let u = trim_end_char_exec(t.as_slice(), '.');
    if u.len() == 0 {
        return Err(CfProbeError::Dns { message: copy_str("hostname is empty") });
    }
    let stripped_host = string_of(u.as_slice());
    let mut q = copy_str(stripped_host.as_str());
    string_push(&mut q, '.');
    match check_dns_name(q.as_str()) {
        Some(e) => {
            let mut m = concat3("invalid hostname `", stripped_host.as_str(), "`: ");
            push_str(&mut m, e.as_str());
            Err(CfProbeError::Dns { message: m })
        },
        None => {
            let l = lower_exec(u.as_slice());
            Ok(string_of(l.as_slice()))
        },
    }
}

/// What the prober sends: the checked host name, the URL and the Host header.
#[derive(Debug, Clone)]
pub struct HttpRequestPlan {
    pub ip: IpAddr,
    pub hostname: String,
    pub scheme: HttpScheme,
    pub port: u16,
    pub url: String,
    pub host_header: String,
}

/// The request an HTTP probe makes for the parameters, or why none is made.
pub fn plan_http_request(ip: IpAddr, hostname: &str, scheme: HttpScheme, port: u16) -> (r: Result<
    HttpRequestPlan,
    CfProbeError,
>)
    ensures
        port == 0 ==> (r matches Err(e) && e@ == ErrorView::InvalidResponse(
            "HTTP port cannot be 0"@,
        )),
        port != 0 ==> match http_hostname(hostname@) {
            Err(e) => r matches Err(x) && x@ == e,
            Ok(h) => r matches Ok(p) && p.ip == ip && p.hostname@ == h && p.scheme == scheme
                && p.port == port && p.url@ == url_text(scheme, h, port) && p.host_header@
                == host_header_text(h, scheme, port),
        },
{
    if port == 0 {
        return Err(CfProbeError::invalid(copy_str("HTTP port cannot be 0")));
    }
    let host = check_probe_hostname(hostname)?;
    let url = build_url(scheme, host.as_str(), port);
    let host_header = build_host_header(host.as_str(), scheme, port);
    Ok(HttpRequestPlan { ip, hostname: host, scheme, port, url, host_header })
}

// ---------------------------------------------------------------------
// Header values
// ---------------------------------------------------------------------

pub proof fn lemma_encode_concat(a: Seq<char>, b: Seq<char>)
    ensures
        encode_utf8(a + b) == encode_utf8(a) + encode_utf8(b),
    decreases a.len(),
{
    if a.len() == 0 {
        assert(a + b =~= b);
    } else {
        assert((a + b).drop_first() =~= a.drop_first() + b);
        lemma_encode_concat(a.drop_first(), b);
    }
}

/// The largest character boundary of the bytes that is at most `end`.
pub open spec fn boundary_at_most(bytes: Seq<u8>, end: int) -> int
    decreases end,
{
    if end <= 0 {
        0
    } else if is_char_boundary(bytes, end) {
        end
    } else {
        boundary_at_most(bytes, end - 1)
    }
}

/// The bytes of a header value cut to at most `max` bytes at a character
/// boundary, with `...[truncated]` appended when it was cut.
pub open spec fn truncated_bytes(value: Seq<u8>, max: nat) -> Seq<u8> {
    if value.len() <= max {
        value
    } else {
        value.subrange(0, boundary_at_most(value, max as int)) + encode_utf8("...[truncated]"@)
    }
}

pub fn truncate_header_value(value: &str, max_bytes: usize) -> (r: String)
    ensures
        encode_utf8(r@) == truncated_bytes(value.spec_bytes(), max_bytes as nat),
{
    broadcast use vstd::utf8::encode_utf8_valid_utf8;

    let n = value.as_bytes().len();
    if n <= max_bytes {
        return value.to_owned();
    }
    let mut end = max_bytes;
    while end > 0 && !value.is_char_boundary(end)
        invariant
            end <= max_bytes < value.spec_bytes().len(),
            boundary_at_most(value.spec_bytes(), max_bytes as int) == boundary_at_most(
                value.spec_bytes(),
                end as int,
            ),
        decreases end,
    {
        end -= 1;
    }
    proof {
        if end > 0 {
            assert(is_char_boundary(value.spec_bytes(), end as int));
        } else {
            assert(is_char_boundary(value.spec_bytes(), 0));
        }
    }
    let (head, _) = value.split_at(end);
    let mut r = head.to_owned();
    let suffix = "...[truncated]";
    r.append(suffix);
    proof {
        lemma_encode_concat(head@, suffix@);
        assert(head.spec_bytes() == encode_utf8(head@));
    }
    r
}

} // verus!
