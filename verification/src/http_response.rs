//! Reading an HTTP response: its headers, the Cloudflare signals among
//! them, the bounded body count and the resulting detection.

use vstd::prelude::*;
use vstd::utf8::encode_utf8;

use crate::http::{
    CloudflareHttpSignals, HttpDetection, HttpHeader, HttpProbeStatus, HttpRequestPlan, RawHeader,
    truncate_header_value, truncated_bytes,
};
use crate::text::{chars_of, concat2, contains_exec, contains_seq, copy_str, lower, lower_exec};

verus! {

/// `text` is the value cut to `max` bytes as `truncate_header_value` cuts it.
pub open spec fn is_truncation(text: Seq<char>, value: Seq<char>, max: nat) -> bool {
    encode_utf8(text) == truncated_bytes(encode_utf8(value), max)
}

/// Index of the first header of the given name, or the count when there is none.
pub open spec fn first_named(headers: Seq<RawHeader>, name: Seq<char>) -> nat
    decreases headers.len(),
{
    if headers.len() == 0 {
        0
    } else if headers[0].name@ == name {
        0
    } else {
        1 + first_named(headers.drop_first(), name)
    }
}

proof fn lemma_first_named(headers: Seq<RawHeader>, name: Seq<char>, k: int)
    requires
        0 <= k <= headers.len(),
        forall|i: int| 0 <= i < k ==> (#[trigger] headers[i]).name@ != name,
        k == headers.len() || headers[k].name@ == name,
    ensures
        first_named(headers, name) == k,
    decreases k,
{
    if k > 0 {
        assert forall|i: int| 0 <= i < k - 1 implies (#[trigger] headers.drop_first()[i]).name@ != name by {
            assert(headers.drop_first()[i] == headers[i + 1]);
        }
        lemma_first_named(headers.drop_first(), name, k - 1);
    }
}

/// The value a header map gives for a name: that of the first header of the
/// name, when it is visible text; `None` when there is no such header or its
/// value is not text.
pub open spec fn named_value(headers: Seq<RawHeader>, name: Seq<char>) -> Option<Seq<char>> {
    let k = first_named(headers, name);
    if k < headers.len() {
        match headers[k as int].value {
            Some(v) => Some(v@),
            None => None,
        }
    } else {
        None
    }
}

/// `r` is the first header of the name's value, cut to the limit.
pub open spec fn cut_value(headers: Seq<RawHeader>, name: Seq<char>, max: nat, r: Option<String>) -> bool {
    match named_value(headers, name) {
        None => r is None,
        Some(v) => r matches Some(t) && is_truncation(t@, v, max),
    }
}

/// The (cut) value of the first header of the name.
pub fn header_value(headers: &Vec<RawHeader>, name: &str, max_value_bytes: usize) -> (r: Option<String>)
    ensures
        cut_value(headers@, name@, max_value_bytes as nat, r),
{
    let wanted = copy_str(name);
    let mut k: usize = 0;
    while k < headers.len()
        invariant
            k <= headers@.len(),
            wanted@ == name@,
            forall|i: int| 0 <= i < k ==> (#[trigger] headers@[i]).name@ != name@,
        decreases headers@.len() - k,
    {
        if headers[k].name == wanted {
            proof {
                lemma_first_named(headers@, name@, k as int);
            }
            return match &headers[k].value {
                Some(v) => {
                    let t = truncate_header_value(v.as_str(), max_value_bytes);
                    Some(t)
                },
                None => None,
            };
        }
        k += 1;
    }
    proof {
        lemma_first_named(headers@, name@, k as int);
    }
    None
}

/// The headers whose value is visible text.
pub open spec fn text_headers(headers: Seq<RawHeader>) -> Seq<RawHeader> {
    headers.filter(|h: RawHeader| h.value is Some)
}

/// `r` holds every header with a text value, in order, with its value cut.
pub open spec fn cut_headers(headers: Seq<RawHeader>, max: nat, r: Seq<HttpHeader>) -> bool {
    &&& r.len() == text_headers(headers).len()
    &&& forall|i: int|
        0 <= i < r.len() ==> (#[trigger] r[i]).name@ == text_headers(headers)[i].name@ && is_truncation(
            r[i].value@,
            text_headers(headers)[i].value.unwrap()@,
            max,
        )
}

/// Every header with a text value, in order, with its value cut.
pub fn collect_headers(headers: &Vec<RawHeader>, max_value_bytes: usize) -> (r: Vec<HttpHeader>)
    ensures
        cut_headers(headers@, max_value_bytes as nat, r@),
{
    let mut r: Vec<HttpHeader> = Vec::new();
    let mut k: usize = 0;
    proof {
        reveal_with_fuel(Seq::filter, 1);
    }
    while k < headers.len()
        invariant
            k <= headers@.len(),
            r@.len() == text_headers(headers@.take(k as int)).len(),
            forall|i: int|
                0 <= i < r@.len() ==> (#[trigger] r@[i]).name@ == text_headers(headers@.take(k as int))[i].name@
                    && is_truncation(
                    r@[i].value@,
                    text_headers(headers@.take(k as int))[i].value.unwrap()@,
                    max_value_bytes as nat,
                ),
        decreases headers@.len() - k,
    {
        proof {
            assert(headers@.take(k + 1).drop_last() =~= headers@.take(k as int));
            reveal_with_fuel(Seq::filter, 1);
        }
        let ghost before = r@;
        match &headers[k].value {
            Some(v) => {
                let value = truncate_header_value(v.as_str(), max_value_bytes);
                let name = headers[k].name.clone();
                r.push(HttpHeader { name, value });
                proof {
                    assert forall|i: int| 0 <= i < r@.len() implies (#[trigger] r@[i]).name@ == text_headers(
                        headers@.take(k + 1),
                    )[i].name@ && is_truncation(
                        r@[i].value@,
                        text_headers(headers@.take(k + 1))[i].value.unwrap()@,
                        max_value_bytes as nat,
                    ) by {
                        if i < before.len() {
                            assert(r@[i] == before[i]);
                        }
                    }
                }
            },
            None => {},
        }
        k += 1;
    }
    assert(headers@.take(k as int) =~= headers@);
    r
}

/// `r` holds the Cloudflare signals of the headers; see
/// `collect_cloudflare_signals`.
pub open spec fn cloudflare_signals(headers: Seq<RawHeader>, max: nat, r: CloudflareHttpSignals) -> bool {
    &&& cut_value(headers, "cf-ray"@, max, r.cf_ray)
    &&& cut_value(headers, "cf-cache-status"@, max, r.cf_cache_status)
    &&& cut_value(headers, "server"@, max, r.server)
    &&& cut_value(headers, "cf-connecting-ip"@, max, r.cf_connecting_ip)
    &&& cut_value(headers, "cf-ipcountry"@, max, r.cf_ip_country)
    &&& cut_value(headers, "age"@, max, r.age)
    &&& cut_value(headers, "via"@, max, r.via)
    &&& cut_value(headers, "cdn-cache-control"@, max, r.cdn_cache_control)
    &&& cut_value(headers, "cf-mitigated"@, max, r.cf_mitigated)
    &&& r.server_cloudflare == (r.server matches Some(t) && contains_seq(lower(t@), "cloudflare"@))
}

/// The Cloudflare signals of a response: the (cut) values of the CF-Ray,
/// CF-Cache-Status, Server, CF-Connecting-IP, CF-IPCountry, Age, Via,
/// CDN-Cache-Control and CF-Mitigated headers, and whether the Server value
/// contains `cloudflare` in any case.
pub fn collect_cloudflare_signals(headers: &Vec<RawHeader>, max_value_bytes: usize) -> (r: CloudflareHttpSignals)
    ensures
        cloudflare_signals(headers@, max_value_bytes as nat, r),
{
    let server = header_value(headers, "server", max_value_bytes);
    let server_cloudflare = match &server {
        Some(v) => {
            let cs = chars_of(v.as_str());
            let l = lower_exec(cs.as_slice());
            let needle = chars_of("cloudflare");
            contains_exec(l.as_slice(), needle.as_slice())
        },
        None => false,
    };
    CloudflareHttpSignals {
        cf_ray: header_value(headers, "cf-ray", max_value_bytes),
        cf_cache_status: header_value(headers, "cf-cache-status", max_value_bytes),
        server,
        server_cloudflare,
        cf_connecting_ip: header_value(headers, "cf-connecting-ip", max_value_bytes),
        cf_ip_country: header_value(headers, "cf-ipcountry", max_value_bytes),
        age: header_value(headers, "age", max_value_bytes),
        via: header_value(headers, "via", max_value_bytes),
        cdn_cache_control: header_value(headers, "cdn-cache-control", max_value_bytes),
        cf_mitigated: header_value(headers, "cf-mitigated", max_value_bytes),
    }
}

/// Counting body bytes up to a limit: the count after one more chunk
/// (saturating), and whether the limit was reached.
pub fn count_body_chunk(total: u64, chunk_len: u64, max_body_bytes: u64) -> (r: (u64, bool))
    ensures
        r.0 == if total + chunk_len > u64::MAX {
            u64::MAX as int
        } else {
            total + chunk_len
        },
        r.1 == (r.0 >= max_body_bytes),
{
    let t = total.saturating_add(chunk_len);
    (t, t >= max_body_bytes)
}

/// The body count reported: the limit and `true` once it was reached, else
/// the count (at most the limit) and `false`.
pub fn body_outcome(total: u64, limit_reached: bool, max_body_bytes: u64) -> (r: (u64, bool))
    ensures
        limit_reached ==> r == (max_body_bytes, true),
        !limit_reached ==> r == (if total < max_body_bytes {
            total
        } else {
            max_body_bytes
        }, false),
{
    if limit_reached {
        (max_body_bytes, true)
    } else if total < max_body_bytes {
        (total, false)
    } else {
        (max_body_bytes, false)
    }
}

/// The detection for a request that could not be made.
pub fn request_failed(plan: HttpRequestPlan, error: &str) -> (r: HttpDetection)
    ensures
        r.ip == plan.ip && r.hostname == plan.hostname && r.port == plan.port && r.url == plan.url,
        r.status == HttpProbeStatus::RequestFailed,
        r.status_code is None,
        r.error matches Some(e) && e@ == "HTTP request failed: "@ + error@,
{
    let message = concat2("HTTP request failed: ", error);
    HttpDetection::failed(plan.ip, plan.hostname, plan.port, plan.url, message)
}

/// The detection for a response: its status, version, final URL, headers,
/// signals, content type, length and redirect target (all header values
/// cut to the limit), and the body count.
pub fn response_detection(
    plan: HttpRequestPlan,
    status_code: u16,
    http_version: String,
    final_url: String,
    headers: &Vec<RawHeader>,
    content_length: Option<u64>,
    body_bytes_read: u64,
    body_truncated: bool,
    max_header_value_bytes: usize,
) -> (r: HttpDetection)
    ensures
        r.ip == plan.ip && r.hostname == plan.hostname && r.port == plan.port && r.url == plan.url,
        r.final_url == Some(final_url),
        r.status_code == Some(status_code),
        r.http_version == Some(http_version),
        r.status == if body_truncated {
            HttpProbeStatus::ResponseBodyLimitReached
        } else {
            HttpProbeStatus::ResponseReceived
        },
        cut_headers(headers@, max_header_value_bytes as nat, r.headers@),
        cloudflare_signals(headers@, max_header_value_bytes as nat, r.signals),
        cut_value(headers@, "content-type"@, max_header_value_bytes as nat, r.content_type),
        cut_value(headers@, "location"@, max_header_value_bytes as nat, r.redirect_location),
        r.content_length == content_length,
        r.body_bytes_read == body_bytes_read,
        r.body_truncated == body_truncated,
        r.error is None,
{
    let collected = collect_headers(headers, max_header_value_bytes);
    let signals = collect_cloudflare_signals(headers, max_header_value_bytes);
    let content_type = header_value(headers, "content-type", max_header_value_bytes);
    let redirect_location = header_value(headers, "location", max_header_value_bytes);
    let status = if body_truncated {
        HttpProbeStatus::ResponseBodyLimitReached
    } else {
        HttpProbeStatus::ResponseReceived
    };
    HttpDetection {
        ip: plan.ip,
        hostname: plan.hostname,
        port: plan.port,
        url: plan.url,
        final_url: Some(final_url),
        status_code: Some(status_code),
        http_version: Some(http_version),
        status,
        headers: collected,
        signals,
        content_type,
        content_length,
        body_bytes_read,
        body_truncated,
        redirect_location,
        error: None,
    }
}

} // verus!
