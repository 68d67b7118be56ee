//! Reading the answer of Cloudflare's `/client/v4/ips` API.

use vstd::prelude::*;

use crate::error::{CfProbeError, ErrorView};
use crate::evidence::summary::join;
use crate::text::{concat2, copy_str, push_str, signed_decimal, signed_decimal_exec, texts};

verus! {

/// One error entry of an API answer.
#[derive(Debug, Clone)]
pub struct ApiError {
    pub code: Option<i64>,
    pub message: Option<String>,
}

/// The `result` object of an API answer.
#[derive(Debug, Clone)]
pub struct ApiResult {
    pub etag: Option<String>,
    pub ipv4_cidrs: Vec<String>,
    pub ipv6_cidrs: Vec<String>,
}

/// An API answer.
#[derive(Debug, Clone)]
pub struct ApiResponse {
    pub success: bool,
    pub errors: Vec<ApiError>,
    pub result: Option<ApiResult>,
}

/// The published CIDR lists and their ETag.
#[derive(Debug, Clone)]
pub struct CloudflareApiRanges {
    pub etag: Option<String>,
    pub ipv4_cidrs: Vec<String>,
    pub ipv6_cidrs: Vec<String>,
}

/// The outcome of a conditional fetch.
#[derive(Debug, Clone)]
pub enum CloudflareFetchResult {
    /// 304: the cached ranges are current.
    NotModified,
    /// New ranges.
    Updated(CloudflareApiRanges),
}

/// The text of one API error: `[code] message`, the message alone, `error
/// code N`, or a generic text.
pub open spec fn api_error_text(e: ApiError) -> Seq<char> {
    match (e.code, e.message) {
        (Some(code), Some(m)) => "["@ + signed_decimal(code as int) + "] "@ + m@,
        (None, Some(m)) => m@,
        (Some(code), None) => "error code "@ + signed_decimal(code as int),
        (None, None) => "unknown Cloudflare API error"@,
    }
}

pub open spec fn api_error_texts(errors: Seq<ApiError>) -> Seq<Seq<char>> {
    errors.map_values(|e: ApiError| api_error_text(e))
}

fn api_error_string(e: &ApiError) -> (r: String)
    ensures
        r@ == api_error_text(*e),
{
    match (&e.code, &e.message) {
        (Some(code), Some(m)) => {
            let mut r = copy_str("[");
            let c = signed_decimal_exec(*code);
            push_str(&mut r, c.as_str());
            push_str(&mut r, "] ");
            push_str(&mut r, m.as_str());
            r
        },
        (None, Some(m)) => m.clone(),
        (Some(code), None) => {
            let c = signed_decimal_exec(*code);
            concat2("error code ", c.as_str())
        },
        (None, None) => copy_str("unknown Cloudflare API error"),
    }
}

fn join_api_errors(errors: &Vec<ApiError>) -> (r: String)
    ensures
        r@ == join(api_error_texts(errors@), "; "@),
{
    let ghost t = api_error_texts(errors@);
    let mut r = String::new();
    let mut i: usize = 0;
    while i < errors.len()
        invariant
            t == api_error_texts(errors@),
            i <= errors@.len(),
            r@ == join(t.take(i as int), "; "@),
        decreases errors@.len() - i,
    {
        let ghost before = r@;
        if i > 0 {
            push_str(&mut r, "; ");
        }
        let s = api_error_string(&errors[i]);
        push_str(&mut r, s.as_str());
        proof {
            assert(t.take(i + 1).drop_last() =~= t.take(i as int));
            assert(t[i as int] == api_error_text(errors@[i as int]));
            if i == 0 {
                assert(before =~= Seq::<char>::empty());
                assert(r@ =~= t.take(1)[0]);
            }
        }
        i += 1;
    }
    assert(t.take(i as int) =~= t);
    r
}

/// What an API answer means: the API's errors joined by `; ` when it
/// reports failure; an error when the result is missing or holds no range
/// at all; else the ranges, with the result's ETag or else the header's.
pub open spec fn api_outcome(response: ApiResponse, header_etag: Option<String>) -> Result<
    (Option<String>, Seq<String>, Seq<String>),
    Seq<char>,
> {
    if !response.success {
        Err(join(api_error_texts(response.errors@), "; "@))
    } else {
        match response.result {
            None => Err("missing `result` field"@),
            Some(res) => if res.ipv4_cidrs@.len() == 0 && res.ipv6_cidrs@.len() == 0 {
                Err("Cloudflare returned an empty IP range set"@)
            } else {
                Ok(
                    (
                        match res.etag {
                            Some(e) => Some(e),
                            None => header_etag,
                        },
                        res.ipv4_cidrs@,
                        res.ipv6_cidrs@,
                    ),
                )
            },
        }
    }
}

/// Reads an API answer; see `api_outcome`.
pub fn interpret_api_response(response: ApiResponse, header_etag: Option<String>) -> (r: Result<
    CloudflareApiRanges,
    CfProbeError,
>)
    ensures
        match api_outcome(response, header_etag) {
            Ok((etag, v4, v6)) => r matches Ok(x) && x.etag == etag && x.ipv4_cidrs@ == v4
                && x.ipv6_cidrs@ == v6,
            Err(m) => r matches Err(e) && e@ == ErrorView::InvalidResponse(m),
        },
        response.success && response.result is Some && !(response.result->0.ipv4_cidrs@.len() == 0
            && response.result->0.ipv6_cidrs@.len() == 0) ==> (r matches Ok(x)
            && x.ipv4_cidrs@ == response.result->0.ipv4_cidrs@
            && x.ipv6_cidrs@ == response.result->0.ipv6_cidrs@),
{
    if !response.success {
        let message = join_api_errors(&response.errors);
        return Err(CfProbeError::invalid(message));
    }
    match response.result {
        None => Err(CfProbeError::invalid(copy_str("missing `result` field"))),
        Some(res) => {
            if res.ipv4_cidrs.len() == 0 && res.ipv6_cidrs.len() == 0 {
                return Err(CfProbeError::invalid(copy_str("Cloudflare returned an empty IP range set")));
            }
            let etag = match res.etag {
                Some(e) => Some(e),
                None => header_etag,
            };
            Ok(CloudflareApiRanges { etag, ipv4_cidrs: res.ipv4_cidrs, ipv6_cidrs: res.ipv6_cidrs })
        },
    }
}

/// What the HTTP status of the answer means: 304 is "not modified"
/// (`true`), another status outside 200..=299 is an error naming the status
/// as displayed, and a success status goes on to the body (`false`).
pub fn check_api_status(code: u16, status_text: &str) -> (r: Result<bool, CfProbeError>)
    ensures
        code == 304 ==> r == Ok::<bool, CfProbeError>(true),
        code != 304 && 200 <= code <= 299 ==> r == Ok::<bool, CfProbeError>(false),
        code != 304 && !(200 <= code <= 299) ==> (r matches Err(e) && e@ == ErrorView::InvalidResponse(
            "Cloudflare returned HTTP status "@ + status_text@,
        )),
{
    if code == 304 {
        Ok(true)
    } else if 200 <= code && code <= 299 {
        Ok(false)
    } else {
        Err(CfProbeError::invalid(concat2("Cloudflare returned HTTP status ", status_text)))
    }
}

} // verus!
