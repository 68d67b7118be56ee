//! Host name normalisation and the DNS name syntax check.

use vstd::prelude::*;

use crate::text::{
    chars_of, lower, lower_exec, seq_eq_exec, string_of, string_push, trim, trim_end_char,
    trim_end_char_exec, trim_exec,
};

verus! {

/// Trimmed, without trailing dots, ASCII-lowercased.
pub open spec fn normalized(h: Seq<char>) -> Seq<char> {
    lower(trim_end_char(trim(h), '.'))
}

/// Trimmed and without trailing dots (case kept).
pub open spec fn stripped(h: Seq<char>) -> Seq<char> {
    trim_end_char(trim(h), '.')
}

/// `hostname.trim().trim_end_matches('.').to_ascii_lowercase()`.
pub fn normalize_hostname(hostname: &str) -> (r: String)
    ensures
        r@ == normalized(hostname@),
{
    let cs = chars_of(hostname);
    let t = trim_exec(cs.as_slice());
    let u = trim_end_char_exec(t.as_slice(), '.');
    let l = lower_exec(u.as_slice());
    string_of(l.as_slice())
}

/// `hostname.trim().trim_end_matches('.')`.
pub fn strip_hostname(hostname: &str) -> (r: String)
    ensures
        r@ == stripped(hostname@),
{
    let cs = chars_of(hostname);
    let t = trim_exec(cs.as_slice());
    let u = trim_end_char_exec(t.as_slice(), '.');
    string_of(u.as_slice())
}

/// Two host names are the same after normalisation.
pub open spec fn same_host(left: Seq<char>, right: Seq<char>) -> bool {
    normalized(left) == normalized(right)
}

pub fn same_hostname(left: &str, right: &str) -> (r: bool)
    ensures
        r == same_host(left@, right@),
{
    let a = normalize_hostname(left);
    let b = normalize_hostname(right);
    let ac = chars_of(a.as_str());
    let bc = chars_of(b.as_str());
    seq_eq_exec(ac.as_slice(), bc.as_slice())
}

/// The error text with which hickory's `Name::from_utf8` refuses the text,
/// or `None` when it accepts it.
pub uninterp spec fn dns_name_error(s: Seq<char>) -> Option<Seq<char>>;

/// Runs hickory's `Name::from_utf8` on the text and keeps only whether it
/// failed and the message of its error; the contract names that outcome.
#[verifier::external_body]
pub fn check_dns_name(s: &str) -> (r: Option<String>)
    ensures
        match r {
            None => dns_name_error(s@) is None,
            Some(e) => dns_name_error(s@) == Some(e@),
        },
{
    match hickory_resolver::proto::rr::Name::from_utf8(s) {
        Ok(_) => None,
        Err(error) => Some(error.to_string()),
    }
}

/// The fully-qualified form that the name check is run on: the stripped
/// name followed by one dot.
pub open spec fn fqdn_of(h: Seq<char>) -> Seq<char> {
    stripped(h).push('.')
}

pub fn fqdn(hostname: &str) -> (r: String)
    ensures
        r@ == fqdn_of(hostname@),
{
    let mut r = strip_hostname(hostname);
    string_push(&mut r, '.');
    r
}

} // verus!
