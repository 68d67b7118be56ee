//! Certificate name matching: exact names and single-label wildcards.

use vstd::prelude::*;

use crate::hostname::{normalize_hostname, normalized};
use crate::text::{chars_of, contains_char_exec, ends_with, ends_with_exec, seq_eq_exec, starts_with, starts_with_exec, sub_vec};
use crate::tls::CertificateInfo;

verus! {

/// `h` is one non-empty label without dots followed by `suffix`.
pub open spec fn one_label_before(h: Seq<char>, suffix: Seq<char>) -> bool {
    &&& ends_with(h, suffix)
    &&& h.len() > suffix.len()
    &&& !h.subrange(0, h.len() - suffix.len()).contains('.')
}

/// A certificate name covers the host name: both normalised, equal, or the
/// name is `*.` followed by a suffix and the host is one label in front of
/// `.` and that suffix (`*.example.com` covers `api.example.com`, not
/// `example.com` nor `a.b.example.com`).
pub open spec fn name_matches(hostname: Seq<char>, pattern: Seq<char>) -> bool {
    let h = normalized(hostname);
    let p = normalized(pattern);
    ||| h == p
    ||| (starts_with(p, seq!['*', '.']) && one_label_before(h, p.subrange(1, p.len() as int)))
}

pub fn dns_name_matches(hostname: &str, pattern: &str) -> (r: bool)
    ensures
        r == name_matches(hostname@, pattern@),
{
    let hn = normalize_hostname(hostname);
    let pn = normalize_hostname(pattern);
    let h = chars_of(hn.as_str());
    let p = chars_of(pn.as_str());
    if seq_eq_exec(h.as_slice(), p.as_slice()) {
        return true;
    }
    let star_dot = vec!['*', '.'];
    assert(star_dot@ =~= seq!['*', '.']);
    if !starts_with_exec(p.as_slice(), star_dot.as_slice()) {
        return false;
    }
    let suffix = sub_vec(p.as_slice(), 1, p.len());
    if !ends_with_exec(h.as_slice(), suffix.as_slice()) {
        return false;
    }
    let prefix_len = h.len() - suffix.len();
    if prefix_len == 0 {
        return false;
    }
    let prefix = sub_vec(h.as_slice(), 0, prefix_len);
    !contains_char_exec(prefix.as_slice(), '.')
}

/// Some SAN of some certificate covers the host name.
pub open spec fn certificate_matches(certs: Seq<CertificateInfo>, hostname: Seq<char>) -> bool {
    exists|i: int, j: int|
        0 <= i < certs.len() && 0 <= j < certs[i].dns_names@.len() && #[trigger] name_matches(
            hostname,
            certs[i].dns_names@[j]@,
        )
}

pub fn any_certificate_matches(certs: &Vec<CertificateInfo>, hostname: &str) -> (r: bool)
    ensures
        r == certificate_matches(certs@, hostname@),
{
    let mut i: usize = 0;
    while i < certs.len()
        invariant
            i <= certs@.len(),
            forall|a: int, b: int|
                0 <= a < i && 0 <= b < certs@[a].dns_names@.len() ==> !#[trigger] name_matches(
                    hostname@,
                    certs@[a].dns_names@[b]@,
                ),
        decreases certs@.len() - i,
    {
        let names = &certs[i].dns_names;
        let mut j: usize = 0;
        while j < names.len()
            invariant
                i < certs@.len(),
                *names == certs@[i as int].dns_names,
                j <= names@.len(),
                forall|a: int, b: int|
                    0 <= a < i && 0 <= b < certs@[a].dns_names@.len() ==> !#[trigger] name_matches(
                        hostname@,
                        certs@[a].dns_names@[b]@,
                    ),
                forall|b: int| 0 <= b < j ==> !#[trigger] name_matches(hostname@, names@[b]@),
            decreases names@.len() - j,
        {
            if dns_name_matches(hostname, names[j].as_str()) {
                assert(name_matches(hostname@, certs@[i as int].dns_names@[j as int]@));
                return true;
            }
            j += 1;
        }
        i += 1;
    }
    false
}

} // verus!
