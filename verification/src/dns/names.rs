//! DNS name syntax, reverse-lookup names and DNS-over-HTTPS endpoints.

use vstd::prelude::*;

use crate::error::{CfProbeError, ErrorView};
use crate::net::{IpAddr, Ipv6Addr, parse_ip, parsed_ip};
use vstd::utf8::encode_utf8;

use crate::text::{
    char_from, chars_of, copy_str, decimal, decimal_exec, hex_digit, push_str, starts_with, starts_with_exec,
    string_of, string_push, sub_vec, trim, trim_end_char, trim_end_char_exec, trim_exec,
};

verus! {

/// A letter, a digit or a hyphen.
pub open spec fn label_char(c: char) -> bool {
    ('a' <= c && c <= 'z') || ('A' <= c && c <= 'Z') || ('0' <= c && c <= '9') || c == '-'
}

/// What is wrong with one label, checked in this order: empty, longer
/// than 63 bytes, a hyphen at either end, a character other than a letter,
/// digit or hyphen.
pub open spec fn label_problem(label: Seq<char>, hostname: Seq<char>) -> Option<Seq<char>> {
    if label.len() == 0 {
        Some("empty label in hostname: "@ + hostname)
    } else if encode_utf8(label).len() > 63 {
        Some("label too long: "@ + decimal(encode_utf8(label).len()) + " chars (max 63)"@)
    } else if label[0] == '-' || label.last() == '-' {
        Some("label starts or ends with hyphen: "@ + label)
    } else if exists|i: int| 0 <= i < label.len() && !label_char(#[trigger] label[i]) {
        Some("label contains invalid characters: "@ + label)
    } else {
        None
    }
}

/// Index of the first occurrence of the character, or the length when
/// there is none.
pub open spec fn first_of(s: Seq<char>, c: char) -> nat
    decreases s.len(),
{
    if s.len() == 0 {
        0
    } else if s[0] == c {
        0
    } else {
        1 + first_of(s.drop_first(), c)
    }
}

/// The problem of the first bad label of a dot-separated name.
pub open spec fn labels_problem(s: Seq<char>, hostname: Seq<char>) -> Option<Seq<char>>
    decreases s.len(),
{
    let k = first_of(s, '.');
    match label_problem(s.take(k as int), hostname) {
        Some(e) => Some(e),
        None => if k < s.len() {
            labels_problem(s.skip((k + 1) as int), hostname)
        } else {
            None
        },
    }
}

/// What is wrong with a host name, if anything: the name is taken trimmed
/// and without trailing dots; it must not be empty, must have at most 253
/// bytes, and each of its labels must be good.
pub open spec fn hostname_problem(hostname: Seq<char>) -> Option<Seq<char>> {
    let t = trim_end_char(trim(hostname), '.');
    if t.len() == 0 {
        Some("hostname cannot be empty"@)
    } else if encode_utf8(t).len() > 253 {
        Some("hostname too long: "@ + decimal(encode_utf8(t).len()) + " chars (max 253)"@)
    } else {
        labels_problem(t, hostname)
    }
}

proof fn lemma_first_of(s: Seq<char>, c: char, k: int)
    requires
        0 <= k <= s.len(),
        forall|i: int| 0 <= i < k ==> s[i] != c,
        k == s.len() || s[k] == c,
    ensures
        first_of(s, c) == k,
    decreases k,
{
    if k > 0 {
        lemma_first_of(s.drop_first(), c, k - 1);
    }
}

fn label_check(label: &[char], hostname: &str) -> (r: Option<String>)
    ensures
        match label_problem(label@, hostname@) {
            None => r is None,
            Some(m) => r matches Some(x) && x@ == m,
        },
{
    if label.len() == 0 {
        let mut m = String::new();
        push_str(&mut m, "empty label in hostname: ");
        push_str(&mut m, hostname);
        return Some(m);
    }
    let ls = string_of(label);
    let n = ls.as_str().as_bytes().len();
    if n > 63 {
        let mut m = String::new();
        push_str(&mut m, "label too long: ");
        let d = decimal_exec(n as u64);
        push_str(&mut m, d.as_str());
        push_str(&mut m, " chars (max 63)");
        return Some(m);
    }
    if label[0] == '-' || label[label.len() - 1] == '-' {
        let mut m = String::new();
        push_str(&mut m, "label starts or ends with hyphen: ");
        let l = string_of(label);
        push_str(&mut m, l.as_str());
        return Some(m);
    }
    let mut i: usize = 0;
    while i < label.len()
        invariant
            i <= label@.len(),
            label@.len() > 0,
            encode_utf8(label@).len() <= 63,
            label@[0] != '-' && label@.last() != '-',
            forall|j: int| 0 <= j < i ==> label_char(#[trigger] label@[j]),
        decreases label@.len() - i,
    {
        let c = label[i];
        if !(('a' <= c && c <= 'z') || ('A' <= c && c <= 'Z') || ('0' <= c && c <= '9') || c == '-') {
            assert(!label_char(label@[i as int]));
            let mut m = String::new();
            push_str(&mut m, "label contains invalid characters: ");
            let l = string_of(label);
            push_str(&mut m, l.as_str());
            return Some(m);
        }
        i += 1;
    }
    None
}

/// Checks the syntax of a host name; see `hostname_problem`.
pub fn validate_hostname(hostname: &str) -> (r: Result<(), CfProbeError>)
    ensures
        match hostname_problem(hostname@) {
            None => r is Ok,
            Some(m) => r matches Err(e) && e@ == ErrorView::InvalidResponse(m),
        },
{
    let cs = chars_of(hostname);
    let trimmed = trim_exec(cs.as_slice());
    let t = trim_end_char_exec(trimmed.as_slice(), '.');
    if t.len() == 0 {
        return Err(CfProbeError::invalid(copy_str("hostname cannot be empty")));
    }
    let ts = string_of(t.as_slice());
    let n = ts.as_str().as_bytes().len();
    if n > 253 {
        let mut m = String::new();
        push_str(&mut m, "hostname too long: ");
        let d = decimal_exec(n as u64);
        push_str(&mut m, d.as_str());
        push_str(&mut m, " chars (max 253)");
        return Err(CfProbeError::invalid(m));
    }
    let mut start: usize = 0;
    assert(t@.skip(0) =~= t@);
    loop
        invariant
            start <= t@.len(),
            hostname_problem(hostname@) == labels_problem(t@, hostname@),
            labels_problem(t@, hostname@) == labels_problem(t@.skip(start as int), hostname@),
        decreases t@.len() - start,
    {
        let mut k = start;
        while k < t.len() && t[k] != '.'
            invariant
                start <= k <= t@.len(),
                forall|j: int| start <= j < k ==> t@[j] != '.',
            decreases t@.len() - k,
        {
            k += 1;
        }
        let ghost rest = t@.skip(start as int);
        proof {
            lemma_first_of(rest, '.', k - start);
            assert(rest.take(k - start) =~= t@.subrange(start as int, k as int));
        }
        let label = sub_vec(t.as_slice(), start, k);
        assert(label@ == rest.take(first_of(rest, '.') as int));
        match label_check(label.as_slice(), hostname) {
            Some(m) => {
                return Err(CfProbeError::invalid(m));
            },
            None => {},
        }
        if k == t.len() {
            return Ok(());
        }
        proof {
            assert(rest.skip(k - start + 1) =~= t@.skip(k + 1));
        }
        start = k + 1;
    }
}

/// The `i`-th hexadecimal digit of the address, most significant first.
pub open spec fn ipv6_nibble(v: Ipv6Addr, i: int) -> nat {
    let seg = v.segments()[i / 4] as nat;
    let k = i % 4;
    if k == 0 {
        seg / 4096
    } else if k == 1 {
        (seg / 256) % 16
    } else if k == 2 {
        (seg / 16) % 16
    } else {
        seg % 16
    }
}

/// The 32 hexadecimal digits of the address in order, separated by dots.
pub open spec fn nibble_text(v: Ipv6Addr) -> Seq<char> {
    Seq::new(63, |j: int| if j % 2 == 1 {
        '.'
    } else {
        hex_digit(ipv6_nibble(v, j / 2))
    })
}

/// The name of the PTR query for an address: the octets in reverse order
/// under `in-addr.arpa.` for IPv4; for IPv6 the digits as `nibble_text`
/// writes them, under `ip6.arpa.`.
pub open spec fn reverse_name(ip: IpAddr) -> Seq<char> {
    match ip {
        IpAddr::V4(v) => decimal(v.d as nat) + "."@ + decimal(v.c as nat) + "."@ + decimal(v.b as nat)
            + "."@ + decimal(v.a as nat) + ".in-addr.arpa."@,
        IpAddr::V6(v) => nibble_text(v) + ".ip6.arpa."@,
    }
}

fn segment_at(v: &Ipv6Addr, i: usize) -> (r: u16)
    requires
        i < 8,
    ensures
        r == v.segments()[i as int],
{
    match i {
        0 => v.s0,
        1 => v.s1,
        2 => v.s2,
        3 => v.s3,
        4 => v.s4,
        5 => v.s5,
        6 => v.s6,
        _ => v.s7,
    }
}

pub fn reverse_arpa(ip: &IpAddr) -> (r: String)
    ensures
        r@ == reverse_name(*ip),
{
    match ip {
        IpAddr::V4(v) => {
            let mut r = decimal_exec(v.d as u64);
            push_str(&mut r, ".");
            let t = decimal_exec(v.c as u64);
            push_str(&mut r, t.as_str());
            push_str(&mut r, ".");
            let t = decimal_exec(v.b as u64);
            push_str(&mut r, t.as_str());
            push_str(&mut r, ".");
            let t = decimal_exec(v.a as u64);
            push_str(&mut r, t.as_str());
            push_str(&mut r, ".in-addr.arpa.");
            r
        },
        IpAddr::V6(v) => {
            let ghost full = nibble_text(*v);
            let mut r = String::new();
            let mut i: usize = 0;
            while i < 32
                invariant
                    i <= 32,
                    full == nibble_text(*v),
                    r@ == full.take(if i == 0 {
                        0
                    } else {
                        2 * i - 1
                    }),
                decreases 32 - i,
            {
                let ghost before = r@;
                if i > 0 {
                    string_push(&mut r, '.');
                }
                let seg = segment_at(v, i / 4);
                let k = i % 4;
                let d: u16 = if k == 0 {
                    seg / 4096
                } else if k == 1 {
                    (seg / 256) % 16
                } else if k == 2 {
                    (seg / 16) % 16
                } else {
                    seg % 16
                };
                assert(d as nat == ipv6_nibble(*v, i as int));
                let c = char_from(
                    if d < 10 {
                        d as u32 + 48
                    } else {
                        d as u32 + 87
                    },
                );
                string_push(&mut r, c);
                proof {
                    assert(c == hex_digit(d as nat));
                    if i == 0 {
                        assert(r@ =~= full.take(1));
                    } else {
                        assert(r@ =~= full.take(2 * i + 1));
                    }
                }
                i += 1;
            }
            assert(r@ =~= full);
            push_str(&mut r, ".ip6.arpa.");
            r
        },
    }
}

/// `s` without every leading repetition of `prefix`
/// (`str::trim_start_matches`).
pub open spec fn strip_prefixes(s: Seq<char>, prefix: Seq<char>) -> Seq<char>
    decreases s.len(),
{
    if prefix.len() > 0 && starts_with(s, prefix) {
        strip_prefixes(s.skip(prefix.len() as int), prefix)
    } else {
        s
    }
}

fn strip_prefixes_exec(s: &[char], prefix: &[char]) -> (r: Vec<char>)
    ensures
        r@ == strip_prefixes(s@, prefix@),
{
    let mut start: usize = 0;
    assert(s@.skip(0) =~= s@);
    loop
        invariant
            start <= s@.len(),
            strip_prefixes(s@, prefix@) == strip_prefixes(s@.skip(start as int), prefix@),
        decreases s@.len() - start,
    {
        let rest = sub_vec(s, start, s.len());
        assert(rest@ =~= s@.skip(start as int));
        if prefix.len() > 0 && starts_with_exec(rest.as_slice(), prefix) {
            assert(s@.skip(start as int).skip(prefix@.len() as int) =~= s@.skip(start + prefix@.len()));
            start = start + prefix.len();
        } else {
            return rest;
        }
    }
}

/// The address, host and path of a DNS-over-HTTPS URL: the URL without
/// leading `https://` and `http://`, split at its first `/` (the path is
/// `/dns-query` when there is none); the host must be an IP address.
pub open spec fn doh_endpoint(url: Seq<char>) -> Result<(IpAddr, Seq<char>, Seq<char>), Seq<char>> {
    let hp = strip_prefixes(strip_prefixes(url, "https://"@), "http://"@);
    let k = first_of(hp, '/');
    let host = hp.take(k as int);
    let path = if k < hp.len() {
        hp.skip(k as int)
    } else {
        "/dns-query"@
    };
    match parsed_ip(host) {
        Some(ip) => Ok((ip, host, path)),
        None => Err("DoH host is not an IP address: "@ + host),
    }
}

pub fn parse_doh_endpoint(url: &str) -> (r: Result<(IpAddr, String, String), CfProbeError>)
    ensures
        match doh_endpoint(url@) {
            Ok((ip, host, path)) => r matches Ok((a, h, p)) && a == ip && h@ == host && p@ == path,
            Err(m) => r matches Err(e) && e@ == (ErrorView::Dns { message: m }),
        },
{
    let cs = chars_of(url);
    let https = chars_of("https://");
    let http = chars_of("http://");
    let a = strip_prefixes_exec(cs.as_slice(), https.as_slice());
    let hp = strip_prefixes_exec(a.as_slice(), http.as_slice());
    let mut k: usize = 0;
    while k < hp.len() && hp[k] != '/'
        invariant
            k <= hp@.len(),
            forall|j: int| 0 <= j < k ==> hp@[j] != '/',
        decreases hp@.len() - k,
    {
        k += 1;
    }
    proof {
        lemma_first_of(hp@, '/', k as int);
    }
    let host_chars = sub_vec(hp.as_slice(), 0, k);
    assert(host_chars@ =~= hp@.take(k as int));
    let host = string_of(host_chars.as_slice());
    let path = if k < hp.len() {
        let p = sub_vec(hp.as_slice(), k, hp.len());
        assert(p@ =~= hp@.skip(k as int));
        string_of(p.as_slice())
    } else {
        copy_str("/dns-query")
    };
    match parse_ip(host.as_str()) {
        Some(ip) => Ok((ip, host, path)),
        None => {
            let mut m = copy_str("DoH host is not an IP address: ");
            push_str(&mut m, host.as_str());
            Err(CfProbeError::Dns { message: m })
        },
    }
}

} // verus!
