//! The target security policy: which addresses, host names and ports a
//! probe may reach, and which DNS answers make a host name unusable.

use vstd::prelude::*;

use std::collections::BTreeSet;

use crate::dns::model::{DnsDetection, ResolverObservation};
use crate::error::{CfProbeError, ErrorView};
use crate::hostname::{normalize_hostname, normalized};
use crate::http::HttpScheme;
use crate::net::{ip_text, ip_to_string, parse_ip, parsed_ip, IpAddr, Ipv4Addr, Ipv6Addr};
use crate::probe::target::Target;
use crate::text::{
    chars_of, concat2, concat3, copy_str, decimal, decimal_exec, ends_with, ends_with_exec,
    push_str, seq_eq_exec,
};

verus! {

broadcast use vstd::std_specs::btree::group_btree_axioms;

/// The policy for active probing of public web services.
#[derive(Debug, Clone)]
pub struct TargetPolicy {
    pub allow_private_ips: bool,
    pub allow_loopback: bool,
    pub allow_link_local: bool,
    pub allow_multicast: bool,
    pub allow_unspecified: bool,
    /// Documentation, benchmarking and other special-use ranges.
    pub allow_special_use_ips: bool,
    /// Host names that name local networks (localhost, .local, .internal, ...).
    pub allow_local_hostnames: bool,
    /// Refuse a host name whose DNS answers hold private or special-use addresses.
    pub reject_private_dns_answers: bool,
    pub allowed_http_ports: BTreeSet<u16>,
    pub allowed_https_ports: BTreeSet<u16>,
    pub max_hostname_length: usize,
}

/// The ranges an address belongs to.
#[derive(Debug, Clone, Copy, PartialEq, Eq, Structural)]
pub struct IpClassification {
    pub private: bool,
    pub loopback: bool,
    pub link_local: bool,
    pub multicast: bool,
    pub unspecified: bool,
    pub special_use: bool,
}

/// 100.64.0.0/10.
pub open spec fn is_cgnat_v4(v: Ipv4Addr) -> bool {
    v.a == 100 && 64 <= v.b <= 127
}

/// 0/8, 127/8, 169.254/16, 192.0.0/24, 192.0.2/24, 198.18/15,
/// 198.51.100/24, 203.0.113/24, 224/4 and 240/4.
pub open spec fn is_special_use_v4(a: u8, b: u8, c: u8) -> bool {
    ||| a == 0
    ||| a == 127
    ||| a == 169 && b == 254
    ||| a == 192 && b == 0 && c == 0
    ||| a == 192 && b == 0 && c == 2
    ||| a == 198 && 18 <= b <= 19
    ||| a == 198 && b == 51 && c == 100
    ||| a == 203 && b == 0 && c == 113
    ||| 224 <= a <= 239
    ||| a >= 240
}

/// 2001:db8::/32, 2001:2::/48, 100::/64 and ff00::/8.
pub open spec fn is_special_use_v6(v: Ipv6Addr) -> bool {
    ||| v.s0 == 0x2001 && v.s1 == 0x0db8
    ||| v.s0 == 0x2001 && v.s1 == 0x0002 && v.s2 == 0
    ||| v.s0 == 0x0100 && v.s1 == 0 && v.s2 == 0 && v.s3 == 0
    ||| v.s0 >= 0xff00
}

pub open spec fn classify_v4(v: Ipv4Addr) -> IpClassification {
    IpClassification {
        private: v.spec_is_private() || is_cgnat_v4(v),
        loopback: v.spec_is_loopback(),
        link_local: v.spec_is_link_local(),
        multicast: v.spec_is_multicast(),
        unspecified: v.spec_is_unspecified(),
        special_use: is_special_use_v4(v.a, v.b, v.c),
    }
}

/// The classes of an IPv6 address by the IPv6 rules alone.
pub open spec fn classify_v6_native(v: Ipv6Addr) -> IpClassification {
    IpClassification {
        private: v.spec_is_unique_local(),
        loopback: v.spec_is_loopback(),
        link_local: v.spec_is_unicast_link_local(),
        multicast: v.spec_is_multicast(),
        unspecified: v.spec_is_unspecified(),
        special_use: is_special_use_v6(v),
    }
}

/// The IPv6 loopback `::1` is loopback; any other IPv6 address with an
/// IPv4 form is judged by the IPv4 rules.
pub open spec fn classify_v6(v: Ipv6Addr) -> IpClassification {
    if v.spec_is_loopback() {
        classify_v6_native(v)
    } else {
        match v.spec_to_ipv4() {
            Some(x) => classify_v4(x),
            None => classify_v6_native(v),
        }
    }
}

pub open spec fn classification(ip: IpAddr) -> IpClassification {
    match ip {
        IpAddr::V4(v) => classify_v4(v),
        IpAddr::V6(v) => classify_v6(v),
    }
}

/// The address must not be probed when DNS answers with it.
pub open spec fn forbidden(ip: IpAddr) -> bool {
    let c = classification(ip);
    c.private || c.loopback || c.link_local || c.multicast || c.unspecified || c.special_use
}

pub fn is_ipv4_cgnat(v: &Ipv4Addr) -> (r: bool)
    ensures
        r == is_cgnat_v4(*v),
{
    v.a == 100 && 64 <= v.b && v.b <= 127
}

pub fn is_ipv4_special_use(first: u8, second: u8, third: u8) -> (r: bool)
    ensures
        r == is_special_use_v4(first, second, third),
{
    if first == 0 {
        return true;
    }
    if first == 127 {
        return true;
    }
    if first == 169 && second == 254 {
        return true;
    }
    if first == 192 && second == 0 && third == 0 {
        return true;
    }
    if first == 192 && second == 0 && third == 2 {
        return true;
    }
    if first == 198 && 18 <= second && second <= 19 {
        return true;
    }
    if first == 198 && second == 51 && third == 100 {
        return true;
    }
    if first == 203 && second == 0 && third == 113 {
        return true;
    }
    if 224 <= first && first <= 239 {
        return true;
    }
    if first >= 240 {
        return true;
    }
    false
}

pub fn is_ipv6_special_use(v: &Ipv6Addr) -> (r: bool)
    ensures
        r == is_special_use_v6(*v),
{
    if v.s0 == 0x2001 && v.s1 == 0x0db8 {
        return true;
    }
    if v.s0 == 0x2001 && v.s1 == 0x0002 && v.s2 == 0 {
        return true;
    }
    if v.s0 == 0x0100 && v.s1 == 0 && v.s2 == 0 && v.s3 == 0 {
        return true;
    }
    v.s0 >= 0xff00
}

fn classify_ipv4(v: &Ipv4Addr) -> (r: IpClassification)
    ensures
        r == classify_v4(*v),
{
    IpClassification {
        private: v.is_private() || is_ipv4_cgnat(v),
        loopback: v.is_loopback(),
        link_local: v.is_link_local(),
        multicast: v.is_multicast(),
        unspecified: v.is_unspecified(),
        special_use: is_ipv4_special_use(v.a, v.b, v.c),
    }
}

fn classify_ipv6(v: &Ipv6Addr) -> (r: IpClassification)
    ensures
        r == classify_v6(*v),
{
    let native = IpClassification {
        private: v.is_unique_local(),
        loopback: v.is_loopback(),
        link_local: v.is_unicast_link_local(),
        multicast: v.is_multicast(),
        unspecified: v.is_unspecified(),
        special_use: is_ipv6_special_use(v),
    };
    if native.loopback {
        return native;
    }
    match v.to_ipv4() {
        Some(x) => classify_ipv4(&x),
        None => native,
    }
}

pub fn classify_ip(ip: &IpAddr) -> (r: IpClassification)
    ensures
        r == classification(*ip),
{
    match ip {
        IpAddr::V4(v) => classify_ipv4(v),
        IpAddr::V6(v) => classify_ipv6(v),
    }
}

pub fn is_forbidden_ssrf_ip(ip: &IpAddr) -> (r: bool)
    ensures
        r == forbidden(*ip),
{
    let c = classify_ip(ip);
    c.private || c.loopback || c.link_local || c.multicast || c.unspecified || c.special_use
}

/// The suffixes of host names of local networks.
pub open spec fn local_suffixes() -> Seq<Seq<char>> {
    seq![
        ".local"@,
        ".localhost"@,
        ".localdomain"@,
        ".internal"@,
        ".intranet"@,
        ".lan"@,
        ".home.arpa"@,
    ]
}

/// After normalisation: localhost, localhost.localdomain, or a name under a
/// local suffix.
pub open spec fn is_local_host(h: Seq<char>) -> bool {
    let n = normalized(h);
    n == "localhost"@ || n == "localhost.localdomain"@ || exists|i: int|
        0 <= i < local_suffixes().len() && ends_with(n, #[trigger] local_suffixes()[i])
}

pub fn is_local_hostname(hostname: &str) -> (r: bool)
    ensures
        r == is_local_host(hostname@),
{
    let n = normalize_hostname(hostname);
    let nc = chars_of(n.as_str());
    let lh = chars_of("localhost");
    let lld = chars_of("localhost.localdomain");
    if seq_eq_exec(nc.as_slice(), lh.as_slice()) || seq_eq_exec(nc.as_slice(), lld.as_slice()) {
        return true;
    }
    let suffixes: [&str; 7] = [
        ".local",
        ".localhost",
        ".localdomain",
        ".internal",
        ".intranet",
        ".lan",
        ".home.arpa",
    ];
    let mut k: usize = 0;
    while k < 7
        invariant
            k <= 7,
            nc@ == normalized(hostname@),
            forall|m: int| 0 <= m < 7 ==> (#[trigger] suffixes@[m])@ == local_suffixes()[m],
            forall|m: int| 0 <= m < k ==> !ends_with(nc@, #[trigger] local_suffixes()[m]),
        decreases 7 - k,
    {
        let sc = chars_of(suffixes[k]);
        if ends_with_exec(nc.as_slice(), sc.as_slice()) {
            return true;
        }
        k += 1;
    }
    false
}

/// The reason a host name's address is refused, if it is.
pub open spec fn ip_refusal(p: TargetPolicy, ip: IpAddr) -> Option<Seq<char>> {
    let c = classification(ip);
    if c.loopback && !p.allow_loopback {
        Some("loopback IP is not allowed: "@ + ip_text(ip))
    } else if c.private && !p.allow_private_ips {
        Some("private IP is not allowed: "@ + ip_text(ip))
    } else if c.link_local && !p.allow_link_local {
        Some("link-local IP is not allowed: "@ + ip_text(ip))
    } else if c.multicast && !p.allow_multicast {
        Some("multicast IP is not allowed: "@ + ip_text(ip))
    } else if c.unspecified && !p.allow_unspecified {
        Some("unspecified IP is not allowed: "@ + ip_text(ip))
    } else if c.special_use && !p.allow_special_use_ips {
        Some("special-use/documentation IP is not allowed: "@ + ip_text(ip))
    } else {
        None
    }
}

/// The reason a port is refused for the scheme, if it is.
pub open spec fn port_refusal(p: TargetPolicy, scheme: HttpScheme, port: u16) -> Option<Seq<char>> {
    if port == 0 {
        Some("port cannot be 0"@)
    } else if !(match scheme {
        HttpScheme::Http => p.allowed_http_ports@.contains(port),
        HttpScheme::Https => p.allowed_https_ports@.contains(port),
    }) {
        Some(
            scheme.debug_text() + " port "@ + decimal(port as nat)
                + " is not allowed by the target policy"@,
        )
    } else {
        None
    }
}

/// The verdict on a target, in the order the checks are made: structure,
/// host name length in bytes, local host names, IP literals as host names,
/// the address, the port.
pub open spec fn target_verdict(p: TargetPolicy, t: Target) -> Result<(), ErrorView> {
    let h = normalized(t.hostname@);
    match t.check() {
        Err(e) => Err(e),
        Ok(_) => if vstd::utf8::encode_utf8(t.hostname@).len() > p.max_hostname_length {
            Err(
                ErrorView::TargetRejected {
                    reason: "hostname exceeds maximum length of "@ + decimal(
                        p.max_hostname_length as nat,
                    ) + " bytes"@,
                },
            )
        } else if !p.allow_local_hostnames && is_local_host(h) {
            Err(ErrorView::TargetRejected { reason: "local/internal hostname is not allowed: "@ + h })
        } else if parsed_ip(h) is Some {
            Err(ErrorView::TargetRejected { reason: "IP literal is not allowed as hostname: "@ + h })
        } else {
            match ip_refusal(p, t.ip) {
                Some(m) => Err(ErrorView::TargetRejected { reason: m }),
                None => match port_refusal(p, t.scheme, t.port) {
                    Some(m) => Err(ErrorView::TargetRejected { reason: m }),
                    None => Ok(()),
                },
            }
        },
    }
}

/// The first address of the list that DNS must not answer with.
pub open spec fn first_forbidden(ips: Seq<IpAddr>) -> Option<IpAddr>
    decreases ips.len(),
{
    if ips.len() == 0 {
        None
    } else if forbidden(ips[0]) {
        Some(ips[0])
    } else {
        first_forbidden(ips.drop_first())
    }
}

/// Every CNAME of every observation, in order.
pub open spec fn all_cnames(obs: Seq<ResolverObservation>) -> Seq<Seq<char>>
    decreases obs.len(),
{
    if obs.len() == 0 {
        seq![]
    } else {
        obs[0].cname_chain@.map_values(|c: String| c@) + all_cnames(obs.drop_first())
    }
}

/// The first name of the list that names a local network.
pub open spec fn first_local(names: Seq<Seq<char>>) -> Option<Seq<char>>
    decreases names.len(),
{
    if names.len() == 0 {
        None
    } else if local_cname(names[0]) {
        Some(names[0])
    } else {
        first_local(names.drop_first())
    }
}

/// A CNAME names a local host once normalised (the host-name test
/// normalises once more).
pub open spec fn local_cname(c: Seq<char>) -> bool {
    is_local_host(normalized(c))
}

/// The verdict on a DNS result: a local host name, a private or special-use
/// answer, or a CNAME to a local name refuses the host name.
pub open spec fn dns_verdict(p: TargetPolicy, d: DnsDetection) -> Result<(), ErrorView> {
    let h = normalized(d.hostname@);
    if !p.allow_local_hostnames && is_local_host(h) {
        Err(ErrorView::TargetRejected { reason: "DNS target hostname is local/internal: "@ + h })
    } else if !p.reject_private_dns_answers {
        Ok(())
    } else {
        match first_forbidden(d.union_ips@) {
            Some(ip) => Err(
                ErrorView::TargetRejected {
                    reason: "hostname "@ + d.hostname@ + " resolved to a private or special-use IP "@
                        + ip_text(ip),
                },
            ),
            None => if !p.allow_local_hostnames {
                match first_local(all_cnames(d.observations@)) {
                    Some(c) => Err(
                        ErrorView::TargetRejected {
                            reason: "hostname CNAME points to local/internal name: "@ + c,
                        },
                    ),
                    None => Ok(()),
                }
            } else {
                Ok(())
            },
        }
    }
}

proof fn lemma_first_forbidden_skip(ips: Seq<IpAddr>, k: int)
    requires
        0 <= k < ips.len(),
        forall|m: int| 0 <= m < k ==> !forbidden(#[trigger] ips[m]),
    ensures
        first_forbidden(ips) == first_forbidden(ips.skip(k)),
    decreases k,
{
    if k > 0 {
        assert(!forbidden(ips[0]));
        assert(ips.drop_first().skip(k - 1) =~= ips.skip(k));
        lemma_first_forbidden_skip(ips.drop_first(), k - 1);
    } else {
        assert(ips.skip(0) =~= ips);
    }
}

proof fn lemma_first_local_skip(names: Seq<Seq<char>>, k: int)
    requires
        0 <= k <= names.len(),
        forall|m: int| 0 <= m < k ==> !local_cname(#[trigger] names[m]),
    ensures
        first_local(names) == first_local(names.skip(k)),
    decreases k,
{
    if k > 0 {
        assert(!local_cname(names[0]));
        assert(names.drop_first().skip(k - 1) =~= names.skip(k));
        lemma_first_local_skip(names.drop_first(), k - 1);
    } else {
        assert(names.skip(0) =~= names);
    }
}

proof fn lemma_first_local_concat(a: Seq<Seq<char>>, b: Seq<Seq<char>>)
    requires
        forall|m: int| 0 <= m < a.len() ==> !local_cname(#[trigger] a[m]),
    ensures
        first_local(a + b) == first_local(b),
    decreases a.len(),
{
    if a.len() > 0 {
        assert((a + b).drop_first() =~= a.drop_first() + b);
        lemma_first_local_concat(a.drop_first(), b);
    } else {
        assert(a + b =~= b);
    }
}

impl TargetPolicy {
    /// The default policy: nothing private or special is allowed, DNS answers
    /// are checked, and only the ports Cloudflare proxies are open.
    pub fn cloudflare_web_proxy_v1() -> (p: TargetPolicy)
        ensures
            !p.allow_private_ips && !p.allow_loopback && !p.allow_link_local && !p.allow_multicast
                && !p.allow_unspecified && !p.allow_special_use_ips && !p.allow_local_hostnames,
            p.reject_private_dns_answers,
            p.allowed_http_ports@ == set![80u16, 8080, 8880, 2052, 2082, 2086, 2095],
            p.allowed_https_ports@ == set![443u16, 2053, 2083, 2087, 2096, 8443],
            p.max_hostname_length == 253,
    {
        let mut http_ports: BTreeSet<u16> = BTreeSet::new();
        http_ports.insert(80);
        http_ports.insert(8080);
        http_ports.insert(8880);
        http_ports.insert(2052);
        http_ports.insert(2082);
        http_ports.insert(2086);
        http_ports.insert(2095);
        let mut https_ports: BTreeSet<u16> = BTreeSet::new();
        https_ports.insert(443);
        https_ports.insert(2053);
        https_ports.insert(2083);
        https_ports.insert(2087);
        https_ports.insert(2096);
        https_ports.insert(8443);
        TargetPolicy {
            allow_private_ips: false,
            allow_loopback: false,
            allow_link_local: false,
            allow_multicast: false,
            allow_unspecified: false,
            allow_special_use_ips: false,
            allow_local_hostnames: false,
            reject_private_dns_answers: true,
            allowed_http_ports: http_ports,
            allowed_https_ports: https_ports,
            max_hostname_length: 253,
        }
    }

    /// A policy for development and internal networks: private, loopback,
    /// link-local and special-use addresses and local names are allowed, DNS
    /// answers are not checked, every non-zero port is open.
    pub fn development() -> (p: TargetPolicy)
        ensures
            p.allow_private_ips && p.allow_loopback && p.allow_link_local && !p.allow_multicast
                && !p.allow_unspecified && p.allow_special_use_ips && p.allow_local_hostnames,
            !p.reject_private_dns_answers,
            p.allowed_http_ports@ == Set::new(|q: u16| 1 <= q),
            p.allowed_https_ports@ == Set::new(|q: u16| 1 <= q),
            p.max_hostname_length == 253,
    {
        let all = all_nonzero_ports();
        TargetPolicy {
            allow_private_ips: true,
            allow_loopback: true,
            allow_link_local: true,
            allow_multicast: false,
            allow_unspecified: false,
            allow_special_use_ips: true,
            allow_local_hostnames: true,
            reject_private_dns_answers: false,
            allowed_http_ports: all.clone(),
            allowed_https_ports: all,
            max_hostname_length: 253,
        }
    }

    pub fn allow_private_ips(self, allow: bool) -> (p: TargetPolicy)
        ensures
            p == (TargetPolicy { allow_private_ips: allow, ..self }),
    {
        TargetPolicy { allow_private_ips: allow, ..self }
    }

    pub fn allow_loopback(self, allow: bool) -> (p: TargetPolicy)
        ensures
            p == (TargetPolicy { allow_loopback: allow, ..self }),
    {
        TargetPolicy { allow_loopback: allow, ..self }
    }

    pub fn allow_link_local(self, allow: bool) -> (p: TargetPolicy)
        ensures
            p == (TargetPolicy { allow_link_local: allow, ..self }),
    {
        TargetPolicy { allow_link_local: allow, ..self }
    }

    pub fn allow_multicast(self, allow: bool) -> (p: TargetPolicy)
        ensures
            p == (TargetPolicy { allow_multicast: allow, ..self }),
    {
        TargetPolicy { allow_multicast: allow, ..self }
    }

    pub fn allow_unspecified(self, allow: bool) -> (p: TargetPolicy)
        ensures
            p == (TargetPolicy { allow_unspecified: allow, ..self }),
    {
        TargetPolicy { allow_unspecified: allow, ..self }
    }

    pub fn allow_special_use_ips(self, allow: bool) -> (p: TargetPolicy)
        ensures
            p == (TargetPolicy { allow_special_use_ips: allow, ..self }),
    {
        TargetPolicy { allow_special_use_ips: allow, ..self }
    }

    pub fn allow_local_hostnames(self, allow: bool) -> (p: TargetPolicy)
        ensures
            p == (TargetPolicy { allow_local_hostnames: allow, ..self }),
    {
        TargetPolicy { allow_local_hostnames: allow, ..self }
    }

    pub fn reject_private_dns_answers(self, reject: bool) -> (p: TargetPolicy)
        ensures
            p == (TargetPolicy { reject_private_dns_answers: reject, ..self }),
    {
        TargetPolicy { reject_private_dns_answers: reject, ..self }
    }

    /// Opens one more HTTP port.
    pub fn allow_http_port(self, port: u16) -> (p: TargetPolicy)
        ensures
            p.allowed_http_ports@ == self.allowed_http_ports@.insert(port),
            p == (TargetPolicy { allowed_http_ports: p.allowed_http_ports, ..self }),
    {
        let mut s = self;
        s.allowed_http_ports.insert(port);
        s
    }

    /// Opens one more HTTPS port.
    pub fn allow_https_port(self, port: u16) -> (p: TargetPolicy)
        ensures
            p.allowed_https_ports@ == self.allowed_https_ports@.insert(port),
            p == (TargetPolicy { allowed_https_ports: p.allowed_https_ports, ..self }),
    {
        let mut s = self;
        s.allowed_https_ports.insert(port);
        s
    }

    /// Checks the target before any DNS, TLS or HTTP work.
    pub fn validate_target(&self, target: &Target) -> (r: Result<(), CfProbeError>)
        ensures
            match target_verdict(*self, *target) {
                Ok(_) => r is Ok,
                Err(e) => r matches Err(x) && x@ == e,
            },
    {
        target.validate()?;
        let nbytes = target.hostname.as_str().as_bytes().len();
        if nbytes > self.max_hostname_length {
            let d = decimal_exec(self.max_hostname_length as u64);
            let reason = concat3("hostname exceeds maximum length of ", d.as_str(), " bytes");
            return Err(CfProbeError::rejected(reason));
        }
        let hostname = normalize_hostname(target.hostname.as_str());
        if !self.allow_local_hostnames && is_local_hostname(hostname.as_str()) {
            let reason = concat2("local/internal hostname is not allowed: ", hostname.as_str());
            return Err(CfProbeError::rejected(reason));
        }
        if parse_ip(hostname.as_str()).is_some() {
            let reason = concat2("IP literal is not allowed as hostname: ", hostname.as_str());
            return Err(CfProbeError::rejected(reason));
        }
        self.validate_ip(target.ip)?;
        self.validate_port(target.scheme, target.port)?;
        Ok(())
    }

    /// Checks the address against the ranges the policy refuses.
    pub fn validate_ip(&self, ip: IpAddr) -> (r: Result<(), CfProbeError>)
        ensures
            match ip_refusal(*self, ip) {
                None => r is Ok,
                Some(m) => r matches Err(x) && x@ == (ErrorView::TargetRejected { reason: m }),
            },
    {
        let c = classify_ip(&ip);
        let text = ip_to_string(&ip);
        if c.loopback && !self.allow_loopback {
            return Err(CfProbeError::rejected(concat2("loopback IP is not allowed: ", text.as_str())));
        }
        if c.private && !self.allow_private_ips {
            return Err(CfProbeError::rejected(concat2("private IP is not allowed: ", text.as_str())));
        }
        if c.link_local && !self.allow_link_local {
            return Err(
                CfProbeError::rejected(concat2("link-local IP is not allowed: ", text.as_str())),
            );
        }
        if c.multicast && !self.allow_multicast {
            return Err(
                CfProbeError::rejected(concat2("multicast IP is not allowed: ", text.as_str())),
            );
        }
        if c.unspecified && !self.allow_unspecified {
            return Err(
                CfProbeError::rejected(concat2("unspecified IP is not allowed: ", text.as_str())),
            );
        }
        if c.special_use && !self.allow_special_use_ips {
            return Err(
                CfProbeError::rejected(
                    concat2("special-use/documentation IP is not allowed: ", text.as_str()),
                ),
            );
        }
        Ok(())
    }

    /// Checks the port against the ports open for the scheme.
    pub fn validate_port(&self, scheme: HttpScheme, port: u16) -> (r: Result<(), CfProbeError>)
        ensures
            match port_refusal(*self, scheme, port) {
                None => r is Ok,
                Some(m) => r matches Err(x) && x@ == (ErrorView::TargetRejected { reason: m }),
            },
    {
        if port == 0 {
            return Err(CfProbeError::rejected(copy_str("port cannot be 0")));
        }
        let allowed = match scheme {
            HttpScheme::Http => self.allowed_http_ports.contains(&port),
            HttpScheme::Https => self.allowed_https_ports.contains(&port),
        };
        if !allowed {
            let d = decimal_exec(port as u64);
            let mut reason = concat3(scheme.debug_str(), " port ", d.as_str());
            push_str(&mut reason, " is not allowed by the target policy");
            return Err(CfProbeError::rejected(reason));
        }
        Ok(())
    }

    /// Checks a DNS result before its host name is used further (SSRF and
    /// DNS rebinding protection).
    pub fn validate_dns(&self, dns: &DnsDetection) -> (r: Result<(), CfProbeError>)
        ensures
            match dns_verdict(*self, *dns) {
                Ok(_) => r is Ok,
                Err(e) => r matches Err(x) && x@ == e,
            },
    {
        let hostname = normalize_hostname(dns.hostname.as_str());
        if !self.allow_local_hostnames && is_local_hostname(hostname.as_str()) {
            let reason = concat2("DNS target hostname is local/internal: ", hostname.as_str());
            return Err(CfProbeError::rejected(reason));
        }
        if !self.reject_private_dns_answers {
            return Ok(());
        }
        let ghost h = normalized(dns.hostname@);
        assert(!(!self.allow_local_hostnames && is_local_host(h)));
        let mut k: usize = 0;
        while k < dns.union_ips.len()
            invariant
                k <= dns.union_ips@.len(),
                self.reject_private_dns_answers,
                h == normalized(dns.hostname@),
                !(!self.allow_local_hostnames && is_local_host(h)),
                forall|m: int| 0 <= m < k ==> !forbidden(#[trigger] dns.union_ips@[m]),
            decreases dns.union_ips@.len() - k,
        {
            let ip = dns.union_ips[k];
            if is_forbidden_ssrf_ip(&ip) {
                proof {
                    lemma_first_forbidden_skip(dns.union_ips@, k as int);
                    assert(dns.union_ips@.skip(k as int)[0] == ip);
                }
                let mut reason = concat3(
                    "hostname ",
                    dns.hostname.as_str(),
                    " resolved to a private or special-use IP ",
                );
                let text = ip_to_string(&ip);
                push_str(&mut reason, text.as_str());
                return Err(CfProbeError::rejected(reason));
            }
            k += 1;
        }
        proof {
            lemma_none_forbidden(dns.union_ips@);
        }
        if self.allow_local_hostnames {
            return Ok(());
        }
        let mut i: usize = 0;
        assert(dns.observations@.skip(0) =~= dns.observations@);
        while i < dns.observations.len()
            invariant
                !self.allow_local_hostnames,
                self.reject_private_dns_answers,
                h == normalized(dns.hostname@),
                !is_local_host(h),
                first_forbidden(dns.union_ips@) is None,
                i <= dns.observations@.len(),
                first_local(all_cnames(dns.observations@)) == first_local(
                    all_cnames(dns.observations@.skip(i as int)),
                ),
            decreases dns.observations@.len() - i,
        {
            let obs = &dns.observations[i];
            let ghost rest = dns.observations@.skip(i as int);
            let ghost names = obs.cname_chain@.map_values(|c: String| c@);
            proof {
                assert(rest[0] == *obs);
                assert(rest.drop_first() =~= dns.observations@.skip(i + 1));
                assert(all_cnames(rest) == names + all_cnames(rest.drop_first()));
            }
            let mut j: usize = 0;
            while j < obs.cname_chain.len()
                invariant
                    !self.allow_local_hostnames,
                    self.reject_private_dns_answers,
                    h == normalized(dns.hostname@),
                    !is_local_host(h),
                    first_forbidden(dns.union_ips@) is None,
                    i < dns.observations@.len(),
                    rest == dns.observations@.skip(i as int),
                    names == obs.cname_chain@.map_values(|c: String| c@),
                    all_cnames(rest) == names + all_cnames(rest.drop_first()),
                    first_local(all_cnames(dns.observations@)) == first_local(all_cnames(rest)),
                    j <= obs.cname_chain@.len(),
                    forall|m: int| 0 <= m < j ==> !local_cname(#[trigger] names[m]),
                decreases obs.cname_chain@.len() - j,
            {
                let cname = &obs.cname_chain[j];
                let normalized_cname = normalize_hostname(cname.as_str());
                if is_local_hostname(normalized_cname.as_str()) {
                    proof {
                        assert(names[j as int] == cname@);
                        lemma_first_local_prefix(names, all_cnames(rest.drop_first()), j as int);
                    }
                    let reason = concat2(
                        "hostname CNAME points to local/internal name: ",
                        cname.as_str(),
                    );
                    return Err(CfProbeError::rejected(reason));
                }
                proof {
                    assert(names[j as int] == cname@);
                }
                j += 1;
            }
            proof {
                lemma_first_local_concat(names, all_cnames(rest.drop_first()));
            }
            i += 1;
        }
        proof {
            assert(dns.observations@.skip(i as int) =~= Seq::<ResolverObservation>::empty());
        }
        Ok(())
    }
}

proof fn lemma_none_forbidden(ips: Seq<IpAddr>)
    requires
        forall|m: int| 0 <= m < ips.len() ==> !forbidden(#[trigger] ips[m]),
    ensures
        first_forbidden(ips) is None,
    decreases ips.len(),
{
    if ips.len() > 0 {
        assert(!forbidden(ips[0]));
        lemma_none_forbidden(ips.drop_first());
    }
}

/// A local name at position `j` of the first list, after only non-local ones,
/// is the first local name of the concatenation.
proof fn lemma_first_local_prefix(a: Seq<Seq<char>>, b: Seq<Seq<char>>, j: int)
    requires
        0 <= j < a.len(),
        local_cname(a[j]),
        forall|m: int| 0 <= m < j ==> !local_cname(#[trigger] a[m]),
    ensures
        first_local(a + b) == Some(a[j]),
    decreases j,
{
    if j == 0 {
        assert((a + b)[0] == a[0]);
    } else {
        assert(!local_cname(a[0]));
        assert((a + b).drop_first() =~= a.drop_first() + b);
        lemma_first_local_prefix(a.drop_first(), b, j - 1);
    }
}

/// The set of every port from 1 to 65535.
fn all_nonzero_ports() -> (s: BTreeSet<u16>)
    ensures
        s@ == Set::new(|q: u16| 1 <= q),
{
    let mut s: BTreeSet<u16> = BTreeSet::new();
    let mut port: u16 = 1;
    loop
        invariant
            1 <= port,
            s@ == Set::new(|q: u16| 1 <= q < port),
        decreases 65535 - port,
    {
        s.insert(port);
        if port == 65535 {
            assert(s@ =~= Set::new(|q: u16| 1 <= q));
            return s;
        }
        port += 1;
        assert(s@ =~= Set::new(|q: u16| 1 <= q < port));
    }
}

} // verus!
