//! The evidence engine: turns the results of the IP, DNS, TLS and HTTP
//! stages into weighted evidence items, a capped score, a verdict, a
//! confidence and a summary, by the rules of a policy.

use std::sync::Arc;

use vstd::prelude::*;

use crate::detector::CloudflareIpDetection;
use crate::dns::model::{DnsDetection, DnsDetectionStatus};
use crate::evidence::matching::{any_certificate_matches, certificate_matches};
use crate::evidence::model::{
    ConfidenceLevel, DetailsView, DetectionClassification, DetectionResult, EvidenceCategory, PolicyMetadata,
    EvidenceDetails, EvidenceDirection, EvidenceItem, EvidenceKind, ItemView, item_views, opt_text,
};
use crate::evidence::policy::{DetectionPolicy, RuleSet};
use crate::evidence::scoring::{
    aggregate, aggregate_score, calculate_confidence, classify, confidence_of, count_direction,
    count_items, level_of, min_int, verdict,
};
use crate::evidence::summary::{build_summary, summary_text};
use crate::evidence::tables::clamp_to;
use crate::hostname::{same_host, same_hostname};
use crate::http::{CloudflareHttpSignals, HttpDetection};
use crate::net::{copy_ips, ip_text, ip_to_string, IpAddr};
use crate::text::{concat2, concat3, copy_str, decimal, decimal_exec, push_str};
use crate::tls::{CertificateVerificationStatus, TlsDetection};

verus! {

/// The stage results that one evaluation combines. A stage that was not run
/// is `None`.
pub struct EvidenceInput<'a> {
    pub ip: IpAddr,
    pub hostname: Option<&'a str>,
    pub ip_detection: Option<&'a CloudflareIpDetection>,
    pub dns: Option<&'a DnsDetection>,
    pub tls: Option<&'a TlsDetection>,
    pub http: Option<&'a HttpDetection>,
}

impl<'a> EvidenceInput<'a> {
    /// An IP-only query: only the IP stage.
    pub fn ip_only(ip: IpAddr, ip_detection: &'a CloudflareIpDetection) -> (r: Self)
        ensures
            r.ip == ip,
            r.hostname is None,
            r.ip_detection == Some(ip_detection),
            r.dns is None && r.tls is None && r.http is None,
    {
        EvidenceInput { ip, hostname: None, ip_detection: Some(ip_detection), dns: None, tls: None, http: None }
    }

    /// A host-name query with whichever stages were run.
    pub fn with_host(
        ip: IpAddr,
        hostname: &'a str,
        ip_detection: Option<&'a CloudflareIpDetection>,
        dns: Option<&'a DnsDetection>,
        tls: Option<&'a TlsDetection>,
        http: Option<&'a HttpDetection>,
    ) -> (r: Self)
        ensures
            r.ip == ip,
            r.hostname == Some(hostname),
            r.ip_detection == ip_detection,
            r.dns == dns && r.tls == tls && r.http == http,
    {
        EvidenceInput { ip, hostname: Some(hostname), ip_detection, dns, tls, http }
    }

    /// Checks `consistent`.
    pub fn is_consistent(&self) -> (r: bool)
        ensures
            r == self@.consistent(),
    {
        if let Some(d) = self.ip_detection {
            if !d.ip.equals(&self.ip) {
                return false;
            }
        }
        if let Some(t) = self.tls {
            if !t.ip.equals(&self.ip) {
                return false;
            }
        }
        if let Some(x) = self.http {
            if !x.ip.equals(&self.ip) {
                return false;
            }
        }
        if let Some(h) = self.hostname {
            if let Some(t) = self.tls {
                if !same_hostname(t.hostname.as_str(), h) {
                    return false;
                }
            }
            if let Some(x) = self.http {
                if !same_hostname(x.hostname.as_str(), h) {
                    return false;
                }
            }
            if let Some(d) = self.dns {
                if !same_hostname(d.hostname.as_str(), h) {
                    return false;
                }
            }
        }
        true
    }

}

/// The stage results of an input, taken by value, with the host name as
/// characters.
pub struct InputView {
    pub ip: IpAddr,
    pub hostname: Option<Seq<char>>,
    pub ip_detection: Option<CloudflareIpDetection>,
    pub dns: Option<DnsDetection>,
    pub tls: Option<TlsDetection>,
    pub http: Option<HttpDetection>,
}

impl<'a> View for EvidenceInput<'a> {
    type V = InputView;

    open spec fn view(&self) -> InputView {
        InputView {
            ip: self.ip,
            hostname: match self.hostname {
                Some(h) => Some(h@),
                None => None,
            },
            ip_detection: match self.ip_detection {
                Some(d) => Some(*d),
                None => None,
            },
            dns: match self.dns {
                Some(d) => Some(*d),
                None => None,
            },
            tls: match self.tls {
                Some(t) => Some(*t),
                None => None,
            },
            http: match self.http {
                Some(x) => Some(*x),
                None => None,
            },
        }
    }
}

impl InputView {
    /// The stage results are about this address and host name.
    pub open spec fn consistent(self) -> bool {
        &&& (self.ip_detection matches Some(d) ==> d.ip == self.ip)
        &&& (self.tls matches Some(t) ==> t.ip == self.ip)
        &&& (self.http matches Some(x) ==> x.ip == self.ip)
        &&& (self.hostname matches Some(h) ==> {
            &&& (self.tls matches Some(t) ==> same_host(t.hostname@, h))
            &&& (self.http matches Some(x) ==> same_host(x.hostname@, h))
            &&& (self.dns matches Some(d) ==> same_host(d.hostname@, h))
        })
    }

    /// The IP stage found the address outside Cloudflare's ranges.
    pub open spec fn ip_outside(self) -> bool {
        self.ip_detection matches Some(d) && !d.is_cloudflare
    }
}

pub open spec fn item_of(
    category: EvidenceCategory,
    kind: EvidenceKind,
    direction: EvidenceDirection,
    score: i16,
    reason: Seq<char>,
    details: DetailsView,
) -> ItemView {
    ItemView { category, kind, direction, score, reason, details }
}

/// The IP stage: one item, positive inside the ranges, negative outside.
pub open spec fn ip_items(ip: IpAddr, detection: Option<CloudflareIpDetection>, rules: RuleSet) -> Seq<ItemView> {
    match detection {
        None => seq![],
        Some(d) => if d.is_cloudflare {
            seq![
                item_of(
                    EvidenceCategory::Network,
                    EvidenceKind::CloudflareIpRange,
                    EvidenceDirection::Positive,
                    rules.spec_weight(EvidenceKind::CloudflareIpRange),
                    "target IP "@ + ip_text(ip) + " belongs to a Cloudflare published IP range"@,
                    DetailsView::Ip { ip, is_cloudflare: true },
                ),
            ]
        } else {
            seq![
                item_of(
                    EvidenceCategory::Network,
                    EvidenceKind::IpOutsideCloudflareRange,
                    EvidenceDirection::Negative,
                    rules.spec_weight(EvidenceKind::IpOutsideCloudflareRange),
                    "target IP "@ + ip_text(ip) + " is outside the published Cloudflare IP ranges"@,
                    DetailsView::Ip { ip, is_cloudflare: false },
                ),
            ]
        },
    }
}

/// `n / d` is at least `min` thousandths; an empty denominator gives the
/// ratio 0.
pub open spec fn ratio_at_least(n: int, d: int, min: int) -> bool {
    if d == 0 {
        0 >= min
    } else {
        n * 1000 >= min * d
    }
}

pub open spec fn half_toward_zero(w: int) -> int {
    if w >= 0 {
        w / 2
    } else {
        -((-w) / 2)
    }
}

/// The bonus for resolver agreement: the whole consensus weight when every
/// resolver returned Cloudflare, half of it from 67 % on, else nothing.
pub open spec fn consensus_bonus(cloudflare: int, resolvers: int, weight: int) -> int {
    if resolvers > 0 && cloudflare >= resolvers {
        weight
    } else if resolvers > 0 && cloudflare * 100 >= resolvers * 67 {
        half_toward_zero(weight)
    } else {
        0
    }
}

/// Score of the main DNS item: weight plus bonus (saturated to `i16`), at
/// most the DNS cap.
pub open spec fn dns_score(d: DnsDetection, rules: RuleSet) -> i16 {
    let raw = clamp_to(
        rules.spec_weight(EvidenceKind::DnsResolvesToCloudflare) + consensus_bonus(
            d.cloudflare_resolver_count as int,
            d.resolver_count as int,
            rules.spec_weight(EvidenceKind::DnsResolverConsensus) as int,
        ),
        -32768,
        32767,
    );
    min_int(raw, rules.spec_cap(EvidenceCategory::Dns).max as int) as i16
}

/// The DNS stage. Nothing unless enough resolvers answered. A Cloudflare
/// answer from enough of the answering resolvers gives a positive item
/// (and an informational one when several resolvers all agreed); an answer
/// without Cloudflare addresses gives a negative item where the rules ask
/// for it; a failed resolution is no evidence.
pub open spec fn dns_items(dns: Option<DnsDetection>, rules: RuleSet) -> Seq<ItemView> {
    match dns {
        None => seq![],
        Some(d) => {
            let quorum = ratio_at_least(
                d.successful_resolver_count as int,
                d.resolver_count as int,
                rules.dns.min_successful_ratio as int,
            );
            match d.status {
                DnsDetectionStatus::CloudflareIp => if quorum && ratio_at_least(
                    d.cloudflare_resolver_count as int,
                    d.successful_resolver_count as int,
                    rules.dns.min_cloudflare_ratio as int,
                ) {
                    seq![
                        item_of(
                            EvidenceCategory::Dns,
                            EvidenceKind::DnsResolvesToCloudflare,
                            EvidenceDirection::Positive,
                            dns_score(d, rules),
                            "DNS resolved "@ + d.hostname@ + " to Cloudflare IP addresses; "@ + decimal(
                                d.cloudflare_resolver_count as nat,
                            ) + " of "@ + decimal(d.resolver_count as nat) + " resolvers agreed"@,
                            DetailsView::DnsCloudflare {
                                cloudflare_ips: d.cloudflare_ips@,
                                cloudflare_resolver_count: d.cloudflare_resolver_count,
                                successful_resolver_count: d.successful_resolver_count,
                                resolver_count: d.resolver_count,
                                all_resolvers_agree: d.all_resolvers_agree,
                            },
                        ),
                    ] + if d.all_resolvers_agree && d.resolver_count > 1 {
                        seq![
                            item_of(
                                EvidenceCategory::Dns,
                                EvidenceKind::DnsResolverConsensus,
                                EvidenceDirection::Positive,
                                0,
                                "all successful DNS resolvers agreed on the Cloudflare result"@,
                                DetailsView::DnsConsensus { resolver_count: d.resolver_count },
                            ),
                        ]
                    } else {
                        seq![]
                    }
                } else {
                    seq![]
                },
                DnsDetectionStatus::NoCloudflareIp => if quorum && rules.dns.negative_when_no_cloudflare {
                    seq![
                        item_of(
                            EvidenceCategory::Dns,
                            EvidenceKind::DnsNoCloudflareResolution,
                            EvidenceDirection::Negative,
                            rules.spec_weight(EvidenceKind::DnsNoCloudflareResolution),
                            "DNS did not resolve "@ + d.hostname@ + " to Cloudflare IP ranges"@,
                            DetailsView::DnsNoCloudflare {
                                union_ips: d.union_ips@,
                                successful_resolver_count: d.successful_resolver_count,
                                resolver_count: d.resolver_count,
                            },
                        ),
                    ]
                } else {
                    seq![]
                },
                DnsDetectionStatus::Unknown => seq![],
            }
        },
    }
}

/// Score of an item for a certificate that failed verification.
pub const INVALID_CERTIFICATE_SCORE: i16 = -3;

pub open spec fn sni_text(sni: Option<String>) -> Seq<char> {
    match sni {
        Some(s) => s@,
        None => "<none>"@,
    }
}

/// SAN match or mismatch against the host name (nothing when there is no
/// certificate).
pub open spec fn hostname_items(t: TlsDetection, hostname: Seq<char>, rules: RuleSet) -> Seq<ItemView> {
    if certificate_matches(t.certificates@, hostname) {
        seq![
            item_of(
                EvidenceCategory::Tls,
                EvidenceKind::TlsCertificateHostnameMatch,
                EvidenceDirection::Positive,
                rules.spec_weight(EvidenceKind::TlsCertificateHostnameMatch),
                "TLS certificate SAN matches hostname "@ + hostname,
                DetailsView::TlsHostname { hostname, matched: true },
            ),
        ]
    } else if t.certificates@.len() > 0 {
        seq![
            item_of(
                EvidenceCategory::Tls,
                EvidenceKind::TlsCertificateHostnameMismatch,
                EvidenceDirection::Negative,
                rules.spec_weight(EvidenceKind::TlsCertificateHostnameMismatch),
                "TLS handshake succeeded but no certificate SAN matched hostname "@ + hostname,
                DetailsView::TlsHostname { hostname, matched: false },
            ),
        ]
    } else {
        seq![]
    }
}

/// The item for the chain verification outcome.
pub open spec fn verification_item(t: TlsDetection, rules: RuleSet) -> ItemView {
    match t.certificate_verification {
        CertificateVerificationStatus::Valid => item_of(
            EvidenceCategory::Tls,
            EvidenceKind::TlsCertificateVerified,
            EvidenceDirection::Positive,
            rules.spec_weight(EvidenceKind::TlsCertificateVerified),
            "TLS certificate verification succeeded"@,
            DetailsView::TlsVerification { verified: true },
        ),
        CertificateVerificationStatus::Invalid => item_of(
            EvidenceCategory::Tls,
            EvidenceKind::TlsCertificateHostnameMismatch,
            EvidenceDirection::Negative,
            INVALID_CERTIFICATE_SCORE,
            "TLS certificate verification failed"@,
            DetailsView::TlsVerification { verified: false },
        ),
        _ => item_of(
            EvidenceCategory::Tls,
            EvidenceKind::TlsCertificateVerificationUnavailable,
            EvidenceDirection::Neutral,
            rules.spec_weight(EvidenceKind::TlsCertificateVerificationUnavailable),
            "TLS certificate trust verification was not available"@,
            DetailsView::TlsVerification { verified: false },
        ),
    }
}

/// The TLS stage: nothing without a completed handshake; else a handshake
/// item and, for a host query, the SAN and verification items.
pub open spec fn tls_items(tls: Option<TlsDetection>, hostname: Option<Seq<char>>, rules: RuleSet) -> Seq<ItemView> {
    match tls {
        None => seq![],
        Some(t) => if !t.handshake_succeeded {
            seq![]
        } else {
            seq![
                item_of(
                    EvidenceCategory::Tls,
                    EvidenceKind::TlsHandshakeSucceeded,
                    EvidenceDirection::Positive,
                    rules.spec_weight(EvidenceKind::TlsHandshakeSucceeded),
                    "TLS handshake succeeded for "@ + ip_text(t.ip) + " with SNI "@ + sni_text(t.sni),
                    DetailsView::TlsHandshake {
                        tls_version: opt_text(t.tls_version),
                        cipher_suite: opt_text(t.cipher_suite),
                        alpn: opt_text(t.alpn),
                        sni: opt_text(t.sni),
                    },
                ),
            ] + match hostname {
                None => seq![],
                Some(h) => hostname_items(t, h, rules).push(verification_item(t, rules)),
            }
        },
    }
}

pub open spec fn signal_item(
    present: bool,
    kind: EvidenceKind,
    rules: RuleSet,
    reason: Seq<char>,
    field: Seq<char>,
    value: Option<Seq<char>>,
) -> Seq<ItemView> {
    if present {
        seq![
            item_of(
                EvidenceCategory::Http,
                kind,
                EvidenceDirection::Positive,
                rules.spec_weight(kind),
                reason,
                DetailsView::HttpSignal { field, value },
            ),
        ]
    } else {
        seq![]
    }
}

pub open spec fn signal_points(present: bool, kind: EvidenceKind, rules: RuleSet) -> int {
    if present {
        rules.spec_weight(kind) as int
    } else {
        0
    }
}

/// One positive item per Cloudflare header present.
pub open spec fn http_signal_items(s: CloudflareHttpSignals, rules: RuleSet) -> Seq<ItemView> {
    signal_item(
        s.cf_ray is Some,
        EvidenceKind::HttpCfRay,
        rules,
        "HTTP response contains CF-Ray"@,
        "cf_ray"@,
        opt_text(s.cf_ray),
    ) + signal_item(
        s.cf_cache_status is Some,
        EvidenceKind::HttpCfCacheStatus,
        rules,
        "HTTP response contains CF-Cache-Status"@,
        "cf_cache_status"@,
        opt_text(s.cf_cache_status),
    ) + signal_item(
        s.server_cloudflare,
        EvidenceKind::HttpServerCloudflare,
        rules,
        "HTTP Server header contains `cloudflare`"@,
        "server"@,
        opt_text(s.server),
    ) + signal_item(
        s.cf_connecting_ip is Some,
        EvidenceKind::HttpCfConnectingIp,
        rules,
        "HTTP response contains CF-Connecting-IP"@,
        "cf_connecting_ip"@,
        opt_text(s.cf_connecting_ip),
    ) + signal_item(
        s.cf_ip_country is Some,
        EvidenceKind::HttpCfIpCountry,
        rules,
        "HTTP response contains CF-IPCountry"@,
        "cf_ipcountry"@,
        opt_text(s.cf_ip_country),
    ) + signal_item(
        s.cf_mitigated is Some,
        EvidenceKind::HttpCfMitigated,
        rules,
        "HTTP response contains CF-Mitigated"@,
        "cf_mitigated"@,
        opt_text(s.cf_mitigated),
    )
}

/// The summed weights of the headers present.
pub open spec fn http_signal_total(s: CloudflareHttpSignals, rules: RuleSet) -> int {
    signal_points(s.cf_ray is Some, EvidenceKind::HttpCfRay, rules) + signal_points(
        s.cf_cache_status is Some,
        EvidenceKind::HttpCfCacheStatus,
        rules,
    ) + signal_points(s.server_cloudflare, EvidenceKind::HttpServerCloudflare, rules) + signal_points(
        s.cf_connecting_ip is Some,
        EvidenceKind::HttpCfConnectingIp,
        rules,
    ) + signal_points(s.cf_ip_country is Some, EvidenceKind::HttpCfIpCountry, rules) + signal_points(
        s.cf_mitigated is Some,
        EvidenceKind::HttpCfMitigated,
        rules,
    )
}

/// The HTTP stage: nothing without a response; else the header items, and
/// a neutral item when the headers are worth nothing within the HTTP cap
/// (a missing header is no evidence against).
pub open spec fn http_items(http: Option<HttpDetection>, rules: RuleSet) -> Seq<ItemView> {
    match http {
        None => seq![],
        Some(x) => if x.status_code is None {
            seq![]
        } else {
            http_signal_items(x.signals, rules) + if min_int(
                http_signal_total(x.signals, rules),
                rules.spec_cap(EvidenceCategory::Http).max as int,
            ) == 0 {
                seq![
                    item_of(
                        EvidenceCategory::Http,
                        EvidenceKind::HttpNoCloudflareSignals,
                        EvidenceDirection::Neutral,
                        rules.spec_weight(EvidenceKind::HttpNoCloudflareSignals),
                        "HTTP response contained no Cloudflare-specific headers"@,
                        DetailsView::HttpNoSignals {
                            status_code: x.status_code,
                            http_version: opt_text(x.http_version),
                        },
                    ),
                ]
            } else {
                seq![]
            }
        },
    }
}

/// All items of an evaluation, stage by stage.
pub open spec fn evidence_of(input: InputView, rules: RuleSet) -> Seq<ItemView> {
    ip_items(input.ip, input.ip_detection, rules) + dns_items(input.dns, rules) + tls_items(
        input.tls,
        input.hostname,
        rules,
    ) + http_items(input.http, rules)
}

proof fn lemma_evidence_len(input: InputView, rules: RuleSet)
    ensures
        evidence_of(input, rules).len() <= 16,
{
    assert forall|p: bool, k: EvidenceKind, r: RuleSet, a: Seq<char>, b: Seq<char>, c: Option<Seq<char>>|
        #[trigger] signal_item(p, k, r, a, b, c).len() <= 1 by {}
    match input.http {
        None => {},
        Some(x) => {
            assert(http_signal_items(x.signals, rules).len() <= 6);
        },
    }
    assert(http_items(input.http, rules).len() <= 7);
    assert(ip_items(input.ip, input.ip_detection, rules).len() <= 1);
    assert(dns_items(input.dns, rules).len() <= 2);
    match input.tls {
        None => {},
        Some(t) => {
            match input.hostname {
                None => {},
                Some(h) => {
                    assert(hostname_items(t, h, rules).len() <= 1);
                },
            }
        },
    }
    assert(tls_items(input.tls, input.hostname, rules).len() <= 3);
}

fn push_item(evidence: &mut Vec<EvidenceItem>, item: EvidenceItem)
    ensures
        item_views(final(evidence)@) == item_views(old(evidence)@).push(item@),
{
    let ghost before = evidence@;
    evidence.push(item);
    assert(item_views(evidence@) =~= item_views(before).push(item@));
}

fn clone_text(s: &Option<String>) -> (r: Option<String>)
    ensures
        opt_text(r) == opt_text(*s),
{
    match s {
        Some(t) => Some(t.clone()),
        None => None,
    }
}

fn collect_ip_evidence(input: &EvidenceInput, rules: &RuleSet, evidence: &mut Vec<EvidenceItem>)
    ensures
        item_views(final(evidence)@) == item_views(old(evidence)@) + ip_items(input@.ip, input@.ip_detection, *rules),
{
    let ghost before = item_views(evidence@);
    match input.ip_detection {
        None => {
            assert(before + seq![] =~= before);
        },
        Some(d) => {
            let ip_s = ip_to_string(&input.ip);
            if d.is_cloudflare {
                let reason = concat3(
                    "target IP ",
                    ip_s.as_str(),
                    " belongs to a Cloudflare published IP range",
                );
                push_item(
                    evidence,
                    EvidenceItem {
                        category: EvidenceCategory::Network,
                        kind: EvidenceKind::CloudflareIpRange,
                        direction: EvidenceDirection::Positive,
                        score: rules.weight(EvidenceKind::CloudflareIpRange),
                        reason,
                        details: EvidenceDetails::Ip { ip: input.ip, is_cloudflare: true },
                    },
                );
            } else {
                let reason = concat3(
                    "target IP ",
                    ip_s.as_str(),
                    " is outside the published Cloudflare IP ranges",
                );
                push_item(
                    evidence,
                    EvidenceItem {
                        category: EvidenceCategory::Network,
                        kind: EvidenceKind::IpOutsideCloudflareRange,
                        direction: EvidenceDirection::Negative,
                        score: rules.weight(EvidenceKind::IpOutsideCloudflareRange),
                        reason,
                        details: EvidenceDetails::Ip { ip: input.ip, is_cloudflare: false },
                    },
                );
            }
            assert(item_views(evidence@) =~= before + ip_items(input@.ip, input@.ip_detection, *rules));
        },
    }
}

/// `ratio_at_least` on machine integers.
fn meets_ratio(n: usize, d: usize, min: u32) -> (r: bool)
    ensures
        r == ratio_at_least(n as int, d as int, min as int),
{
    if d == 0 {
        min == 0
    } else {
        let lhs: u128 = (n as u128) * 1000;
        assert((min as u128) * (d as u128) <= 0xffff_ffff * 0xffff_ffff_ffff_ffffu128) by (nonlinear_arith)
            requires
                min <= 0xffff_ffff,
                d <= 0xffff_ffff_ffff_ffffu128,
        ;
        let rhs: u128 = (min as u128) * (d as u128);
        lhs >= rhs
    }
}

fn dns_main_score(d: &DnsDetection, rules: &RuleSet) -> (r: i16)
    ensures
        r == dns_score(*d, *rules),
{
    let cf = d.cloudflare_resolver_count;
    let rc = d.resolver_count;
    let w: i32 = rules.weight(EvidenceKind::DnsResolverConsensus) as i32;
    let half: i32 = if w >= 0 {
        ((w as u32) / 2) as i32
    } else {
        -((((-w) as u32) / 2) as i32)
    };
    let bonus: i32 = if rc > 0 && cf >= rc {
        w
    } else if rc > 0 && (cf as u128) * 100 >= (rc as u128) * 67 {
        half
    } else {
        0
    };
    let raw: i32 = rules.weight(EvidenceKind::DnsResolvesToCloudflare) as i32 + bonus;
    let saturated: i32 = if raw < -32768 {
        -32768
    } else if raw > 32767 {
        32767
    } else {
        raw
    };
    let cap = rules.category_cap(EvidenceCategory::Dns).max as i32;
    let score: i32 = if saturated < cap {
        saturated
    } else {
        cap
    };
    score as i16
}

fn collect_dns_evidence(input: &EvidenceInput, rules: &RuleSet, evidence: &mut Vec<EvidenceItem>)
    ensures
        item_views(final(evidence)@) == item_views(old(evidence)@) + dns_items(input@.dns, *rules),
{
    let ghost before = item_views(evidence@);
    let d = match input.dns {
        None => {
            assert(before + seq![] =~= before);
            return ;
        },
        Some(d) => d,
    };
    let quorum = meets_ratio(d.successful_resolver_count, d.resolver_count, rules.dns.min_successful_ratio);
    match d.status {
        DnsDetectionStatus::CloudflareIp => {
            if quorum && meets_ratio(
                d.cloudflare_resolver_count,
                d.successful_resolver_count,
                rules.dns.min_cloudflare_ratio,
            ) {
                let mut reason = concat3("DNS resolved ", d.hostname.as_str(), " to Cloudflare IP addresses; ");
                let cf_text = decimal_exec(d.cloudflare_resolver_count as u64);
                push_str(&mut reason, cf_text.as_str());
                push_str(&mut reason, " of ");
                let rc_text = decimal_exec(d.resolver_count as u64);
                push_str(&mut reason, rc_text.as_str());
                push_str(&mut reason, " resolvers agreed");
                push_item(
                    evidence,
                    EvidenceItem {
                        category: EvidenceCategory::Dns,
                        kind: EvidenceKind::DnsResolvesToCloudflare,
                        direction: EvidenceDirection::Positive,
                        score: dns_main_score(d, rules),
                        reason,
                        details: EvidenceDetails::DnsCloudflare {
                            cloudflare_ips: copy_ips(&d.cloudflare_ips),
                            cloudflare_resolver_count: d.cloudflare_resolver_count,
                            successful_resolver_count: d.successful_resolver_count,
                            resolver_count: d.resolver_count,
                            all_resolvers_agree: d.all_resolvers_agree,
                        },
                    },
                );
                let ghost mid = item_views(evidence@);
                if d.all_resolvers_agree && d.resolver_count > 1 {
                    // Informational: the main item already carries the
                    // consensus bonus.
                    push_item(
                        evidence,
                        EvidenceItem {
                            category: EvidenceCategory::Dns,
                            kind: EvidenceKind::DnsResolverConsensus,
                            direction: EvidenceDirection::Positive,
                            score: 0,
                            reason: copy_str("all successful DNS resolvers agreed on the Cloudflare result"),
                            details: EvidenceDetails::DnsConsensus { resolver_count: d.resolver_count },
                        },
                    );
                } else {
                    assert(mid + seq![] =~= mid);
                }
                assert(item_views(evidence@) =~= before + dns_items(input@.dns, *rules));
            } else {
                assert(before + seq![] =~= before);
            }
        },
        DnsDetectionStatus::NoCloudflareIp => {
            if quorum && rules.dns.negative_when_no_cloudflare {
                let reason = concat3("DNS did not resolve ", d.hostname.as_str(), " to Cloudflare IP ranges");
                push_item(
                    evidence,
                    EvidenceItem {
                        category: EvidenceCategory::Dns,
                        kind: EvidenceKind::DnsNoCloudflareResolution,
                        direction: EvidenceDirection::Negative,
                        score: rules.weight(EvidenceKind::DnsNoCloudflareResolution),
                        reason,
                        details: EvidenceDetails::DnsNoCloudflare {
                            union_ips: copy_ips(&d.union_ips),
                            successful_resolver_count: d.successful_resolver_count,
                            resolver_count: d.resolver_count,
                        },
                    },
                );
                assert(item_views(evidence@) =~= before + dns_items(input@.dns, *rules));
            } else {
                assert(before + seq![] =~= before);
            }
        },
        DnsDetectionStatus::Unknown => {
            // A failed resolution is not evidence against.
            assert(before + seq![] =~= before);
        },
    }
}

fn collect_tls_evidence(input: &EvidenceInput, rules: &RuleSet, evidence: &mut Vec<EvidenceItem>)
    ensures
        item_views(final(evidence)@) == item_views(old(evidence)@) + tls_items(input@.tls, input@.hostname, *rules),
{
    let ghost before = item_views(evidence@);
    let t = match input.tls {
        None => {
            assert(before + seq![] =~= before);
            return ;
        },
        Some(t) => t,
    };
    if !t.handshake_succeeded {
        assert(before + seq![] =~= before);
        return ;
    }
    let ip_s = ip_to_string(&t.ip);
    let mut reason = concat3("TLS handshake succeeded for ", ip_s.as_str(), " with SNI ");
    match &t.sni {
        Some(s) => push_str(&mut reason, s.as_str()),
        None => push_str(&mut reason, "<none>"),
    }
    push_item(
        evidence,
        EvidenceItem {
            category: EvidenceCategory::Tls,
            kind: EvidenceKind::TlsHandshakeSucceeded,
            direction: EvidenceDirection::Positive,
            score: rules.weight(EvidenceKind::TlsHandshakeSucceeded),
            reason,
            details: EvidenceDetails::TlsHandshake {
                tls_version: clone_text(&t.tls_version),
                cipher_suite: clone_text(&t.cipher_suite),
                alpn: clone_text(&t.alpn),
                sni: clone_text(&t.sni),
            },
        },
    );
    let ghost after_handshake = item_views(evidence@);
    let h = match input.hostname {
        None => {
            assert(after_handshake + seq![] =~= after_handshake);
            assert(item_views(evidence@) =~= before + tls_items(input@.tls, input@.hostname, *rules));
            return ;
        },
        Some(h) => h,
    };
    if any_certificate_matches(&t.certificates, h) {
        push_item(
            evidence,
            EvidenceItem {
                category: EvidenceCategory::Tls,
                kind: EvidenceKind::TlsCertificateHostnameMatch,
                direction: EvidenceDirection::Positive,
                score: rules.weight(EvidenceKind::TlsCertificateHostnameMatch),
                reason: concat2("TLS certificate SAN matches hostname ", h),
                details: EvidenceDetails::TlsHostname { hostname: copy_str(h), matched: true },
            },
        );
    } else if t.certificates.len() > 0 {
        push_item(
            evidence,
            EvidenceItem {
                category: EvidenceCategory::Tls,
                kind: EvidenceKind::TlsCertificateHostnameMismatch,
                direction: EvidenceDirection::Negative,
                score: rules.weight(EvidenceKind::TlsCertificateHostnameMismatch),
                reason: concat2("TLS handshake succeeded but no certificate SAN matched hostname ", h),
                details: EvidenceDetails::TlsHostname { hostname: copy_str(h), matched: false },
            },
        );
    }
    let ghost after_names = item_views(evidence@);
    assert(after_names =~= after_handshake + hostname_items(*t, h@, *rules));
    match t.certificate_verification {
        CertificateVerificationStatus::Valid => {
            push_item(
                evidence,
                EvidenceItem {
                    category: EvidenceCategory::Tls,
                    kind: EvidenceKind::TlsCertificateVerified,
                    direction: EvidenceDirection::Positive,
                    score: rules.weight(EvidenceKind::TlsCertificateVerified),
                    reason: copy_str("TLS certificate verification succeeded"),
                    details: EvidenceDetails::TlsVerification { verified: true },
                },
            );
        },
        CertificateVerificationStatus::Invalid => {
            push_item(
                evidence,
                EvidenceItem {
                    category: EvidenceCategory::Tls,
                    kind: EvidenceKind::TlsCertificateHostnameMismatch,
                    direction: EvidenceDirection::Negative,
                    score: INVALID_CERTIFICATE_SCORE,
                    reason: copy_str("TLS certificate verification failed"),
                    details: EvidenceDetails::TlsVerification { verified: false },
                },
            );
        },
        _ => {
            push_item(
                evidence,
                EvidenceItem {
                    category: EvidenceCategory::Tls,
                    kind: EvidenceKind::TlsCertificateVerificationUnavailable,
                    direction: EvidenceDirection::Neutral,
                    score: rules.weight(EvidenceKind::TlsCertificateVerificationUnavailable),
                    reason: copy_str("TLS certificate trust verification was not available"),
                    details: EvidenceDetails::TlsVerification { verified: false },
                },
            );
        },
    }
    assert(item_views(evidence@) =~= after_names.push(verification_item(*t, *rules)));
    assert(item_views(evidence@) =~= before + tls_items(input@.tls, input@.hostname, *rules));
}

/// Pushes the item of one header when it is present; gives its points.
fn push_signal(
    evidence: &mut Vec<EvidenceItem>,
    present: bool,
    kind: EvidenceKind,
    rules: &RuleSet,
    reason: &str,
    field: &str,
    value: &Option<String>,
) -> (points: i32)
    ensures
        item_views(final(evidence)@) == item_views(old(evidence)@) + signal_item(
            present,
            kind,
            *rules,
            reason@,
            field@,
            opt_text(*value),
        ),
        points == signal_points(present, kind, *rules),
{
    let ghost before = item_views(evidence@);
    if present {
        let w = rules.weight(kind);
        push_item(
            evidence,
            EvidenceItem {
                category: EvidenceCategory::Http,
                kind,
                direction: EvidenceDirection::Positive,
                score: w,
                reason: copy_str(reason),
                details: EvidenceDetails::HttpSignal { field: copy_str(field), value: clone_text(value) },
            },
        );
        assert(item_views(evidence@) =~= before + signal_item(
            present,
            kind,
            *rules,
            reason@,
            field@,
            opt_text(*value),
        ));
        w as i32
    } else {
        assert(before + seq![] =~= before);
        0
    }
}

/// Pushes the items of the headers present; gives their summed weights.
#[verifier::rlimit(60)]
fn collect_signals(s: &CloudflareHttpSignals, rules: &RuleSet, evidence: &mut Vec<EvidenceItem>) -> (total: i32)
    ensures
        item_views(final(evidence)@) == item_views(old(evidence)@) + http_signal_items(*s, *rules),
        total == http_signal_total(*s, *rules),
{
    let ghost before = item_views(evidence@);
    let t1 = push_signal(
        evidence,
        s.cf_ray.is_some(),
        EvidenceKind::HttpCfRay,
        rules,
        "HTTP response contains CF-Ray",
        "cf_ray",
        &s.cf_ray,
    );
    let ghost g1 = item_views(evidence@);
    let t2 = push_signal(
        evidence,
        s.cf_cache_status.is_some(),
        EvidenceKind::HttpCfCacheStatus,
        rules,
        "HTTP response contains CF-Cache-Status",
        "cf_cache_status",
        &s.cf_cache_status,
    );
    let ghost g2 = item_views(evidence@);
    let t3 = push_signal(
        evidence,
        s.server_cloudflare,
        EvidenceKind::HttpServerCloudflare,
        rules,
        "HTTP Server header contains `cloudflare`",
        "server",
        &s.server,
    );
    let ghost g3 = item_views(evidence@);
    let t4 = push_signal(
        evidence,
        s.cf_connecting_ip.is_some(),
        EvidenceKind::HttpCfConnectingIp,
        rules,
        "HTTP response contains CF-Connecting-IP",
        "cf_connecting_ip",
        &s.cf_connecting_ip,
    );
    let ghost g4 = item_views(evidence@);
    let t5 = push_signal(
        evidence,
        s.cf_ip_country.is_some(),
        EvidenceKind::HttpCfIpCountry,
        rules,
        "HTTP response contains CF-IPCountry",
        "cf_ipcountry",
        &s.cf_ip_country,
    );
    let ghost g5 = item_views(evidence@);
    let t6 = push_signal(
        evidence,
        s.cf_mitigated.is_some(),
        EvidenceKind::HttpCfMitigated,
        rules,
        "HTTP response contains CF-Mitigated",
        "cf_mitigated",
        &s.cf_mitigated,
    );
    proof {
        let a = signal_item(s.cf_ray is Some, EvidenceKind::HttpCfRay, *rules,
            "HTTP response contains CF-Ray"@, "cf_ray"@, opt_text(s.cf_ray));
        let b = signal_item(s.cf_cache_status is Some, EvidenceKind::HttpCfCacheStatus, *rules,
            "HTTP response contains CF-Cache-Status"@, "cf_cache_status"@, opt_text(s.cf_cache_status));
        let c = signal_item(s.server_cloudflare, EvidenceKind::HttpServerCloudflare, *rules,
            "HTTP Server header contains `cloudflare`"@, "server"@, opt_text(s.server));
        let d = signal_item(s.cf_connecting_ip is Some, EvidenceKind::HttpCfConnectingIp, *rules,
            "HTTP response contains CF-Connecting-IP"@, "cf_connecting_ip"@, opt_text(s.cf_connecting_ip));
        let e = signal_item(s.cf_ip_country is Some, EvidenceKind::HttpCfIpCountry, *rules,
            "HTTP response contains CF-IPCountry"@, "cf_ipcountry"@, opt_text(s.cf_ip_country));
        let f = signal_item(s.cf_mitigated is Some, EvidenceKind::HttpCfMitigated, *rules,
            "HTTP response contains CF-Mitigated"@, "cf_mitigated"@, opt_text(s.cf_mitigated));
        assert(g2 =~= before + (a + b));
        assert(g3 =~= before + (a + b + c));
        assert(g4 =~= before + (a + b + c + d));
        assert(g5 =~= before + (a + b + c + d + e));
        assert(item_views(evidence@) =~= before + (a + b + c + d + e + f));
    }
    t1 + t2 + t3 + t4 + t5 + t6
}

fn collect_http_evidence(input: &EvidenceInput, rules: &RuleSet, evidence: &mut Vec<EvidenceItem>)
    ensures
        item_views(final(evidence)@) == item_views(old(evidence)@) + http_items(input@.http, *rules),
{
    let ghost before = item_views(evidence@);
    let x = match input.http {
        None => {
            assert(before + seq![] =~= before);
            return ;
        },
        Some(x) => x,
    };
    if x.status_code.is_none() {
        assert(before + seq![] =~= before);
        return ;
    }
    let total = collect_signals(&x.signals, rules, evidence);
    let ghost after_signals = item_views(evidence@);
    let cap = rules.category_cap(EvidenceCategory::Http).max as i32;
    // Header signals are correlated: what they add is bounded by the HTTP
    // cap, and a response without any is no evidence against.
    let effective = if total < cap {
        total
    } else {
        cap
    };
    if effective == 0 {
        push_item(
            evidence,
            EvidenceItem {
                category: EvidenceCategory::Http,
                kind: EvidenceKind::HttpNoCloudflareSignals,
                direction: EvidenceDirection::Neutral,
                score: rules.weight(EvidenceKind::HttpNoCloudflareSignals),
                reason: copy_str("HTTP response contained no Cloudflare-specific headers"),
                details: EvidenceDetails::HttpNoSignals {
                    status_code: x.status_code,
                    http_version: clone_text(&x.http_version),
                },
            },
        );
    } else {
        assert(after_signals + seq![] =~= after_signals);
    }
    assert(item_views(evidence@) =~= before + http_items(input@.http, *rules));
}

/// The part of a result that the evidence fixes: the items are those of
/// `evidence_of`, the score is their capped aggregate, the counts are those
/// of the positive and negative items, and the address, host name and
/// policy identity are the input's and the policy's.
pub open spec fn evaluation_core(r: DetectionResult, input: InputView, rules: RuleSet, meta: PolicyMetadata) -> bool {
    &&& item_views(r.evidence@) == evidence_of(input, rules)
    &&& r.score == aggregate(evidence_of(input, rules), rules)
    &&& r.positive_evidence_count == count_direction(evidence_of(input, rules), EvidenceDirection::Positive)
    &&& r.negative_evidence_count == count_direction(evidence_of(input, rules), EvidenceDirection::Negative)
    &&& r.ip == input.ip
    &&& opt_text(r.hostname) == input.hostname
    &&& r.policy == meta
}

/// The verdict part of a result: the classification by `verdict`, its
/// confidence and band, and the summary.
pub open spec fn evaluation_verdict(
    r: DetectionResult,
    input: InputView,
    rules: RuleSet,
    positive: DetectionClassification,
    negative: DetectionClassification,
) -> bool {
    let items = evidence_of(input, rules);
    &&& r.classification == verdict(
        input.ip_outside(),
        input.hostname is Some,
        r.score as int,
        items,
        rules,
        positive,
        negative,
    )
    &&& r.confidence == confidence_of(r.classification, r.score as int, items, rules.confidence)
    &&& r.confidence_level == level_of(r.confidence as int, r.classification, rules.confidence)
    &&& r.summary@ == summary_text(r.classification, r.confidence as nat, r.score as int, items)
}

/// The evidence engine of a policy.
pub struct EvidenceEngine<P: DetectionPolicy> {
    policy: Arc<P>,
}

impl<P: DetectionPolicy> EvidenceEngine<P> {
    pub closed spec fn policy(&self) -> P {
        *self.policy
    }

    pub fn new(policy: Arc<P>) -> (e: Self)
        ensures
            e.policy() == *policy,
    {
        EvidenceEngine { policy }
    }

    /// Evaluates the stage results by the policy's rules; see
    /// `evaluation_core` and `evaluation_verdict`.
    pub fn evaluate(&self, input: EvidenceInput) -> (r: DetectionResult)
        requires
            self.policy().policy_rules().wf(),
            input@.consistent(),
        ensures
            evaluation_core(r, input@, self.policy().policy_rules(), self.policy().policy_metadata()),
            evaluation_verdict(
                r,
                input@,
                self.policy().policy_rules(),
                self.policy().positive_verdict(),
                self.policy().negative_verdict(),
            ),
    {
        let policy: &P = &self.policy;
        let rules = policy.rules();
        let mut evidence: Vec<EvidenceItem> = Vec::new();
        collect_ip_evidence(&input, rules, &mut evidence);
        collect_dns_evidence(&input, rules, &mut evidence);
        collect_tls_evidence(&input, rules, &mut evidence);
        collect_http_evidence(&input, rules, &mut evidence);
        proof {
            assert(item_views(evidence@) =~= evidence_of(input@, *rules));
            lemma_evidence_len(input@, *rules);
        }
        let positive_evidence_count = count_items(&evidence, EvidenceDirection::Positive);
        let negative_evidence_count = count_items(&evidence, EvidenceDirection::Negative);
        let score = aggregate_score(&evidence, rules);
        let ip_outside = match input.ip_detection {
            Some(d) => !d.is_cloudflare,
            None => false,
        };
        let classification = classify(
            ip_outside,
            input.hostname.is_some(),
            score,
            &evidence,
            rules,
            policy.positive_classification(),
            policy.negative_classification(),
        );
        let confidence = calculate_confidence(classification, score, &evidence, &rules.confidence);
        let confidence_level = ConfidenceLevel::from_confidence(confidence, classification, &rules.confidence);
        let summary = build_summary(classification, confidence, score, &evidence);
        let hostname = match input.hostname {
            Some(h) => Some(copy_str(h)),
            None => None,
        };
        DetectionResult {
            ip: input.ip,
            hostname,
            policy: policy.metadata().clone(),
            classification,
            confidence,
            confidence_level,
            score,
            evidence,
            positive_evidence_count,
            negative_evidence_count,
            summary,
        }
    }
}

} // verus!
