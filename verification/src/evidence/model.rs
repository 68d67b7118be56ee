//! The evidence vocabulary: categories, kinds, directions, items and the
//! final detection result.

use vstd::prelude::*;

use crate::net::IpAddr;

verus! {

/// The pipeline stage an item of evidence comes from.
#[derive(Debug, Clone, Copy, PartialEq, Eq, Structural, PartialOrd, Ord, Hash)]
pub enum EvidenceCategory {
    /// IP ownership / network layer.
    Network,
    /// DNS resolution.
    Dns,
    /// TLS handshake and certificates.
    Tls,
    /// HTTP header fingerprints.
    Http,
}

/// Which way an item of evidence points.
#[derive(Debug, Clone, Copy, PartialEq, Eq, Structural)]
pub enum EvidenceDirection {
    /// Supports "the site is behind Cloudflare".
    Positive,
    /// Contradicts it.
    Negative,
    /// Informational only.
    Neutral,
}

/// The individual rules of the evidence model.
#[derive(Debug, Clone, Copy, PartialEq, Eq, Structural, PartialOrd, Ord, Hash)]
pub enum EvidenceKind {
    /// The IP is in a published Cloudflare CIDR.
    CloudflareIpRange,
    /// The IP is outside every published Cloudflare CIDR.
    IpOutsideCloudflareRange,
    /// DNS answers point at Cloudflare addresses.
    DnsResolvesToCloudflare,
    /// Several resolvers agree on the Cloudflare answer.
    DnsResolverConsensus,
    /// No resolver returned a Cloudflare address.
    DnsNoCloudflareResolution,
    /// The CNAME chain ends in a Cloudflare-hosted name.
    DnsCnameToCloudflare,
    /// A CNAME chain exists (informational).
    DnsCnameChain,
    /// The TLS handshake completed.
    TlsHandshakeSucceeded,
    /// A certificate SAN matches the host name.
    TlsCertificateHostnameMatch,
    /// No certificate SAN matches the host name.
    TlsCertificateHostnameMismatch,
    /// The chain verified against trusted roots.
    TlsCertificateVerified,
    /// Trust could not be checked.
    TlsCertificateVerificationUnavailable,
    /// A `CF-Ray` header (strong signal).
    HttpCfRay,
    /// A `CF-Cache-Status` header.
    HttpCfCacheStatus,
    /// `Server: cloudflare`.
    HttpServerCloudflare,
    /// A `CF-Connecting-IP` header.
    HttpCfConnectingIp,
    /// A `CF-IPCountry` header.
    HttpCfIpCountry,
    /// A `CF-Mitigated` header.
    HttpCfMitigated,
    /// No typical Cloudflare header at all.
    HttpNoCloudflareSignals,
}

/// The verdict of the evidence engine.
#[derive(Debug, Clone, Copy, PartialEq, Eq, Structural)]
pub enum DetectionClassification {
    /// The target is served by Cloudflare's edge.
    Cloudflare,
    /// The target is not on Cloudflare.
    NotCloudflare,
    /// Not enough evidence to decide.
    Unknown,
}

/// Coarse confidence bands.
#[derive(Debug, Clone, Copy, PartialEq, Eq, Structural)]
pub enum ConfidenceLevel {
    VeryHigh,
    High,
    Medium,
    Low,
    Insufficient,
}

/// Identity of the scoring policy used for a result.
#[derive(Debug, PartialEq, Eq)]
pub struct PolicyMetadata {
    /// Stable policy id, such as `cloudflare-web-proxy`.
    pub id: String,
    /// Rule version (monotonic).
    pub version: u32,
    /// Readable name.
    pub name: String,
    /// Readable description.
    pub description: String,
}

impl Clone for PolicyMetadata {
    fn clone(&self) -> (r: Self)
        ensures
            r == *self,
    {
        PolicyMetadata {
            id: self.id.clone(),
            version: self.version,
            name: self.name.clone(),
            description: self.description.clone(),
        }
    }
}

/// Structured details of an item, by the kind of evidence.
#[derive(Debug, Clone)]
pub enum EvidenceDetails {
    /// The address and whether it is in Cloudflare's ranges.
    Ip { ip: IpAddr, is_cloudflare: bool },
    /// The Cloudflare answers of the DNS stage.
    DnsCloudflare {
        cloudflare_ips: Vec<IpAddr>,
        cloudflare_resolver_count: usize,
        successful_resolver_count: usize,
        resolver_count: usize,
        all_resolvers_agree: bool,
    },
    /// How many resolvers were asked.
    DnsConsensus { resolver_count: usize },
    /// The answers of a DNS stage without Cloudflare addresses.
    DnsNoCloudflare { union_ips: Vec<IpAddr>, successful_resolver_count: usize, resolver_count: usize },
    /// The negotiated TLS parameters.
    TlsHandshake {
        tls_version: Option<String>,
        cipher_suite: Option<String>,
        alpn: Option<String>,
        sni: Option<String>,
    },
    /// The host name the certificates were checked against.
    TlsHostname { hostname: String, matched: bool },
    /// Whether the chain verified.
    TlsVerification { verified: bool },
    /// One Cloudflare response header: its field name and value.
    HttpSignal { field: String, value: Option<String> },
    /// The response had no Cloudflare header.
    HttpNoSignals { status_code: Option<u16>, http_version: Option<String> },
}

/// `EvidenceDetails` with its text taken as character sequences.
pub enum DetailsView {
    Ip { ip: IpAddr, is_cloudflare: bool },
    DnsCloudflare {
        cloudflare_ips: Seq<IpAddr>,
        cloudflare_resolver_count: usize,
        successful_resolver_count: usize,
        resolver_count: usize,
        all_resolvers_agree: bool,
    },
    DnsConsensus { resolver_count: usize },
    DnsNoCloudflare { union_ips: Seq<IpAddr>, successful_resolver_count: usize, resolver_count: usize },
    TlsHandshake {
        tls_version: Option<Seq<char>>,
        cipher_suite: Option<Seq<char>>,
        alpn: Option<Seq<char>>,
        sni: Option<Seq<char>>,
    },
    TlsHostname { hostname: Seq<char>, matched: bool },
    TlsVerification { verified: bool },
    HttpSignal { field: Seq<char>, value: Option<Seq<char>> },
    HttpNoSignals { status_code: Option<u16>, http_version: Option<Seq<char>> },
}

/// The text of an optional string.
pub open spec fn opt_text(s: Option<String>) -> Option<Seq<char>> {
    match s {
        Some(t) => Some(t@),
        None => None,
    }
}

impl View for EvidenceDetails {
    type V = DetailsView;

    open spec fn view(&self) -> DetailsView {
        match *self {
            EvidenceDetails::Ip { ip, is_cloudflare } => DetailsView::Ip { ip, is_cloudflare },
            EvidenceDetails::DnsCloudflare {
                cloudflare_ips,
                cloudflare_resolver_count,
                successful_resolver_count,
                resolver_count,
                all_resolvers_agree,
            } => DetailsView::DnsCloudflare {
                cloudflare_ips: cloudflare_ips@,
                cloudflare_resolver_count,
                successful_resolver_count,
                resolver_count,
                all_resolvers_agree,
            },
            EvidenceDetails::DnsConsensus { resolver_count } => DetailsView::DnsConsensus {
                resolver_count,
            },
            EvidenceDetails::DnsNoCloudflare {
                union_ips,
                successful_resolver_count,
                resolver_count,
            } => DetailsView::DnsNoCloudflare {
                union_ips: union_ips@,
                successful_resolver_count,
                resolver_count,
            },
            EvidenceDetails::TlsHandshake { tls_version, cipher_suite, alpn, sni } =>
                DetailsView::TlsHandshake {
                tls_version: opt_text(tls_version),
                cipher_suite: opt_text(cipher_suite),
                alpn: opt_text(alpn),
                sni: opt_text(sni),
            },
            EvidenceDetails::TlsHostname { hostname, matched } => DetailsView::TlsHostname {
                hostname: hostname@,
                matched,
            },
            EvidenceDetails::TlsVerification { verified } => DetailsView::TlsVerification {
                verified,
            },
            EvidenceDetails::HttpSignal { field, value } => DetailsView::HttpSignal {
                field: field@,
                value: opt_text(value),
            },
            EvidenceDetails::HttpNoSignals { status_code, http_version } =>
                DetailsView::HttpNoSignals { status_code, http_version: opt_text(http_version) },
        }
    }
}

/// One piece of evidence.
#[derive(Debug, Clone)]
pub struct EvidenceItem {
    pub category: EvidenceCategory,
    pub kind: EvidenceKind,
    pub direction: EvidenceDirection,
    /// Weighted score of this item (positive adds, negative subtracts).
    pub score: i16,
    /// One readable sentence.
    pub reason: String,
    pub details: EvidenceDetails,
}

/// `EvidenceItem` with its text taken as character sequences.
pub struct ItemView {
    pub category: EvidenceCategory,
    pub kind: EvidenceKind,
    pub direction: EvidenceDirection,
    pub score: i16,
    pub reason: Seq<char>,
    pub details: DetailsView,
}

impl View for EvidenceItem {
    type V = ItemView;

    open spec fn view(&self) -> ItemView {
        ItemView {
            category: self.category,
            kind: self.kind,
            direction: self.direction,
            score: self.score,
            reason: self.reason@,
            details: self.details@,
        }
    }
}

/// The views of a list of items.
pub open spec fn item_views(items: Seq<EvidenceItem>) -> Seq<ItemView> {
    items.map_values(|it: EvidenceItem| it@)
}

/// The final output of the evidence engine.
#[derive(Debug, Clone)]
pub struct DetectionResult {
    pub ip: IpAddr,
    pub hostname: Option<String>,
    pub policy: PolicyMetadata,
    pub classification: DetectionClassification,
    /// Heuristic confidence in thousandths (0 ..= 1000); not a probability.
    pub confidence: u32,
    pub confidence_level: ConfidenceLevel,
    /// Aggregate score after the category and overall caps.
    pub score: i16,
    /// Every item, in the order the stages produced them.
    pub evidence: Vec<EvidenceItem>,
    pub positive_evidence_count: usize,
    pub negative_evidence_count: usize,
    /// A readable one-sentence summary.
    pub summary: String,
}

} // verus!
