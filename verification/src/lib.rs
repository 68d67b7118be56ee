//! Cloudflare edge / reverse-proxy identification: the evidence model,
//! the scoring engine, target security policy, network value types and the
//! pure parts of the DNS, TLS, HTTP and batch stages.

pub mod text;
pub mod keyed;
pub mod net;
pub mod error;
pub mod hostname;
pub mod time;
pub mod http;
pub mod dns;
pub mod probe;
pub mod cloudflare;
pub mod detector;
pub mod tls;
pub mod certificates;
pub mod http_response;
pub mod http_clients;
pub mod evidence;
pub mod server;
pub mod target_list;
pub mod laws;

pub use cloudflare::cache::{CacheConfig, CacheSource};
pub use cloudflare::client::{CloudflareApiRanges, CloudflareFetchResult};
pub use cloudflare::ranges::CloudflareRanges;
pub use detector::{detect_cloudflare_ip, CloudflareIpDetection, DetectionKind};
pub use dns::model::{
    DnsCacheConfig, DnsDetection, DnsDetectionStatus, ResolverHealth, ResolverObservation,
};
pub use error::CfProbeError;
pub use evidence::engine::{EvidenceEngine, EvidenceInput};
pub use evidence::model::{
    ConfidenceLevel, DetectionClassification, DetectionResult, EvidenceCategory,
    EvidenceDirection, EvidenceItem, EvidenceKind, PolicyMetadata,
};
pub use evidence::policy::{
    ClassificationRuleSet, CloudflareWebProxyV1, ConfidenceRuleSet, DetectionPolicy, DnsRuleSet,
    RuleSet,
};
pub use evidence::tables::ScoreCap;
pub use http::{
    CloudflareHttpSignals, HttpDetection, HttpHeader, HttpProbeConfig, HttpProbeStatus, HttpScheme,
};
pub use net::{IpAddr, IpNet, Ipv4Addr, Ipv6Addr};
pub use probe::batch::{BatchItemResult, BatchItemStatus, BatchResult, BatchScanConfig};
pub use probe::model::{ProbeResult, ProbeStage, ProbeStageError};
pub use probe::policy::{IpClassification, TargetPolicy};
pub use probe::target::Target;
pub use server::{ServerConfig, ServerMetrics};
pub use tls::{
    CertificateInfo, CertificateVerificationStatus, TlsDetection, TlsDetectionStatus,
    TlsProbeConfig,
};
