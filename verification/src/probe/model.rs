//! The result of probing one target.

use vstd::prelude::*;

use crate::detector::CloudflareIpDetection;
use crate::dns::model::DnsDetection;
use crate::evidence::model::{DetectionClassification, DetectionResult};
use crate::http::HttpDetection;
use crate::net::IpAddr;
use crate::probe::target::Target;
use crate::tls::TlsDetection;

verus! {

/// The stages of the probe pipeline.
#[derive(Debug, Clone, Copy, PartialEq, Eq, Structural)]
pub enum ProbeStage {
    /// Loading Cloudflare's published ranges.
    CloudflareRanges,
    /// Matching the address against the ranges.
    Ip,
    /// Multi-resolver DNS with CNAME walk.
    Dns,
    /// TLS handshake and certificates.
    Tls,
    /// HTTP request and Cloudflare header signals.
    Http,
    /// Scoring and classification.
    Evidence,
}

/// A non-fatal error of one stage; the other stages go on.
#[derive(Debug, Clone)]
pub struct ProbeStageError {
    pub stage: ProbeStage,
    pub message: String,
}

/// Everything a probe of one target produced.
#[derive(Debug, Clone)]
pub struct ProbeResult {
    /// The target's address.
    pub ip: IpAddr,
    /// The target's host name.
    pub hostname: String,
    /// The target's port.
    pub port: u16,
    pub target: Target,
    /// `None` when the ranges could not be loaded.
    pub ip_detection: Option<CloudflareIpDetection>,
    /// `None` when the stage did not run or failed.
    pub dns: Option<DnsDetection>,
    pub tls: Option<TlsDetection>,
    pub http: Option<HttpDetection>,
    /// The evidence engine's verdict.
    pub detection: DetectionResult,
    /// Non-fatal stage errors, in the order they occurred.
    pub errors: Vec<ProbeStageError>,
}

impl ProbeResult {
    pub fn is_cloudflare(&self) -> (r: bool)
        ensures
            r == (self.detection.classification == DetectionClassification::Cloudflare),
    {
        self.detection.classification == DetectionClassification::Cloudflare
    }

    pub fn is_unknown(&self) -> (r: bool)
        ensures
            r == (self.detection.classification == DetectionClassification::Unknown),
    {
        self.detection.classification == DetectionClassification::Unknown
    }

    pub fn is_not_cloudflare(&self) -> (r: bool)
        ensures
            r == (self.detection.classification == DetectionClassification::NotCloudflare),
    {
        self.detection.classification == DetectionClassification::NotCloudflare
    }
}

} // verus!
