//! The TLS stage: results, certificate summaries and the decisions of the
//! two-mode handshake.

use vstd::prelude::*;

use std::time::Duration;

use crate::error::{CfProbeError, ErrorView};
use crate::evidence::model::opt_text;
use crate::http::{check_probe_hostname, http_hostname};
use crate::net::IpAddr;
use crate::text::{concat2, copy_str};
use crate::time::{duration_from_secs, nanos};

verus! {

/// Overall state of the TLS handshake.
#[derive(Debug, Clone, Copy, PartialEq, Eq, Structural)]
pub enum TlsDetectionStatus {
    HandshakeSucceeded,
    CertificateVerificationFailed,
    HandshakeFailed,
    Unknown,
}

/// Result of certificate chain verification.
#[derive(Debug, Clone, Copy, PartialEq, Eq, Structural)]
pub enum CertificateVerificationStatus {
    Valid,
    Invalid,
    NotAttempted,
    Unknown,
}

/// The fields of an X.509 certificate that the probe keeps.
#[derive(Debug, Clone)]
pub struct CertificateInfo {
    pub sha256: String,
    pub subject: String,
    pub issuer: String,
    pub serial: String,
    pub not_before: String,
    pub not_after: String,
    pub dns_names: Vec<String>,
    pub ip_addresses: Vec<String>,
    pub is_ca: bool,
}

/// Result of the TLS stage.
#[derive(Debug, Clone)]
pub struct TlsDetection {
    pub ip: IpAddr,
    pub hostname: String,
    pub port: u16,
    pub sni: Option<String>,
    pub handshake_succeeded: bool,
    pub status: TlsDetectionStatus,
    pub certificate_verification: CertificateVerificationStatus,
    pub tls_version: Option<String>,
    pub cipher_suite: Option<String>,
    pub alpn: Option<String>,
    pub certificates: Vec<CertificateInfo>,
    pub error: Option<String>,
}

impl TlsDetection {
    /// A "handshake failed" result.
    pub fn failed(ip: IpAddr, hostname: String, port: u16, error: String) -> (r: Self)
        ensures
            r.ip == ip && r.hostname == hostname && r.port == port,
            r.sni is None && !r.handshake_succeeded,
            r.status == TlsDetectionStatus::HandshakeFailed,
            r.certificate_verification == CertificateVerificationStatus::NotAttempted,
            r.tls_version is None && r.cipher_suite is None && r.alpn is None,
            r.certificates@.len() == 0,
            r.error == Some(error),
    {
        TlsDetection {
            ip,
            hostname,
            port,
            sni: None,
            handshake_succeeded: false,
            status: TlsDetectionStatus::HandshakeFailed,
            certificate_verification: CertificateVerificationStatus::NotAttempted,
            tls_version: None,
            cipher_suite: None,
            alpn: None,
            certificates: Vec::new(),
            error: Some(error),
        }
    }
}

/// TLS probe settings.
#[derive(Debug, Clone)]
pub struct TlsProbeConfig {
    /// Time allowed for the connection and for the handshake, each.
    pub timeout: Duration,
    /// Port used when none is given.
    pub port: u16,
    /// Try a handshake that verifies the certificate chain first.
    pub verify_certificate: bool,
    /// When verification fails, retry without it to still read the
    /// certificates.
    pub observation_fallback: bool,
    /// ALPN protocols offered.
    pub alpn_protocols: Vec<Vec<u8>>,
}

impl Default for TlsProbeConfig {
    /// 8 s, port 443, verification with fallback, `h2` and `http/1.1`.
    fn default() -> (r: Self)
        ensures
            nanos(r.timeout) == 8_000_000_000,
            r.port == 443,
            r.verify_certificate,
            r.observation_fallback,
            r.alpn_protocols@.len() == 2,
            r.alpn_protocols@[0]@ == seq![104u8, 50u8],
            r.alpn_protocols@[1]@ == seq![104u8, 116u8, 116u8, 112u8, 47u8, 49u8, 46u8, 49u8],
    {
        let h2: Vec<u8> = vec![104u8, 50u8];
        let http11: Vec<u8> = vec![104u8, 116u8, 116u8, 112u8, 47u8, 49u8, 46u8, 49u8];
        let alpn_protocols = vec![h2, http11];
        TlsProbeConfig {
            timeout: duration_from_secs(8),
            port: 443,
            verify_certificate: true,
            observation_fallback: true,
            alpn_protocols,
        }
    }
}

/// How a handshake treats the peer's certificate.
#[derive(Debug, Clone, Copy, PartialEq, Eq, Structural)]
pub enum TlsMode {
    /// Against trusted roots, host name and validity.
    Verified,
    /// Without judging trust, to read the certificates.
    Observation,
}

/// The host name for a TLS probe: refused for port 0, else checked and
/// lowercased as for HTTP.
pub fn prepare_tls_probe(hostname: &str, port: u16) -> (r: Result<String, CfProbeError>)
    ensures
        port == 0 ==> (r matches Err(e) && e@ == ErrorView::InvalidResponse("TLS port cannot be 0"@)),
        port != 0 ==> match http_hostname(hostname@) {
            Ok(h) => r matches Ok(s) && s@ == h,
            Err(e) => r matches Err(x) && x@ == e,
        },
{
    if port == 0 {
        return Err(CfProbeError::invalid(copy_str("TLS port cannot be 0")));
    }
    check_probe_hostname(hostname)
}

/// What a TLS probe does next.
pub enum TlsStep {
    /// Make a handshake in this mode.
    Attempt(TlsMode),
    /// Report this result.
    Finish(TlsDetection),
}

/// The next step after the handshake made so far, if any: a first
/// verifying handshake when verification is on; a successful verifying
/// handshake, or a failed one without fallback, is the result; an
/// observation handshake follows when fallback is on; an observation
/// handshake's result is final; with neither mode on, the probe fails.
pub fn next_tls_step(
    config: &TlsProbeConfig,
    previous: Option<(TlsMode, TlsDetection)>,
    ip: IpAddr,
    hostname: &str,
    port: u16,
) -> (r: TlsStep)
    ensures
        match previous {
            None => if config.verify_certificate {
                r == TlsStep::Attempt(TlsMode::Verified)
            } else if config.observation_fallback {
                r == TlsStep::Attempt(TlsMode::Observation)
            } else {
                r matches TlsStep::Finish(d) && d.ip == ip && d.hostname@ == hostname@ && d.port == port
                    && !d.handshake_succeeded && d.status == TlsDetectionStatus::HandshakeFailed
                    && opt_text(d.error) == Some("TLS handshake failed"@)
            },
            Some((TlsMode::Verified, d)) => if d.handshake_succeeded || !config.observation_fallback {
                r == TlsStep::Finish(d)
            } else {
                r == TlsStep::Attempt(TlsMode::Observation)
            },
            Some((TlsMode::Observation, d)) => r == TlsStep::Finish(d),
        },
{
    match previous {
        None => {
            if config.verify_certificate {
                TlsStep::Attempt(TlsMode::Verified)
            } else if config.observation_fallback {
                TlsStep::Attempt(TlsMode::Observation)
            } else {
                TlsStep::Finish(
                    TlsDetection::failed(ip, copy_str(hostname), port, copy_str("TLS handshake failed")),
                )
            }
        },
        Some((TlsMode::Verified, d)) => {
            if d.handshake_succeeded || !config.observation_fallback {
                TlsStep::Finish(d)
            } else {
                TlsStep::Attempt(TlsMode::Observation)
            }
        },
        Some((TlsMode::Observation, d)) => TlsStep::Finish(d),
    }
}

/// Why a handshake attempt ended early.
pub enum TlsFailure {
    /// The TCP connection failed, with the error's text.
    ConnectFailed(String),
    ConnectTimeout,
    /// The host name is not a valid TLS server name, with the error's text.
    InvalidServerName(String),
    /// The TLS client configuration could not be built, with the error's text.
    ConfigFailed(String),
    /// The handshake failed, with the error's text.
    HandshakeFailed(String),
    HandshakeTimeout,
}

pub open spec fn failure_text(f: TlsFailure) -> Seq<char> {
    match f {
        TlsFailure::ConnectFailed(e) => "TCP connect failed: "@ + e@,
        TlsFailure::ConnectTimeout => "TCP connect timeout"@,
        TlsFailure::InvalidServerName(e) => "invalid TLS server name: "@ + e@,
        TlsFailure::ConfigFailed(e) => "TLS config failed: "@ + e@,
        TlsFailure::HandshakeFailed(e) => "TLS handshake failed: "@ + e@,
        TlsFailure::HandshakeTimeout => "TLS handshake timeout"@,
    }
}

/// The result of an attempt that ended early.
pub fn attempt_failed(ip: IpAddr, hostname: &str, port: u16, failure: TlsFailure) -> (r: TlsDetection)
    ensures
        r.ip == ip && r.hostname@ == hostname@ && r.port == port,
        !r.handshake_succeeded,
        r.status == TlsDetectionStatus::HandshakeFailed,
        r.certificate_verification == CertificateVerificationStatus::NotAttempted,
        r.certificates@.len() == 0,
        opt_text(r.error) == Some(failure_text(failure)),
{
    let message = match failure {
        TlsFailure::ConnectFailed(e) => concat2("TCP connect failed: ", e.as_str()),
        TlsFailure::ConnectTimeout => copy_str("TCP connect timeout"),
        TlsFailure::InvalidServerName(e) => concat2("invalid TLS server name: ", e.as_str()),
        TlsFailure::ConfigFailed(e) => concat2("TLS config failed: ", e.as_str()),
        TlsFailure::HandshakeFailed(e) => concat2("TLS handshake failed: ", e.as_str()),
        TlsFailure::HandshakeTimeout => copy_str("TLS handshake timeout"),
    };
    TlsDetection::failed(ip, copy_str(hostname), port, message)
}

/// The result of a completed handshake: the SNI is the host name; a
/// verifying handshake is `HandshakeSucceeded` with a valid chain, an
/// observation handshake `CertificateVerificationFailed` with an unknown
/// chain.
pub fn handshake_detection(
    ip: IpAddr,
    hostname: &str,
    port: u16,
    mode: TlsMode,
    tls_version: Option<String>,
    cipher_suite: Option<String>,
    alpn: Option<String>,
    certificates: Vec<CertificateInfo>,
) -> (r: TlsDetection)
    ensures
        r.ip == ip && r.hostname@ == hostname@ && r.port == port,
        opt_text(r.sni) == Some(hostname@),
        r.handshake_succeeded,
        r.status == if mode == TlsMode::Verified {
            TlsDetectionStatus::HandshakeSucceeded
        } else {
            TlsDetectionStatus::CertificateVerificationFailed
        },
        r.certificate_verification == if mode == TlsMode::Verified {
            CertificateVerificationStatus::Valid
        } else {
            CertificateVerificationStatus::Unknown
        },
        r.tls_version == tls_version && r.cipher_suite == cipher_suite && r.alpn == alpn,
        r.certificates == certificates,
        r.error is None,
{
    let (status, verification) = match mode {
        TlsMode::Verified => (TlsDetectionStatus::HandshakeSucceeded, CertificateVerificationStatus::Valid),
        TlsMode::Observation => (
            TlsDetectionStatus::CertificateVerificationFailed,
            CertificateVerificationStatus::Unknown,
        ),
    };
    TlsDetection {
        ip,
        hostname: copy_str(hostname),
        port,
        sni: Some(copy_str(hostname)),
        handshake_succeeded: true,
        status,
        certificate_verification: verification,
        tls_version,
        cipher_suite,
        alpn,
        certificates,
        error: None,
    }
}

} // verus!
