use std::sync::Arc;
use std::time::Duration;

use cfprobe::net::parse_ip;
use cfprobe::{
    CertificateInfo, CertificateVerificationStatus, CloudflareHttpSignals, CloudflareIpDetection,
    CloudflareWebProxyV1, DetectionClassification, DetectionKind, DetectionResult, DnsDetection,
    DnsDetectionStatus, EvidenceEngine, EvidenceInput, HttpDetection, HttpProbeStatus, IpAddr,
    Ipv4Addr, TlsDetection, TlsDetectionStatus,
};

fn evaluate(input: EvidenceInput) -> DetectionResult {
    EvidenceEngine::new(Arc::new(CloudflareWebProxyV1::default())).evaluate(input)
}

fn confidence(result: &DetectionResult) -> f64 {
    f64::from(result.confidence) / 1000.0
}

fn cloudflare_ip_detection(ip: IpAddr) -> CloudflareIpDetection {
    CloudflareIpDetection {
        ip,
        is_cloudflare: true,
        kind: DetectionKind::CloudflareEdge,
    }
}

fn non_cloudflare_ip_detection(ip: IpAddr) -> CloudflareIpDetection {
    CloudflareIpDetection {
        ip,
        is_cloudflare: false,
        kind: DetectionKind::NotCloudflare,
    }
}

fn base_http(ip: IpAddr) -> HttpDetection {
    HttpDetection {
        ip,
        hostname: "example.com".to_string(),
        port: 443,
        url: "https://example.com/".to_string(),
        final_url: Some("https://example.com/".to_string()),
        status_code: Some(200),
        http_version: Some("HTTP/2".to_string()),
        status: HttpProbeStatus::ResponseReceived,
        headers: Vec::new(),
        signals: CloudflareHttpSignals::default(),
        content_type: Some("text/html".to_string()),
        content_length: Some(10),
        body_bytes_read: 10,
        body_truncated: false,
        redirect_location: None,
        error: None,
    }
}

fn base_tls(ip: IpAddr) -> TlsDetection {
    TlsDetection {
        ip,
        hostname: "example.com".to_string(),
        port: 443,
        sni: Some("example.com".to_string()),
        handshake_succeeded: true,
        status: TlsDetectionStatus::HandshakeSucceeded,
        certificate_verification: CertificateVerificationStatus::Valid,
        tls_version: Some("TLSv1_3".to_string()),
        cipher_suite: Some("TLS13_AES_256_GCM_SHA384".to_string()),
        alpn: Some("h2".to_string()),
        certificates: vec![CertificateInfo {
            sha256: "test".to_string(),
            subject: "CN=example.com".to_string(),
            issuer: "Test CA".to_string(),
            serial: "01".to_string(),
            not_before: "2026-01-01".to_string(),
            not_after: "2027-01-01".to_string(),
            dns_names: vec!["example.com".to_string()],
            ip_addresses: Vec::new(),
            is_ca: false,
        }],
        error: None,
    }
}

fn dns(
    ip_list: Vec<IpAddr>,
    cloudflare_ips: Vec<IpAddr>,
    cloudflare_resolver_count: usize,
    successful_resolver_count: usize,
    resolver_count: usize,
    status: DnsDetectionStatus,
) -> DnsDetection {
    DnsDetection {
        hostname: "example.com".to_string(),
        normalized_hostname: "example.com.".to_string(),
        observations: Vec::new(),
        union_ips: ip_list,
        has_cloudflare_ip: !cloudflare_ips.is_empty(),
        cloudflare_ips,
        cloudflare_resolver_count,
        successful_resolver_count,
        resolver_count,
        all_resolvers_agree: cloudflare_resolver_count == successful_resolver_count
            && successful_resolver_count > 0,
        total_duration: Duration::from_millis(0),
        status,
        mx_records: Vec::new(),
        txt_records: Vec::new(),
        ns_records: Vec::new(),
        cname_chain: Vec::new(),
    }
}

#[test]
fn ip_only_cloudflare_is_positive() {
    let ip = IpAddr::V4(Ipv4Addr::new(104, 16, 1, 1));

    let detection = cloudflare_ip_detection(ip);

    let result = evaluate(EvidenceInput::ip_only(ip, &detection));

    assert_eq!(result.classification, DetectionClassification::Cloudflare);

    assert!(confidence(&result) >= 0.85);

    assert!(result.score > 0);
}

#[test]
fn host_requires_host_specific_evidence() {
    let ip = IpAddr::V4(Ipv4Addr::new(104, 16, 1, 1));

    let detection = cloudflare_ip_detection(ip);

    let result = evaluate(EvidenceInput::with_host(
        ip,
        "example.com",
        Some(&detection),
        None,
        None,
        None,
    ));

    assert_eq!(result.classification, DetectionClassification::Unknown);
}

#[test]
fn strong_combined_evidence_is_cloudflare() {
    let ip = IpAddr::V4(Ipv4Addr::new(104, 16, 1, 1));

    let ip_detection = cloudflare_ip_detection(ip);

    let dns = dns(vec![ip], vec![ip], 3, 3, 3, DnsDetectionStatus::CloudflareIp);

    let tls = base_tls(ip);

    let mut http = base_http(ip);

    http.signals.cf_ray = Some("abc123-SJC".to_string());

    http.signals.cf_cache_status = Some("HIT".to_string());

    http.signals.server = Some("cloudflare".to_string());

    http.signals.server_cloudflare = true;

    let result = evaluate(EvidenceInput::with_host(
        ip,
        "example.com",
        Some(&ip_detection),
        Some(&dns),
        Some(&tls),
        Some(&http),
    ));

    assert_eq!(result.classification, DetectionClassification::Cloudflare);

    assert!(confidence(&result) >= 0.90);

    assert!(result.positive_evidence_count >= 5);
}

#[test]
fn outside_cloudflare_ip_is_negative() {
    let ip = parse_ip("8.8.8.8").unwrap();

    let detection = non_cloudflare_ip_detection(ip);

    let result = evaluate(EvidenceInput::ip_only(ip, &detection));

    assert_eq!(result.classification, DetectionClassification::NotCloudflare);

    assert!(confidence(&result) >= 0.95);

    assert!(result.score < 0);
}

#[test]
fn spoofed_http_headers_do_not_override_non_cloudflare_ip() {
    let ip = parse_ip("8.8.8.8").unwrap();

    let ip_detection = non_cloudflare_ip_detection(ip);

    let mut http = base_http(ip);

    http.signals.cf_ray = Some("fake-ray".to_string());

    http.signals.cf_cache_status = Some("HIT".to_string());

    http.signals.server = Some("cloudflare".to_string());

    http.signals.server_cloudflare = true;

    let result = evaluate(EvidenceInput::with_host(
        ip,
        "example.com",
        Some(&ip_detection),
        None,
        None,
        Some(&http),
    ));

    assert_eq!(result.classification, DetectionClassification::NotCloudflare);

    assert!(result.score < 0);
}

#[test]
fn dns_failure_is_not_negative() {
    let ip = parse_ip("104.16.1.1").unwrap();

    let ip_detection = cloudflare_ip_detection(ip);

    let dns = dns(Vec::new(), Vec::new(), 0, 0, 3, DnsDetectionStatus::Unknown);

    let result = evaluate(EvidenceInput::with_host(
        ip,
        "example.com",
        Some(&ip_detection),
        Some(&dns),
        None,
        None,
    ));

    assert_eq!(result.classification, DetectionClassification::Unknown);

    assert!(result.score >= 0);
}

#[test]
fn certificate_wildcard_is_recognized() {
    let ip = parse_ip("104.16.1.1").unwrap();

    let detection = cloudflare_ip_detection(ip);

    let mut tls = base_tls(ip);

    tls.certificates[0].dns_names = vec!["*.example.com".to_string()];

    tls.hostname = "api.example.com".to_string();

    let result = evaluate(EvidenceInput::with_host(
        ip,
        "api.example.com",
        Some(&detection),
        None,
        Some(&tls),
        None,
    ));

    assert_eq!(result.classification, DetectionClassification::Cloudflare);
}

#[test]
fn http_correlated_headers_are_capped() {
    let ip = parse_ip("104.16.1.1").unwrap();

    let detection = cloudflare_ip_detection(ip);

    let mut http = base_http(ip);

    http.signals.cf_ray = Some("ray".to_string());

    http.signals.cf_cache_status = Some("HIT".to_string());

    http.signals.server = Some("cloudflare".to_string());

    http.signals.server_cloudflare = true;

    http.signals.cf_connecting_ip = Some("1.2.3.4".to_string());

    http.signals.cf_ip_country = Some("US".to_string());

    http.signals.cf_mitigated = Some("challenge".to_string());

    let result = evaluate(EvidenceInput::with_host(
        ip,
        "example.com",
        Some(&detection),
        None,
        None,
        Some(&http),
    ));

    assert!(result.score <= 100);

    assert_eq!(result.classification, DetectionClassification::Cloudflare);
}

#[test]
fn ip_only_cloudflare_has_exact_score_and_confidence() {
    let ip = IpAddr::V4(Ipv4Addr::new(104, 16, 1, 1));

    let detection = cloudflare_ip_detection(ip);

    let result = evaluate(EvidenceInput::ip_only(ip, &detection));

    assert_eq!(result.score, 80);
    assert_eq!(result.confidence, 900);
    assert_eq!(result.positive_evidence_count, 1);
    assert_eq!(result.negative_evidence_count, 0);
    assert_eq!(result.evidence.len(), 1);
    assert_eq!(result.hostname, None);
}

#[test]
fn outside_ip_has_maximum_confidence() {
    let ip = parse_ip("8.8.8.8").unwrap();

    let detection = non_cloudflare_ip_detection(ip);

    let result = evaluate(EvidenceInput::ip_only(ip, &detection));

    assert_eq!(result.confidence, 990);
    assert_eq!(result.score, -100);
}

#[test]
fn inconsistent_input_is_reported() {
    let ip = parse_ip("104.16.1.1").unwrap();
    let other = parse_ip("104.16.1.2").unwrap();

    let detection = cloudflare_ip_detection(other);

    let input = EvidenceInput::ip_only(ip, &detection);

    assert!(!input.is_consistent());
}
