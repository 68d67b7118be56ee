use cfprobe::net::parse_ip;
use cfprobe::{detect_cloudflare_ip, CloudflareRanges, DetectionKind, IpAddr, Ipv4Addr};

#[test]
fn detect_cloudflare_ipv4() {
    let ranges = CloudflareRanges::new(
        vec!["104.16.0.0/13".to_string()],
        vec![],
        Some("test-etag".to_string()),
    )
    .unwrap();

    let ip = IpAddr::V4(Ipv4Addr::new(104, 16, 1, 1));

    let result = detect_cloudflare_ip(&ranges, ip);

    assert!(result.is_cloudflare);
    assert_eq!(result.kind, DetectionKind::CloudflareEdge);
}

#[test]
fn detect_non_cloudflare_ipv4() {
    let ranges = CloudflareRanges::new(vec!["104.16.0.0/13".to_string()], vec![], None).unwrap();

    let ip = IpAddr::V4(Ipv4Addr::new(8, 8, 8, 8));

    let result = detect_cloudflare_ip(&ranges, ip);

    assert!(!result.is_cloudflare);
    assert_eq!(result.kind, DetectionKind::NotCloudflare);
}

#[test]
fn detect_cloudflare_ipv6() {
    let ranges = CloudflareRanges::new(vec![], vec!["2400:cb00::/32".to_string()], None).unwrap();

    let ip = parse_ip("2400:cb00:1234::1").unwrap();

    let result = detect_cloudflare_ip(&ranges, ip);

    assert!(result.is_cloudflare);
}

#[test]
fn reject_invalid_cidr() {
    let result = CloudflareRanges::new(vec!["invalid".to_string()], vec![], None);

    assert!(result.is_err());
}

#[test]
fn ranges_keep_etag_and_lists() {
    let ranges = CloudflareRanges::new(
        vec!["104.16.0.0/13".to_string(), "172.64.0.0/13".to_string()],
        vec!["2606:4700::/32".to_string()],
        Some("abc".to_string()),
    )
    .unwrap();

    assert_eq!(ranges.etag(), Some("abc"));
    assert_eq!(ranges.ipv4_ranges().len(), 2);
    assert_eq!(ranges.ipv6_ranges().len(), 1);
    assert!(ranges.contains(parse_ip("172.64.3.4").unwrap()));
    assert!(ranges.contains(parse_ip("2606:4700:10::1").unwrap()));
    assert!(!ranges.contains(parse_ip("2606:4701::1").unwrap()));
}

#[test]
fn ranges_are_matched_by_address_family() {
    let ranges = CloudflareRanges::new(vec![], vec!["104.16.0.0/13".to_string()], None).unwrap();

    assert!(!ranges.contains(parse_ip("104.16.1.1").unwrap()));
}
