use std::time::Duration;

use cfprobe::net::parse_ip;
use cfprobe::{
    DnsDetection, DnsDetectionStatus, HttpScheme, IpAddr, IpClassification, Ipv4Addr, Target,
    TargetPolicy,
};

fn ip(text: &str) -> IpAddr {
    parse_ip(text).unwrap()
}

fn dns_with_answers(union_ips: Vec<IpAddr>, cloudflare_ips: Vec<IpAddr>) -> DnsDetection {
    let has_cloudflare_ip = !cloudflare_ips.is_empty();
    DnsDetection {
        hostname: "evil.example".to_string(),
        normalized_hostname: "evil.example.".to_string(),
        observations: Vec::new(),
        union_ips,
        cloudflare_resolver_count: cloudflare_ips.len(),
        cloudflare_ips,
        successful_resolver_count: 2,
        resolver_count: 2,
        all_resolvers_agree: false,
        has_cloudflare_ip,
        total_duration: Duration::from_millis(0),
        status: if has_cloudflare_ip {
            DnsDetectionStatus::CloudflareIp
        } else {
            DnsDetectionStatus::NoCloudflareIp
        },
        mx_records: Vec::new(),
        txt_records: Vec::new(),
        ns_records: Vec::new(),
        cname_chain: Vec::new(),
    }
}

#[test]
fn public_ip_is_allowed() {
    let policy = TargetPolicy::cloudflare_web_proxy_v1();

    let target = Target::https(ip("104.16.1.1"), "example.com");

    assert!(policy.validate_target(&target).is_ok());
}

#[test]
fn loopback_is_rejected() {
    let policy = TargetPolicy::cloudflare_web_proxy_v1();

    let target = Target::http(IpAddr::V4(Ipv4Addr::new(127, 0, 0, 1)), "example.com");

    assert!(policy.validate_target(&target).is_err());
}

#[test]
fn private_ipv4_is_rejected() {
    let policy = TargetPolicy::cloudflare_web_proxy_v1();

    let target = Target::http(ip("10.0.0.1"), "example.com");

    assert!(policy.validate_target(&target).is_err());

    let target = Target::http(ip("192.168.1.1"), "example.com");

    assert!(policy.validate_target(&target).is_err());
}

#[test]
fn cgnat_is_rejected() {
    let policy = TargetPolicy::cloudflare_web_proxy_v1();

    let target = Target::https(ip("100.64.0.1"), "example.com");

    assert!(policy.validate_target(&target).is_err());
}

#[test]
fn ipv4_mapped_ipv6_private_is_rejected() {
    let policy = TargetPolicy::cloudflare_web_proxy_v1();

    let target = Target::https(ip("::ffff:10.0.0.1"), "example.com");

    assert!(policy.validate_target(&target).is_err());
}

#[test]
fn ipv6_unique_local_is_rejected() {
    let policy = TargetPolicy::cloudflare_web_proxy_v1();

    let target = Target::https(ip("fd00::1"), "example.com");

    assert!(policy.validate_target(&target).is_err());
}

#[test]
fn ipv6_link_local_is_rejected() {
    let policy = TargetPolicy::cloudflare_web_proxy_v1();

    let target = Target::https(ip("fe80::1"), "example.com");

    assert!(policy.validate_target(&target).is_err());
}

#[test]
fn multicast_is_rejected() {
    let policy = TargetPolicy::cloudflare_web_proxy_v1();

    let ipv4_target = Target::https(ip("224.0.0.1"), "example.com");

    assert!(policy.validate_target(&ipv4_target).is_err());

    let ipv6_target = Target::https(ip("ff02::1"), "example.com");

    assert!(policy.validate_target(&ipv6_target).is_err());
}

#[test]
fn documentation_ip_is_rejected() {
    let policy = TargetPolicy::cloudflare_web_proxy_v1();

    let target = Target::https(ip("192.0.2.1"), "example.com");

    assert!(policy.validate_target(&target).is_err());

    let target = Target::https(ip("2001:db8::1"), "example.com");

    assert!(policy.validate_target(&target).is_err());
}

#[test]
fn local_hostname_is_rejected() {
    let policy = TargetPolicy::cloudflare_web_proxy_v1();

    for hostname in [
        "localhost",
        "api.local",
        "service.internal",
        "foo.intranet",
        "router.lan",
        "foo.home.arpa",
    ] {
        let target = Target::https(ip("104.16.1.1"), hostname);

        assert!(
            policy.validate_target(&target).is_err(),
            "hostname should be rejected: {hostname}",
        );
    }
}

#[test]
fn ip_literal_hostname_is_rejected() {
    let policy = TargetPolicy::cloudflare_web_proxy_v1();

    let target = Target::https(ip("104.16.1.1"), "8.8.8.8");

    assert!(policy.validate_target(&target).is_err());
}

#[test]
fn unsupported_port_is_rejected() {
    let policy = TargetPolicy::cloudflare_web_proxy_v1();

    let target = Target {
        ip: ip("104.16.1.1"),
        hostname: "example.com".to_string(),
        port: 22,
        scheme: HttpScheme::Https,
    };

    assert!(policy.validate_target(&target).is_err());
}

#[test]
fn cloudflare_supported_https_ports_are_allowed() {
    let policy = TargetPolicy::cloudflare_web_proxy_v1();

    for port in [443, 2053, 2083, 2087, 2096, 8443] {
        let target = Target {
            ip: ip("104.16.1.1"),
            hostname: "example.com".to_string(),
            port,
            scheme: HttpScheme::Https,
        };

        assert!(
            policy.validate_target(&target).is_ok(),
            "HTTPS port should be allowed: {port}",
        );
    }
}

#[test]
fn cloudflare_supported_http_ports_are_allowed() {
    let policy = TargetPolicy::cloudflare_web_proxy_v1();

    for port in [80, 8080, 8880, 2052, 2082, 2086, 2095] {
        let target = Target {
            ip: ip("104.16.1.1"),
            hostname: "example.com".to_string(),
            port,
            scheme: HttpScheme::Http,
        };

        assert!(
            policy.validate_target(&target).is_ok(),
            "HTTP port should be allowed: {port}",
        );
    }
}

#[test]
fn dns_private_answer_is_rejected() {
    let policy = TargetPolicy::cloudflare_web_proxy_v1();

    let dns = dns_with_answers(vec![ip("1.2.3.4"), ip("10.0.0.1")], Vec::new());

    assert!(policy.validate_dns(&dns).is_err());
}

#[test]
fn dns_rebinding_like_resolution_is_rejected() {
    let policy = TargetPolicy::cloudflare_web_proxy_v1();

    let dns = dns_with_answers(vec![ip("104.16.1.1"), ip("127.0.0.1")], vec![ip("104.16.1.1")]);

    assert!(policy.validate_dns(&dns).is_err());
}

#[test]
fn development_policy_allows_private_targets() {
    let policy = TargetPolicy::development();

    let target = Target::http(ip("127.0.0.1"), "localhost");

    assert!(policy.validate_target(&target).is_ok());
}

#[test]
fn exported_ip_classification_type_is_available() {
    let address = ip("192.168.1.1");

    let _classification: IpClassification = TargetPolicy::cloudflare_web_proxy_v1()
        .validate_ip(address)
        .err()
        .map(|_| IpClassification {
            private: true,
            loopback: false,
            link_local: false,
            multicast: false,
            unspecified: false,
            special_use: false,
        })
        .unwrap();
}

#[test]
fn public_dns_answers_are_accepted() {
    let policy = TargetPolicy::cloudflare_web_proxy_v1();

    let dns = dns_with_answers(vec![ip("104.16.1.1"), ip("1.2.3.4")], vec![ip("104.16.1.1")]);

    assert!(policy.validate_dns(&dns).is_ok());
}

#[test]
fn private_dns_answers_pass_when_not_checked() {
    let policy = TargetPolicy::cloudflare_web_proxy_v1().reject_private_dns_answers(false);

    let dns = dns_with_answers(vec![ip("10.0.0.1")], Vec::new());

    assert!(policy.validate_dns(&dns).is_ok());
}

#[test]
fn rejection_reason_names_the_address() {
    let policy = TargetPolicy::cloudflare_web_proxy_v1();

    let error = policy.validate_ip(ip("10.0.0.1")).unwrap_err();

    assert_eq!(
        error.to_string(),
        "Target rejected by security policy: private IP is not allowed: 10.0.0.1"
    );
}

#[test]
fn builder_opens_one_more_port() {
    let policy = TargetPolicy::cloudflare_web_proxy_v1().allow_https_port(9443);

    assert!(policy.validate_port(HttpScheme::Https, 9443).is_ok());
    assert!(policy.validate_port(HttpScheme::Http, 9443).is_err());
}

#[test]
fn loopback_is_also_special_use() {
    let policy = TargetPolicy::cloudflare_web_proxy_v1().allow_loopback(true);

    assert!(policy.validate_ip(ip("127.0.0.1")).is_err());

    let policy = policy.allow_special_use_ips(true);

    assert!(policy.validate_ip(ip("127.0.0.1")).is_ok());
    assert!(policy.validate_ip(ip("10.0.0.1")).is_err());
}

#[test]
fn ipv4_mapped_public_address_is_allowed() {
    let policy = TargetPolicy::cloudflare_web_proxy_v1();

    assert!(policy.validate_ip(ip("::ffff:104.16.1.1")).is_ok());
    assert!(policy.validate_ip(ip("::ffff:192.168.1.1")).is_err());
}

#[test]
fn ipv6_loopback_is_loopback() {
    let policy = TargetPolicy::cloudflare_web_proxy_v1().allow_special_use_ips(true);
    assert!(policy.validate_ip(ip("::1")).is_err());
    assert!(policy.validate_ip(ip("::1")).unwrap_err().to_string().contains("loopback"));
    let policy = policy.allow_loopback(true);
    assert!(policy.validate_ip(ip("::1")).is_ok());
}

#[test]
fn cname_is_normalised_before_the_local_test() {
    let policy = TargetPolicy::cloudflare_web_proxy_v1();
    let mut dns = dns_with_answers(vec![ip("104.16.1.1")], vec![ip("104.16.1.1")]);
    dns.observations.push(cfprobe::dns::resolution::resolver_observation(
        "a".to_string(),
        Ok(vec![ip("104.16.1.1")]),
        vec!["x.local .".to_string()],
        Duration::from_millis(1),
        None,
        None,
        None,
    ));
    assert!(policy.validate_dns(&dns).is_err());
}
