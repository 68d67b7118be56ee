use std::time::Duration;

use cfprobe::certificates::parse_certificate;
use cfprobe::cloudflare::cache::{settle_refresh, CacheFile, FetchOutcome};
use cfprobe::dns::aggregate::aggregate_observations;
use cfprobe::dns::names::{parse_doh_endpoint, reverse_arpa, validate_hostname};
use cfprobe::dns::resolution::{
    is_cloudflare_cname, CnameWalk, merge_unique, normalize_query_name, record_observation,
    resolver_observation,
};
use cfprobe::http::{build_host_header, build_url, plan_http_request, RawHeader};
use cfprobe::http_response::{body_outcome, count_body_chunk, request_failed, response_detection};
use cfprobe::net::{ip_to_string, parse_ip};
use cfprobe::server::{
    authorize, constant_time_eq, error_answer, usable_request_id, ApiOperation,
};
use cfprobe::target_list::{check_batch_input, parse_target_list};
use cfprobe::time::unix_millis;
use cfprobe::tls::{next_tls_step, prepare_tls_probe, TlsMode, TlsStep};
use cfprobe::{
    CfProbeError, CloudflareApiRanges, CloudflareFetchResult, CloudflareRanges, DnsCacheConfig,
    DnsDetectionStatus, HttpProbeStatus, HttpScheme, IpAddr, ResolverHealth, ResolverObservation, ServerConfig,
    ServerMetrics, TlsDetection, TlsProbeConfig,
};

use cfprobe::dns::cache::AnswerTable;
use cfprobe::dns::cache::DnsCache;
use cfprobe::probe::run::{admit_probe, check_stages_match, StageOutcome};
use cfprobe::http_clients::{ClientPool, HttpClientKey};
use cfprobe::cloudflare::refresh::{refresh_start, refresh_step, RefreshAction, RefreshEvent, RefreshState};
use cfprobe::dns::health::{unhealthy_resolver_names, ResolverBans};
use cfprobe::evidence::scoring::calculate_confidence;
use cfprobe::probe::batch::{build_batch_result, order_by_index, reserve_start};
use cfprobe::{BatchItemResult, BatchItemStatus, CacheSource, Target};
use cfprobe::{ConfidenceLevel, ConfidenceRuleSet, DetectionClassification};

const CERT_DER_HEX: &str = "3082019c30820143a00302010202020102300a06082a8648ce3d04030230163114301206035504030c0b6578616d706c652e636f6d301e170d3236313131373032353535375a170d3237313131373032353535375a30163114301206035504030c0b6578616d706c652e636f6d3059301306072a8648ce3d020106082a8648ce3d03010703420004303c0ebb758db15418384ef48c8c5e5eb1fb85792a79d5e9a4d33aa0b6a877945e4ef23e9928246cb8c0003217595fc4d0d1296b2a8a269779628f2a27a76fc3a38180307e301d0603551d0e04160414c6166787788b8156f6e2f3107e4c4a8b2f39777d301f0603551d23041830168014c6166787788b8156f6e2f3107e4c4a8b2f39777d300f0603551d130101ff040530030101ff302b0603551d1104243022820b6578616d706c652e636f6d820d2a2e6578616d706c652e636f6d870401020304300a06082a8648ce3d04030203470030440220467b4e20f99be5fbd819f016df0d0400e066b52e63f7ad5ba8d7d5ea3e3e65d20220047abdc94f393d6f1f74e3b71fdeb77c1553895c345469536f0d8728f972f8de";

fn ip(text: &str) -> IpAddr {
    parse_ip(text).unwrap()
}

fn ranges() -> CloudflareRanges {
    CloudflareRanges::new(
        vec!["104.16.0.0/13".to_string()],
        vec!["2606:4700::/32".to_string()],
        None,
    )
    .unwrap()
}

fn answered(name: &str, ips: Vec<IpAddr>) -> ResolverObservation {
    resolver_observation(
        name.to_string(),
        Ok(ips),
        Vec::new(),
        Duration::from_millis(5),
        None,
        None,
        None,
    )
}

fn failed(name: &str) -> ResolverObservation {
    resolver_observation(
        name.to_string(),
        Err("mock DNS failure".to_string()),
        Vec::new(),
        Duration::from_millis(5),
        None,
        None,
        None,
    )
}

fn aggregate(observations: Vec<ResolverObservation>) -> cfprobe::DnsDetection {
    let count = observations.len();
    aggregate_observations(
        "example.com",
        observations,
        Duration::from_millis(10),
        &ranges(),
        count,
        Vec::new(),
        Vec::new(),
        Vec::new(),
        Vec::new(),
    )
}

fn hex_bytes(text: &str) -> Vec<u8> {
    (0..text.len() / 2)
        .map(|i| u8::from_str_radix(&text[2 * i..2 * i + 2], 16).unwrap())
        .collect()
}

#[test]
fn one_resolver_with_cloudflare_address() {
    let result = aggregate(vec![answered("mock", vec![ip("104.16.1.1")])]);

    assert!(result.has_cloudflare_ip);
    assert_eq!(result.status, DnsDetectionStatus::CloudflareIp);
}

#[test]
fn one_resolver_without_cloudflare_address() {
    let result = aggregate(vec![answered("mock", vec![ip("8.8.8.8")])]);

    assert!(!result.has_cloudflare_ip);
    assert_eq!(result.status, DnsDetectionStatus::NoCloudflareIp);
}

#[test]
fn failed_resolution_is_unknown() {
    let result = aggregate(vec![failed("mock")]);

    assert_eq!(result.status, DnsDetectionStatus::Unknown);
    assert_eq!(result.successful_resolver_count, 0);
}

#[test]
fn three_agreeing_resolvers() {
    let result = aggregate(vec![
        answered("resolver-a", vec![ip("104.16.1.1")]),
        answered("resolver-b", vec![ip("104.16.1.1")]),
        answered("resolver-c", vec![ip("104.16.1.1")]),
    ]);

    assert_eq!(result.cloudflare_resolver_count, 3);
    assert!(result.all_resolvers_agree);
    assert_eq!(result.status, DnsDetectionStatus::CloudflareIp);
    assert_eq!(result.union_ips.len(), 1);
}

#[test]
fn disagreeing_resolvers_are_visible() {
    let result = aggregate(vec![
        answered("resolver-a", vec![ip("104.16.1.1")]),
        answered("resolver-b", vec![ip("8.8.8.8")]),
        answered("resolver-c", vec![ip("104.16.1.1")]),
    ]);

    assert_eq!(result.cloudflare_resolver_count, 2);
    assert!(!result.all_resolvers_agree);
    assert_eq!(result.status, DnsDetectionStatus::CloudflareIp);
    assert_eq!(result.union_ips, vec![ip("8.8.8.8"), ip("104.16.1.1")]);
    assert_eq!(result.cloudflare_ips, vec![ip("104.16.1.1")]);
}

#[test]
fn private_answers_are_dropped_from_observations() {
    let observation = answered("mock", vec![ip("10.0.0.1"), ip("104.16.1.1"), ip("127.0.0.1")]);

    assert!(observation.success);
    assert_eq!(observation.ips, vec![ip("104.16.1.1")]);
    assert_eq!(observation.resolved_ip_count(), 1);
}

#[test]
fn query_names_lose_trailing_dots() {
    assert_eq!(normalize_query_name(" example.com.. "), "example.com");
    assert_eq!(normalize_query_name("..."), "...");
}

#[test]
fn cloudflare_cname_targets() {
    assert!(is_cloudflare_cname("example.com.cdn.CLOUDFLARE.net."));
    assert!(!is_cloudflare_cname("example.akamaiedge.net."));
}

#[test]
fn merged_records_stay_distinct() {
    let mut all = vec!["a".to_string(), "b".to_string()];
    merge_unique(&mut all, &vec!["b".to_string(), "c".to_string(), "c".to_string()]);

    assert_eq!(all, vec!["a".to_string(), "b".to_string(), "c".to_string()]);
}

#[test]
fn reverse_names() {
    assert_eq!(reverse_arpa(&ip("1.2.3.4")), "4.3.2.1.in-addr.arpa.");
    assert_eq!(
        reverse_arpa(&ip("2001:db8::1")),
        "2.0.0.1.0.d.b.8.0.0.0.0.0.0.0.0.0.0.0.0.0.0.0.0.0.0.0.0.0.0.0.1.ip6.arpa."
    );
}

#[test]
fn hostname_validation() {
    assert!(validate_hostname("example.com").is_ok());
    assert!(validate_hostname("").is_err());
    assert!(validate_hostname("bad..name").is_err());
}

#[test]
fn doh_endpoints() {
    let (address, host, path) = parse_doh_endpoint("https://1.1.1.1/dns-query").unwrap();
    assert_eq!(address, ip("1.1.1.1"));
    assert_eq!(host, "1.1.1.1");
    assert_eq!(path, "/dns-query");

    let (_, _, default_path) = parse_doh_endpoint("https://8.8.8.8").unwrap();
    assert_eq!(default_path, "/dns-query");

    match parse_doh_endpoint("https://dns.google/dns-query") {
        Err(CfProbeError::Dns { message }) => {
            assert_eq!(message, "DoH host is not an IP address: dns.google")
        }
        _ => panic!("a named DoH host must be refused"),
    }
}

#[test]
fn address_text_round_trip() {
    assert_eq!(ip_to_string(&ip("104.16.1.1")), "104.16.1.1");
    assert_eq!(ip_to_string(&ip("2400:cb00:0:0:0:0:0:1")), "2400:cb00::1");
    assert!(parse_ip("not-an-ip").is_none());
}

#[test]
fn urls_and_host_headers() {
    assert_eq!(build_url(HttpScheme::Https, "example.com", 443), "https://example.com/");
    assert_eq!(build_url(HttpScheme::Http, "example.com", 8080), "http://example.com:8080/");
    assert_eq!(build_host_header("example.com", HttpScheme::Https, 443), "example.com");
    assert_eq!(build_host_header("example.com", HttpScheme::Https, 8443), "example.com:8443");
}

#[test]
fn tls_probe_host_names() {
    assert_eq!(prepare_tls_probe("Example.COM.", 443).unwrap(), "example.com");
    match prepare_tls_probe("example.com", 0) {
        Err(CfProbeError::InvalidResponse(message)) => assert_eq!(message, "TLS port cannot be 0"),
        _ => panic!("port 0 must be refused"),
    }
}

#[test]
fn tls_steps_fall_back_to_observation() {
    let config = TlsProbeConfig::default();
    let address = ip("104.16.1.1");

    match next_tls_step(&config, None, address, "example.com", 443) {
        TlsStep::Attempt(TlsMode::Verified) => {}
        _ => panic!("the first handshake verifies"),
    }

    let failed = TlsDetection::failed(address, "example.com".to_string(), 443, "bad".to_string());
    match next_tls_step(&config, Some((TlsMode::Verified, failed)), address, "example.com", 443) {
        TlsStep::Attempt(TlsMode::Observation) => {}
        _ => panic!("a failed verification falls back"),
    }

    let mut strict = TlsProbeConfig::default();
    strict.observation_fallback = false;
    let failed = TlsDetection::failed(address, "example.com".to_string(), 443, "bad".to_string());
    match next_tls_step(&strict, Some((TlsMode::Verified, failed)), address, "example.com", 443) {
        TlsStep::Finish(d) => assert!(!d.handshake_succeeded),
        _ => panic!("without fallback the failure is final"),
    }
}

#[test]
fn certificate_summary() {
    let der = hex_bytes(CERT_DER_HEX);

    let info = parse_certificate(&der).unwrap();

    assert_eq!(info.sha256, "c7d531c3abaa19d2dd9230db26d4f72b77c423df745a033ffe5826855939fdd3");
    assert_eq!(info.subject, "CN=example.com");
    assert_eq!(info.dns_names, vec!["example.com".to_string(), "*.example.com".to_string()]);
    assert_eq!(info.ip_addresses, vec!["1.2.3.4".to_string()]);
    assert_eq!(info.serial, "01:02");

    assert!(parse_certificate(&[1, 2, 3]).is_none());
}

#[test]
fn target_lists() {
    let content = "# targets\n104.16.1.1 example.com\n\n1.1.1.1 example.org 80\r\n8.8.8.8 example.net 8443 HTTP\n";

    let targets = parse_target_list(content, "t.txt").unwrap();

    assert_eq!(targets.len(), 3);
    assert_eq!(targets[0].port, 443);
    assert_eq!(targets[0].scheme, HttpScheme::Https);
    assert_eq!(targets[1].port, 80);
    assert_eq!(targets[1].scheme, HttpScheme::Http);
    assert_eq!(targets[2].port, 8443);
    assert_eq!(targets[2].scheme, HttpScheme::Http);
    assert_eq!(targets[2].hostname, "example.net");
}

#[test]
fn target_list_errors() {
    assert_eq!(
        parse_target_list("104.16.1.1\n", "t.txt").unwrap_err(),
        "invalid target at t.txt:1; expected `IP HOST [PORT] [SCHEME]`"
    );
    assert_eq!(
        parse_target_list("\n104.16.1.1 example.com 0\n", "t.txt").unwrap_err(),
        "invalid port 0 at t.txt:2"
    );
    assert_eq!(
        parse_target_list("104.16.1.1 example.com 443 FTP\n", "t.txt").unwrap_err(),
        "invalid scheme `ftp` at t.txt:1; expected `http` or `https`"
    );
    assert_eq!(
        parse_target_list("104.16.1.1 example.com 70000\n", "t.txt").unwrap_err(),
        "invalid port `70000` at t.txt:1: number too large to fit in target type"
    );
}

#[test]
fn batch_input_limits() {
    assert_eq!(check_batch_input(0, 10, "t.txt"), Some("no valid targets found in t.txt".to_string()));
    assert_eq!(
        check_batch_input(11, 10, "t.txt"),
        Some("input contains 11 targets, exceeding --max-targets 10".to_string())
    );
    assert_eq!(check_batch_input(3, 10, "t.txt"), None);
}

#[test]
fn credentials() {
    let key = Some("secret".to_string());

    assert!(authorize(&None, &None, &None));
    assert!(authorize(&key, &Some("Bearer secret".to_string()), &None));
    assert!(authorize(&key, &None, &Some("secret".to_string())));
    assert!(!authorize(&key, &Some("Bearer wrong".to_string()), &None));
    assert!(!authorize(&key, &Some("secret".to_string()), &None));
    assert!(!authorize(&key, &None, &None));

    assert!(constant_time_eq(b"abc", b"abc"));
    assert!(!constant_time_eq(b"abc", b"abd"));
    assert!(!constant_time_eq(b"abc", b"ab"));
}

#[test]
fn request_ids() {
    assert!(usable_request_id("abc-123"));
    assert!(!usable_request_id(""));
    assert!(!usable_request_id(&"x".repeat(129)));
    assert!(usable_request_id(&"x".repeat(128)));
}

#[test]
fn server_configuration() {
    let config = ServerConfig::default();
    assert!(config.validate().is_ok());

    let mut open = ServerConfig::default();
    open.listen.ip = ip("0.0.0.0");
    assert_eq!(
        open.validate().unwrap_err(),
        "an API key is required when binding to a wildcard address"
    );
    open.api_key = Some("k".to_string());
    assert!(open.validate().is_ok());

    let mut zero = ServerConfig::default();
    zero.max_body_bytes = 0;
    assert_eq!(zero.validate().unwrap_err(), "max_body_bytes cannot be 0");
}

#[test]
fn metrics_exposition() {
    let mut metrics = ServerMetrics::default();
    metrics.on_request_start();
    metrics.on_request_start();
    metrics.on_request_end();
    metrics.on_request_failed();

    assert_eq!(metrics.requests_total, 2);
    assert_eq!(metrics.in_flight, 1);
    assert_eq!(metrics.requests_failed, 1);

    let text = metrics.render_prometheus();
    assert!(text.starts_with("# TYPE cfprobe_requests_total counter\ncfprobe_requests_total 2\n\n"));
    assert!(text.ends_with("cfprobe_requests_in_flight 1\n"));
}

#[test]
fn in_flight_gauge_wraps() {
    let mut metrics = ServerMetrics::default();
    metrics.on_request_end();
    assert_eq!(metrics.in_flight, u64::MAX);
    metrics.on_request_start();
    assert_eq!(metrics.in_flight, 0);
}

#[test]
fn error_answers() {
    let rejected = error_answer(
        ApiOperation::Probe,
        &CfProbeError::TargetRejected { reason: "private IP is not allowed: 10.0.0.1".to_string() },
    );
    assert_eq!(rejected.status, 403);
    assert_eq!(rejected.code, "target_rejected");
    assert_eq!(rejected.message, "private IP is not allowed: 10.0.0.1");

    let cancelled = error_answer(ApiOperation::Scan, &CfProbeError::Cancelled);
    assert_eq!(cancelled.status, 408);
    assert_eq!(cancelled.message, "scan was cancelled");

    let other = error_answer(ApiOperation::Probe, &CfProbeError::Io("disk".to_string()));
    assert_eq!(other.status, 500);
    assert_eq!(other.code, "probe_failed");
    assert_eq!(other.message, "I/O error: disk");
}

#[test]
fn refresh_falls_back_to_stale_copy() {
    let stale = CacheFile {
        schema_version: 2,
        fetched_at_unix_ms: 1_000,
        etag: Some("e1".to_string()),
        ipv4_cidrs: vec!["104.16.0.0/13".to_string()],
        ipv6_cidrs: Vec::new(),
    };

    let (copy, source) = settle_refresh(
        Some(stale.clone()),
        FetchOutcome::Failed(CfProbeError::Http("timeout".to_string())),
        5_000,
    )
    .unwrap();
    assert_eq!(source, cfprobe::CacheSource::StaleFallback);
    assert_eq!(copy.fetched_at_unix_ms, 1_000);

    let (renewed, source) = settle_refresh(
        Some(stale),
        FetchOutcome::Fetched(CloudflareFetchResult::NotModified),
        5_000,
    )
    .unwrap();
    assert_eq!(source, cfprobe::CacheSource::NotModified);
    assert_eq!(renewed.fetched_at_unix_ms, 5_000);
    assert_eq!(renewed.etag, Some("e1".to_string()));

    assert!(settle_refresh(None, FetchOutcome::Failed(CfProbeError::Cancelled), 5_000).is_err());

    let (fresh, source) = settle_refresh(
        None,
        FetchOutcome::Fetched(CloudflareFetchResult::Updated(CloudflareApiRanges {
            ipv4_cidrs: vec!["1.0.0.0/8".to_string()],
            ipv6_cidrs: Vec::new(),
            etag: None,
        })),
        7_000,
    )
    .unwrap();
    assert_eq!(source, cfprobe::CacheSource::Network);
    assert_eq!(fresh.fetched_at_unix_ms, 7_000);
    assert_eq!(fresh.schema_version, 2);
}

#[test]
fn resolver_health_accounting() {
    let mut health = ResolverHealth::default();

    assert!(!record_observation(&mut health, true, Duration::from_millis(30)));
    assert!(!record_observation(&mut health, true, Duration::from_millis(10)));
    assert_eq!(health.avg_duration(), Duration::from_millis(20));
    assert!(!record_observation(&mut health, false, Duration::ZERO));
    assert!(!record_observation(&mut health, false, Duration::ZERO));
    assert!(health.is_healthy());
    assert!(record_observation(&mut health, false, Duration::ZERO));
    assert!(!health.is_healthy());
    assert_eq!(ResolverHealth::default().avg_duration(), Duration::ZERO);
}

#[test]
fn dns_cache_defaults() {
    let config = DnsCacheConfig::default();

    assert_eq!(config.ttl, Duration::from_secs(300));
    assert_eq!(config.max_entries, 10_000);
    assert!(config.eviction_interval.is_none());
}

#[test]
fn unix_milliseconds() {
    assert_eq!(unix_millis(&Duration::from_micros(1_500_999)).unwrap(), 1_500);
    match unix_millis(&Duration::MAX) {
        Err(CfProbeError::InvalidResponse(message)) => assert_eq!(message, "timestamp overflow"),
        _ => panic!("an out-of-range time is refused"),
    }
}

#[test]
fn answer_table_with_explicit_clock() {

    let mut table: AnswerTable<u32> = AnswerTable::new(&Duration::from_nanos(100), 2);

    table.set("a", 1, 0);
    assert_eq!(table.get("a", 50), Some(&1));
    assert_eq!(table.get("a", 100), None);
    assert_eq!(table.get("b", 50), None);

    table.set("b", 2, 10);
    table.set("c", 3, 20);
    assert_eq!(table.len(), 2);
    assert_eq!(table.get("c", 20), None);

    table.set("a", 4, 30);
    assert_eq!(table.get("a", 40), Some(&1));

    table.set("c", 3, 150);
    assert_eq!(table.len(), 1);
    assert_eq!(table.get("c", 200), Some(&3));
    assert_eq!(table.get("b", 100), None);

    table.set("c", 5, 160);
    assert_eq!(table.len(), 1);
    assert_eq!(table.get("c", 200), Some(&5));

    table.evict_expired(1_000);
    assert_eq!(table.len(), 0);
}

#[test]
fn dns_cache_round_trip() {

    let mut cache = DnsCache::new(DnsCacheConfig::default());
    assert!(cache.is_empty());

    cache.set_ip("example.com.", vec![ip("104.16.1.1")]);
    cache.set_cname("www.example.com.", vec!["example.com.".to_string()]);
    cache.set_mx("example.com.", vec![(10, "mx.example.com.".to_string())]);

    assert_eq!(cache.get_ip("example.com."), Some(vec![ip("104.16.1.1")]));
    assert_eq!(cache.get_cname("www.example.com."), Some(vec!["example.com.".to_string()]));
    assert_eq!(cache.get_mx("example.com."), Some(vec![(10, "mx.example.com.".to_string())]));
    assert_eq!(cache.get_txt("example.com."), None);
    assert_eq!(cache.len(), 3);

    cache.clear();
    assert!(cache.is_empty());
    assert_eq!(cache.get_ip("example.com."), None);
}

#[test]
fn dns_cache_with_zero_ttl_keeps_nothing_usable() {

    let mut cache = DnsCache::with_ttl(Duration::ZERO);

    cache.set_ns("example.com.", vec!["ns1.example.com.".to_string()]);
    assert_eq!(cache.get_ns("example.com."), None);

    cache.evict_all_expired();
    assert!(cache.is_empty());
}

#[test]
fn dns_cache_refuses_new_answers_when_full() {

    let mut cache = DnsCache::new(DnsCacheConfig {
        ttl: Duration::from_secs(300),
        max_entries: 1,
        eviction_interval: None,
    });

    cache.set_ptr("1.1.1.1", vec!["one.one.one.one.".to_string()]);
    cache.set_ptr("8.8.8.8", vec!["dns.google.".to_string()]);

    assert_eq!(cache.get_ptr("1.1.1.1"), Some(vec!["one.one.one.one.".to_string()]));
    assert_eq!(cache.get_ptr("8.8.8.8"), None);
}

#[test]
fn confidence_formula_and_bands() {

    let rules = ConfidenceRuleSet::default();
    let none = Vec::new();

    assert_eq!(calculate_confidence(DetectionClassification::Cloudflare, 65, &none, &rules), 825);
    assert_eq!(calculate_confidence(DetectionClassification::Cloudflare, 100, &none, &rules), 990);
    assert_eq!(calculate_confidence(DetectionClassification::Cloudflare, -20, &none, &rules), 500);
    assert_eq!(calculate_confidence(DetectionClassification::NotCloudflare, -50, &none, &rules), 750);
    assert_eq!(calculate_confidence(DetectionClassification::Unknown, 40, &none, &rules), 0);

    let mut previous = 0;
    for score in -120..=120 {
        let c = calculate_confidence(DetectionClassification::Cloudflare, score, &none, &rules);
        assert!(c >= previous && c <= rules.max_confidence);
        previous = c;
    }

    let band = |c: u32| ConfidenceLevel::from_confidence(c, DetectionClassification::Cloudflare, &rules);
    assert_eq!(band(990), ConfidenceLevel::VeryHigh);
    assert_eq!(band(950), ConfidenceLevel::VeryHigh);
    assert_eq!(band(949), ConfidenceLevel::High);
    assert_eq!(band(850), ConfidenceLevel::High);
    assert_eq!(band(849), ConfidenceLevel::Medium);
    assert_eq!(band(700), ConfidenceLevel::Medium);
    assert_eq!(band(699), ConfidenceLevel::Low);
    assert_eq!(
        ConfidenceLevel::from_confidence(990, DetectionClassification::Unknown, &rules),
        ConfidenceLevel::Insufficient
    );
}

#[test]
fn batch_counts_add_up() {

    let item = |index: usize, status: BatchItemStatus| BatchItemResult {
        index,
        target: Target::https(ip("104.16.1.1"), "example.com"),
        status,
        result: None,
        error: Some("x".to_string()),
        elapsed: Duration::from_millis(1),
    };

    let result = build_batch_result(
        vec![
            item(0, BatchItemStatus::Failed),
            item(1, BatchItemStatus::TimedOut),
            item(2, BatchItemStatus::Failed),
            item(3, BatchItemStatus::Cancelled),
        ],
        Duration::from_secs(2),
    );

    assert_eq!(result.total, 4);
    assert_eq!(result.failed, 2);
    assert_eq!(result.timed_out, 1);
    assert_eq!(result.cancelled, 1);
    assert_eq!(result.completed, 0);
    assert_eq!(result.completed + result.failed + result.timed_out + result.cancelled, result.total);
    assert_eq!(result.cloudflare + result.not_cloudflare + result.unknown, 0);
}

#[test]
fn start_reservations_are_spaced() {
    let (first, next) = reserve_start(0, 1_000, 250);
    assert_eq!((first, next), (1_000, 1_250));

    let (second, next) = reserve_start(next, 1_100, 250);
    assert_eq!((second, next), (1_250, 1_500));

    let (third, _) = reserve_start(next, 9_000, 250);
    assert_eq!(third, 9_000);
}

fn raw(name: &str, value: &str) -> RawHeader {
    RawHeader { name: name.to_string(), value: Some(value.to_string()) }
}

#[test]
fn response_with_cloudflare_headers() {
    let plan = plan_http_request(ip("127.0.0.1"), "example.com", HttpScheme::Http, 8080).unwrap();
    assert_eq!(plan.url, "http://example.com:8080/");
    assert_eq!(plan.host_header, "example.com:8080");

    let headers = vec![
        raw("server", "cloudflare"),
        raw("cf-ray", "abc123-SJC"),
        raw("cf-cache-status", "HIT"),
        raw("cf-ipcountry", "US"),
        RawHeader { name: "x-binary".to_string(), value: None },
    ];
    let result = response_detection(
        plan,
        200,
        "HTTP/1.1".to_string(),
        "http://example.com:8080/".to_string(),
        &headers,
        Some(5),
        5,
        false,
        4096,
    );

    assert_eq!(result.status, HttpProbeStatus::ResponseReceived);
    assert_eq!(result.status_code, Some(200));
    assert_eq!(result.signals.cf_ray.as_deref(), Some("abc123-SJC"));
    assert_eq!(result.signals.cf_cache_status.as_deref(), Some("HIT"));
    assert!(result.signals.server_cloudflare);
    assert!(result.signals.score() > 0);
    assert_eq!(result.headers.len(), 4);
    assert_eq!(result.signals.score(), 90);
    assert!(result.signals.has_cloudflare_signal());
}

#[test]
fn redirect_location_is_reported() {
    let plan = plan_http_request(ip("127.0.0.1"), "Example.COM.", HttpScheme::Https, 443).unwrap();
    assert_eq!(plan.hostname, "example.com");

    let result = response_detection(
        plan,
        302,
        "HTTP/1.1".to_string(),
        "https://example.com/".to_string(),
        &vec![raw("location", "https://another.example/")],
        None,
        0,
        false,
        4096,
    );

    assert_eq!(result.status_code, Some(302));
    assert_eq!(result.redirect_location.as_deref(), Some("https://another.example/"));
    assert!(result.final_url.as_deref().unwrap().contains("example.com"));
}

#[test]
fn long_header_values_are_cut() {
    let plan = plan_http_request(ip("127.0.0.1"), "example.com", HttpScheme::Https, 443).unwrap();
    let result = response_detection(
        plan,
        200,
        "HTTP/2".to_string(),
        "https://example.com/".to_string(),
        &vec![raw("server", "cloudflare-nginx")],
        None,
        0,
        false,
        10,
    );

    assert_eq!(result.signals.server.as_deref(), Some("cloudflare...[truncated]"));
    assert!(result.signals.server_cloudflare);
}

#[test]
fn body_counting_stops_at_the_limit() {
    let (total, reached) = count_body_chunk(0, 5, 8);
    assert_eq!((total, reached), (5, false));
    let (total, reached) = count_body_chunk(total, 21, 8);
    assert_eq!((total, reached), (26, true));
    assert_eq!(body_outcome(total, reached, 8), (8, true));
    assert_eq!(body_outcome(5, false, 8), (5, false));
    assert_eq!(count_body_chunk(u64::MAX - 1, 10, 8), (u64::MAX, true));
}

#[test]
fn failed_request_is_reported() {
    let plan = plan_http_request(ip("127.0.0.1"), "example.com", HttpScheme::Https, 443).unwrap();
    let result = request_failed(plan, "connection refused");

    assert_eq!(result.status, HttpProbeStatus::RequestFailed);
    assert_eq!(result.error.as_deref(), Some("HTTP request failed: connection refused"));
    assert!(plan_http_request(ip("127.0.0.1"), "example.com", HttpScheme::Https, 0).is_err());
    assert!(plan_http_request(ip("127.0.0.1"), " . ", HttpScheme::Https, 443).is_err());
}

#[test]
fn ban_lasts_for_its_duration() {
    let mut bans = ResolverBans::new();
    bans.ban("google", 1_000, &Duration::from_nanos(500));
    assert!(bans.is_banned("google", 1_000));
    assert!(bans.is_banned("google", 1_499));
    assert!(!bans.is_banned("google", 1_500));
    assert!(!bans.is_banned("quad9", 1_000));
    assert_eq!(bans.banned_names(1_200), vec!["google".to_string()]);
    assert!(bans.banned_names(2_000).is_empty());
}

#[test]
fn a_new_ban_replaces_the_old_one() {
    let mut bans = ResolverBans::new();
    bans.ban("google", 0, &Duration::from_nanos(100));
    bans.ban("quad9", 0, &Duration::from_nanos(300));
    bans.ban("google", 200, &Duration::from_nanos(100));
    assert_eq!(bans.banned_names(250), vec!["google".to_string(), "quad9".to_string()]);
    bans.unban("google");
    assert!(!bans.is_banned("google", 250));
    assert_eq!(bans.banned_names(250), vec!["quad9".to_string()]);
    bans.unban("missing");
    assert_eq!(bans.banned_names(250), vec!["quad9".to_string()]);
}

#[test]
fn unhealthy_and_banned_resolvers_are_skipped() {
    let mut sick = ResolverHealth::default();
    sick.success_count = 1;
    sick.failure_count = 3;
    let mut well = ResolverHealth::default();
    well.success_count = 5;
    well.failure_count = 1;
    let health = vec![("a".to_string(), well), ("b".to_string(), sick)];
    let mut bans = ResolverBans::new();
    bans.ban("c", 0, &Duration::from_secs(30));
    bans.ban("d", 0, &Duration::from_nanos(10));
    let names = unhealthy_resolver_names(&health, &bans, 100);
    assert_eq!(names, vec!["b".to_string(), "c".to_string()]);
}

fn copy_fetched_at(ms: i64) -> CacheFile {
    CacheFile {
        schema_version: 2,
        fetched_at_unix_ms: ms,
        etag: Some("e1".to_string()),
        ipv4_cidrs: vec!["104.16.0.0/13".to_string()],
        ipv6_cidrs: Vec::new(),
    }
}

const DAY_NANOS: u128 = 86_400_000_000_000;

#[test]
fn fresh_memory_copy_is_served_at_once() {
    let config = cfprobe::CacheConfig::default();
    let (state, action) = refresh_start();
    assert!(matches!(action, RefreshAction::CheckMemory));
    let now = 10 * DAY_NANOS;
    let fetched_ms = ((now - DAY_NANOS / 2) / 1_000_000) as i64;
    let (state, action) =
        refresh_step(state, RefreshEvent::Memory { copy: Some(copy_fetched_at(fetched_ms)), now }, &config);
    assert!(matches!(state, RefreshState::Done));
    assert!(matches!(action, RefreshAction::ServeMemory));
}

#[test]
fn look_up_goes_through_locks_and_disk_before_fetching() {
    let config = cfprobe::CacheConfig::default();
    let now = 10 * DAY_NANOS;
    let old_ms = ((now - 2 * DAY_NANOS) / 1_000_000) as i64;
    let (state, _) = refresh_start();
    let (state, action) = refresh_step(state, RefreshEvent::Memory { copy: None, now }, &config);
    assert!(matches!(action, RefreshAction::TakeRefreshLock));
    let (state, action) = refresh_step(state, RefreshEvent::RefreshLocked, &config);
    assert!(matches!(action, RefreshAction::CheckMemory));
    let (state, action) = refresh_step(state, RefreshEvent::Memory { copy: None, now }, &config);
    assert!(matches!(action, RefreshAction::ReadDisk));
    let (state, action) =
        refresh_step(state, RefreshEvent::Disk { read: Ok(Some(copy_fetched_at(old_ms))), now }, &config);
    assert!(matches!(action, RefreshAction::TakeProcessLock));
    let (state, action) = refresh_step(state, RefreshEvent::ProcessLocked(Ok(())), &config);
    assert!(matches!(action, RefreshAction::ReadDisk));
    let (state, action) =
        refresh_step(state, RefreshEvent::Disk { read: Ok(Some(copy_fetched_at(old_ms))), now }, &config);
    match &action {
        RefreshAction::Fetch { etag } => assert_eq!(etag.as_deref(), Some("e1")),
        _ => panic!("expected a fetch"),
    }
    // The network fails: the two-day-old copy stands in and is not written back.
    let (state, action) = refresh_step(
        state,
        RefreshEvent::Fetched {
            outcome: FetchOutcome::Failed(CfProbeError::Http("down".to_string())),
            since_epoch: Duration::from_nanos(now as u64),
        },
        &config,
    );
    assert!(matches!(action, RefreshAction::Install { source: CacheSource::StaleFallback }));
    assert_eq!(state.pending().map(|f| f.fetched_at_unix_ms), Some(old_ms));
    let (state, action) = refresh_step(state, RefreshEvent::Installed(Ok(())), &config);
    assert!(matches!(state, RefreshState::Done));
    assert!(matches!(action, RefreshAction::Finish));
}

#[test]
fn not_modified_renews_writes_then_installs() {
    let config = cfprobe::CacheConfig::default();
    let now = 10 * DAY_NANOS;
    let old_ms = ((now - 2 * DAY_NANOS) / 1_000_000) as i64;
    let state = RefreshState::Fetching { stale: Some(copy_fetched_at(old_ms)) };
    let (state, action) = refresh_step(
        state,
        RefreshEvent::Fetched {
            outcome: FetchOutcome::Fetched(CloudflareFetchResult::NotModified),
            since_epoch: Duration::from_nanos(now as u64),
        },
        &config,
    );
    assert!(matches!(action, RefreshAction::WriteDisk));
    assert_eq!(state.pending().map(|f| f.fetched_at_unix_ms), Some((now / 1_000_000) as i64));
    let (state, action) = refresh_step(state, RefreshEvent::Written, &config);
    assert!(matches!(action, RefreshAction::Install { source: CacheSource::NotModified }));
    let (_, action) = refresh_step(state, RefreshEvent::Installed(Ok(())), &config);
    assert!(matches!(action, RefreshAction::Finish));
}

#[test]
fn updated_ranges_are_installed_before_they_are_written() {
    let config = cfprobe::CacheConfig::default();
    let state = RefreshState::Fetching { stale: None };
    let (state, action) = refresh_step(
        state,
        RefreshEvent::Fetched {
            outcome: FetchOutcome::Fetched(CloudflareFetchResult::Updated(CloudflareApiRanges {
                etag: Some("e2".to_string()),
                ipv4_cidrs: vec!["173.245.48.0/20".to_string()],
                ipv6_cidrs: Vec::new(),
            })),
            since_epoch: Duration::from_millis(5_000),
        },
        &config,
    );
    assert!(matches!(action, RefreshAction::Install { source: CacheSource::Network }));
    assert_eq!(state.pending().map(|f| f.fetched_at_unix_ms), Some(5_000));
    let (state, action) = refresh_step(state, RefreshEvent::Installed(Ok(())), &config);
    assert!(matches!(action, RefreshAction::WriteDisk));
    let (state, action) = refresh_step(state, RefreshEvent::Written, &config);
    assert!(matches!(state, RefreshState::Done));
    assert!(matches!(action, RefreshAction::Finish));
}

#[test]
fn refresh_errors_end_the_look_up() {
    let config = cfprobe::CacheConfig::default();
    let (state, action) = refresh_step(
        RefreshState::CheckingDisk,
        RefreshEvent::Disk { read: Err(CfProbeError::Io("denied".to_string())), now: 0 },
        &config,
    );
    assert!(matches!(state, RefreshState::Done));
    assert!(matches!(action, RefreshAction::Fail(CfProbeError::Io(_))));
    let (_, action) = refresh_step(
        RefreshState::Fetching { stale: None },
        RefreshEvent::Fetched {
            outcome: FetchOutcome::Fetched(CloudflareFetchResult::NotModified),
            since_epoch: Duration::from_millis(5_000),
        },
        &config,
    );
    match action {
        RefreshAction::Fail(error) => assert_eq!(
            error.to_string(),
            "Invalid response: Cloudflare returned 304 but local cache is unavailable"
        ),
        _ => panic!("expected a failure"),
    }
}

#[test]
fn dns_detection_reports_its_records() {
    let detection = aggregate(vec![answered("a", vec![ip("104.16.1.1")])]);
    assert!(!detection.has_mx());
    assert!(!detection.has_txt());
    assert!(!detection.has_ns());
    assert!(!detection.has_cname());
    assert!(detection.ips_match_targets(&[ip("104.16.1.1")]));
    assert!(!detection.ips_match_targets(&[ip("104.16.1.1"), ip("1.1.1.1")]));
    assert!(!detection.ips_match_targets(&[]));
}

#[test]
fn an_extra_http_port_can_be_allowed() {
    let policy = cfprobe::TargetPolicy::cloudflare_web_proxy_v1();
    assert!(policy.validate_port(HttpScheme::Http, 9000).is_err());
    let policy = policy.allow_http_port(9000);
    assert!(policy.validate_port(HttpScheme::Http, 9000).is_ok());
    assert!(policy.validate_port(HttpScheme::Https, 9000).is_err());
}

#[test]
fn batch_item_status_predicates() {
    let item = BatchItemResult {
        index: 0,
        target: Target::https(ip("104.16.1.1"), "example.com"),
        status: BatchItemStatus::TimedOut,
        result: None,
        error: None,
        elapsed: Duration::from_millis(1),
    };
    assert!(item.is_timed_out());
    assert!(!item.is_completed());
    assert!(!item.is_failed());
    let copy = item.target.duplicate();
    assert_eq!(copy.hostname, "example.com");
    assert_eq!(copy.port, 443);
}

#[test]
fn cname_walk_follows_the_chain_within_its_budget() {
    let mut walk = CnameWalk::start(vec!["www.example.com.cdn.cloudflare.net".to_string()], 3);
    assert_eq!(walk.next_lookup().as_deref(), Some("www.example.com.cdn.cloudflare.net."));
    walk.answer(Some(&vec!["edge.cloudflare.net.".to_string()]));
    assert_eq!(walk.next_lookup().as_deref(), Some("edge.cloudflare.net."));
    walk.answer(Some(&vec!["last.cloudflare.net".to_string(), "edge.cloudflare.net.".to_string()]));
    // The depth limit of three names is reached.
    assert_eq!(walk.next_lookup(), None);
    assert_eq!(
        walk.finish(),
        vec![
            "www.example.com.cdn.cloudflare.net".to_string(),
            "edge.cloudflare.net.".to_string(),
            "last.cloudflare.net".to_string(),
        ]
    );
}

#[test]
fn cname_walk_stops_without_progress() {
    let mut walk = CnameWalk::start(vec!["a.example.".to_string()], 5);
    walk.answer(Some(&vec!["a.example.".to_string()]));
    assert_eq!(walk.next_lookup(), None);
    let mut failed = CnameWalk::start(vec!["a.example.".to_string()], 5);
    failed.answer(None);
    assert_eq!(failed.next_lookup(), None);
    assert!(CnameWalk::start(Vec::new(), 5).next_lookup().is_none());
    assert!(CnameWalk::start(vec!["a.example.".to_string()], 0).next_lookup().is_none());
}

#[test]
fn batch_items_are_put_back_in_input_order() {
    let item = |index: usize| BatchItemResult {
        index,
        target: Target::https(ip("104.16.1.1"), "example.com"),
        status: BatchItemStatus::Failed,
        result: None,
        error: Some(format!("item {index}")),
        elapsed: Duration::from_millis(1),
    };
    let ordered = order_by_index(vec![item(2), item(0), item(3), item(1)]);
    let indexes: Vec<usize> = ordered.iter().map(|i| i.index).collect();
    assert_eq!(indexes, vec![0, 1, 2, 3]);
    assert_eq!(ordered[2].error.as_deref(), Some("item 2"));
    assert!(order_by_index(Vec::new()).is_empty());
}

#[test]
fn a_zero_divisor_gives_the_maximum_confidence() {
    let mut rules = ConfidenceRuleSet::default();
    rules.positive_divisor = 0;
    rules.negative_divisor = 0;
    let none = Vec::new();
    assert_eq!(calculate_confidence(DetectionClassification::Cloudflare, 0, &none, &rules), 990);
    assert_eq!(calculate_confidence(DetectionClassification::NotCloudflare, 0, &none, &rules), 990);
}

#[test]
fn client_pool_keeps_one_client_per_target() {
    let mut pool: ClientPool<u32> = ClientPool::new();
    let a = || HttpClientKey::new(ip("104.16.1.1"), "example.com", HttpScheme::Https, 443);
    let b = || HttpClientKey::new(ip("104.16.1.1"), "example.com", HttpScheme::Http, 80);
    pool.insert(a(), 1, 2);
    pool.insert(b(), 2, 2);
    assert_eq!(pool.get(&a()), Some(&1));
    assert_eq!(pool.get(&b()), Some(&2));
    assert_eq!(pool.len(), 2);
    assert!(a().same(&a()));
    assert!(!a().same(&b()));
}

#[test]
fn a_full_client_pool_is_emptied() {
    let mut pool: ClientPool<u32> = ClientPool::new();
    let key = |port: u16| HttpClientKey::new(ip("104.16.1.1"), "example.com", HttpScheme::Https, port);
    pool.insert(key(443), 1, 2);
    pool.insert(key(8443), 2, 2);
    pool.insert(key(2053), 3, 2);
    assert_eq!(pool.len(), 1);
    assert_eq!(pool.get(&key(443)), None);
    assert_eq!(pool.get(&key(2053)), Some(&3));
}

#[test]
fn resolvers_agree_on_equal_answer_sets() {
    let result = aggregate(vec![
        answered("resolver-a", vec![ip("8.8.8.8"), ip("8.8.4.4")]),
        answered("resolver-b", vec![ip("8.8.4.4"), ip("8.8.8.8")]),
        failed("resolver-c"),
    ]);
    assert!(result.all_resolvers_agree);
    assert_eq!(result.status, DnsDetectionStatus::NoCloudflareIp);
}

#[test]
fn observation_reports_a_cloudflare_address() {
    assert!(answered("a", vec![ip("8.8.8.8"), ip("104.16.1.1")]).has_cloudflare_ip(&ranges()));
    assert!(!answered("a", vec![ip("8.8.8.8")]).has_cloudflare_ip(&ranges()));
}

#[test]
fn probe_admission_checks_cancellation_around_the_target() {
    let policy = cfprobe::TargetPolicy::cloudflare_web_proxy_v1();
    let good = Target::https(ip("104.16.1.1"), "example.com");
    let bad = Target::https(ip("127.0.0.1"), "example.com");
    assert!(admit_probe(&policy, &good, false, false).is_ok());
    assert!(matches!(admit_probe(&policy, &good, true, false), Err(CfProbeError::Cancelled)));
    assert!(matches!(admit_probe(&policy, &good, false, true), Err(CfProbeError::Cancelled)));
    assert!(matches!(admit_probe(&policy, &bad, false, true), Err(CfProbeError::TargetRejected { .. })));
    assert!(matches!(admit_probe(&policy, &bad, true, false), Err(CfProbeError::Cancelled)));
}

#[test]
fn stages_must_answer_for_the_target() {
    let target = Target::https(ip("104.16.1.1"), "Example.COM");
    let dns: StageOutcome<Option<cfprobe::DnsDetection>> = StageOutcome::Done(Some(aggregate(Vec::new())));
    let other = Target::https(ip("104.16.1.2"), "example.com");
    let tls_failed: StageOutcome<TlsDetection> = StageOutcome::Cancelled;
    let http_ok = StageOutcome::Done(request_failed(
        plan_http_request(ip("104.16.1.1"), "example.com", HttpScheme::Https, 443).unwrap(),
        "boom",
    ));
    assert!(check_stages_match(&target, &dns, &tls_failed, &http_ok));
    let http_other = StageOutcome::Done(request_failed(
        plan_http_request(other.ip, "example.com", HttpScheme::Https, 443).unwrap(),
        "boom",
    ));
    assert!(!check_stages_match(&target, &dns, &tls_failed, &http_other));
}
