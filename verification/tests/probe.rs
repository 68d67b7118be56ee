use cfprobe::net::parse_ip;
use cfprobe::{HttpScheme, Target};

#[test]
fn https_target_uses_443() {
    let target = Target::https(parse_ip("104.16.1.1").unwrap(), "example.com");

    assert_eq!(target.port, 443);

    assert_eq!(target.scheme, HttpScheme::Https);

    assert!(target.validate().is_ok());
}

#[test]
fn http_target_uses_80() {
    let target = Target::http(parse_ip("104.16.1.1").unwrap(), "example.com");

    assert_eq!(target.port, 80);

    assert_eq!(target.scheme, HttpScheme::Http);
}

#[test]
fn target_can_override_port() {
    let target = Target::https(parse_ip("104.16.1.1").unwrap(), "example.com").with_port(8443);

    assert_eq!(target.port, 8443);
}

#[test]
fn invalid_target_is_rejected() {
    let target = Target::https(parse_ip("104.16.1.1").unwrap(), "");

    assert!(target.validate().is_err());
}
