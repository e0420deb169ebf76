use shadowsocks_http::target::{
    authority_host, authority_host_port, authority_port, interior_of, host_addr, literal_texts,
    request_target, scheme_default_port, Address, IpAddress, LiteralParses,
};

fn no_literals() -> LiteralParses {
    LiteralParses { socket: None, ip: None, bracketed: None }
}

const LOOPBACK_V6: [u16; 8] = [0, 0, 0, 0, 0, 0, 0, 1];

#[test]
fn domain_with_port() {
    let r = host_addr(None, Some("example.com:443"), &no_literals());
    assert_eq!(r, Some(Address::DomainName("example.com".to_string(), 443)));
}

#[test]
fn ipv4_with_http_scheme_and_no_port() {
    let lit = LiteralParses { socket: None, ip: Some(IpAddress::V4([127, 0, 0, 1])), bracketed: None };
    let r = host_addr(Some("http"), Some("127.0.0.1"), &lit);
    assert_eq!(r, Some(Address::SocketAddress(IpAddress::V4([127, 0, 0, 1]), 80)));
}

#[test]
fn bracketed_ipv6_with_port() {
    let lit = LiteralParses { socket: Some((IpAddress::V6(LOOPBACK_V6), 8080)), ip: None, bracketed: None };
    let r = host_addr(None, Some("[::1]:8080"), &lit);
    assert_eq!(r, Some(Address::SocketAddress(IpAddress::V6(LOOPBACK_V6), 8080)));
}

#[test]
fn ipv4_with_port() {
    let lit = LiteralParses { socket: Some((IpAddress::V4([10, 0, 0, 2]), 1234)), ip: None, bracketed: None };
    let r = host_addr(None, Some("10.0.0.2:1234"), &lit);
    assert_eq!(r, Some(Address::SocketAddress(IpAddress::V4([10, 0, 0, 2]), 1234)));
}

#[test]
fn unsupported_scheme_without_port_fails() {
    assert_eq!(host_addr(Some("ftp"), Some("host"), &no_literals()), None);
}

#[test]
fn https_without_port_is_not_defaulted() {
    assert_eq!(host_addr(Some("https"), Some("example.com"), &no_literals()), None);
}

#[test]
fn unsupported_scheme_with_port_resolves() {
    let r = host_addr(Some("ftp"), Some("host:21"), &no_literals());
    assert_eq!(r, Some(Address::DomainName("host".to_string(), 21)));
}

#[test]
fn no_scheme_and_no_port_assumes_http() {
    let r = host_addr(None, Some("example.com"), &no_literals());
    assert_eq!(r, Some(Address::DomainName("example.com".to_string(), 80)));
}

#[test]
fn relative_target_fails() {
    assert_eq!(host_addr(None, None, &no_literals()), None);
    assert_eq!(host_addr(Some("http"), None, &no_literals()), None);
}

#[test]
fn userinfo_is_dropped() {
    let r = host_addr(Some("http"), Some("user:pass@example.com:8080"), &no_literals());
    assert_eq!(r, Some(Address::DomainName("example.com".to_string(), 8080)));
}

#[test]
fn bracketed_ipv6_without_port() {
    let lit = LiteralParses { socket: None, ip: None, bracketed: Some(IpAddress::V6(LOOPBACK_V6)) };
    let r = host_addr(Some("http"), Some("[::1]"), &lit);
    assert_eq!(r, Some(Address::SocketAddress(IpAddress::V6(LOOPBACK_V6), 80)));
}

#[test]
fn invalid_bracketed_literal_fails() {
    assert_eq!(host_addr(Some("http"), Some("[zz]"), &no_literals()), None);
}

#[test]
fn numeric_looking_domain_falls_through() {
    let r = host_addr(None, Some("999.1.1.1"), &no_literals());
    assert_eq!(r, Some(Address::DomainName("999.1.1.1".to_string(), 80)));
}

#[test]
fn bracketed_host_with_port_but_no_literal_keeps_brackets() {
    let r = host_addr(None, Some("[fe80::zz]:443"), &no_literals());
    assert_eq!(r, Some(Address::DomainName("[fe80::zz]".to_string(), 443)));
}

#[test]
fn port_out_of_range_is_no_port() {
    assert_eq!(authority_port("example.com:70000"), None);
    let r = host_addr(None, Some("example.com:70000"), &no_literals());
    assert_eq!(r, Some(Address::DomainName("example.com:70000".to_string(), 80)));
}

#[test]
fn ports() {
    assert_eq!(authority_port("example.com:443"), Some(443));
    assert_eq!(authority_port("example.com:65535"), Some(65535));
    assert_eq!(authority_port("example.com:65536"), None);
    assert_eq!(authority_port("example.com:0"), Some(0));
    assert_eq!(authority_port("example.com:"), None);
    assert_eq!(authority_port("example.com"), None);
    assert_eq!(authority_port("[::1]"), None);
    assert_eq!(authority_port("[::1]:8080"), Some(8080));
    assert_eq!(authority_port("h:8a"), None);
}

#[test]
fn hosts() {
    assert_eq!(authority_host("example.com:443"), "example.com");
    assert_eq!(authority_host("a:b@example.com:443"), "example.com");
    assert_eq!(authority_host("[::1]:8080"), "[::1]");
    assert_eq!(authority_host("plain"), "plain");
}

#[test]
fn interiors_and_literal_texts() {
    assert_eq!(interior_of("[::1]"), "::1");
    assert_eq!(interior_of("[[::1]]"), "[::1]");
    assert_eq!(interior_of("[]"), "");
    assert_eq!(interior_of("example.com"), "example.com");
    let (whole, inner) = literal_texts("[::1]");
    assert_eq!(whole, "[::1]");
    assert_eq!(inner, "::1");
    let (whole, inner) = literal_texts("user:pw@[::1]:8080");
    assert_eq!(whole, "[::1]:8080");
    assert_eq!(inner, "[::1]:8080");
    assert_eq!(authority_host_port("a@b@host:1"), "host:1");
    assert_eq!(authority_host_port("host"), "host");
}

#[test]
fn scheme_ports() {
    assert_eq!(scheme_default_port(None), Some(80));
    assert_eq!(scheme_default_port(Some("http")), Some(80));
    assert_eq!(scheme_default_port(Some("https")), None);
    assert_eq!(scheme_default_port(Some("ftp")), None);
}

#[test]
fn address_port() {
    assert_eq!(Address::DomainName("x".to_string(), 7).port(), 7);
    assert_eq!(Address::SocketAddress(IpAddress::V4([1, 2, 3, 4]), 9).port(), 9);
}

#[test]
fn port_with_plus_sign() {
    assert_eq!(authority_port("example.com:+80"), Some(80));
    assert_eq!(authority_port("example.com:+"), None);
    assert_eq!(authority_port("example.com:-80"), None);
}

#[test]
fn connect_target_needs_a_port() {
    assert_eq!(request_target(true, None, Some("nohost"), &no_literals()), None);
    assert_eq!(request_target(true, None, None, &no_literals()), None);
    assert_eq!(
        request_target(true, None, Some("example.com:443"), &no_literals()),
        Some(Address::DomainName("example.com".to_string(), 443))
    );
    assert_eq!(
        request_target(false, None, Some("nohost"), &no_literals()),
        Some(Address::DomainName("nohost".to_string(), 80))
    );
    assert_eq!(request_target(false, None, None, &no_literals()), None);
}

#[test]
fn userinfo_is_dropped_without_port() {
    let r = host_addr(Some("http"), Some("user@example.com"), &no_literals());
    assert_eq!(r, Some(Address::DomainName("example.com".to_string(), 80)));
    let r = host_addr(None, Some("user:pass@example.com"), &no_literals());
    assert_eq!(r, Some(Address::DomainName("example.com".to_string(), 80)));
}

#[test]
fn userinfo_before_bracketed_ipv6() {
    let lit = LiteralParses { socket: None, ip: None, bracketed: Some(IpAddress::V6(LOOPBACK_V6)) };
    let r = host_addr(Some("http"), Some("user@[::1]"), &lit);
    assert_eq!(r, Some(Address::SocketAddress(IpAddress::V6(LOOPBACK_V6), 80)));
    let lit = LiteralParses { socket: Some((IpAddress::V6(LOOPBACK_V6), 8080)), ip: None, bracketed: None };
    let r = host_addr(None, Some("user@[::1]:8080"), &lit);
    assert_eq!(r, Some(Address::SocketAddress(IpAddress::V6(LOOPBACK_V6), 8080)));
}

#[test]
fn bracketed_ipv4_is_refused() {
    let lit = LiteralParses { socket: None, ip: None, bracketed: Some(IpAddress::V4([127, 0, 0, 1])) };
    assert_eq!(host_addr(Some("http"), Some("[127.0.0.1]"), &lit), None);
}
