use shadowsocks_http::connector::{ClientTable, ConnectError, ShadowSocksConnector};
use shadowsocks_http::target::{Address, IpAddress, LiteralParses};

fn no_literals() -> LiteralParses {
    LiteralParses { socket: None, ip: None, bracketed: None }
}

#[test]
fn connector_holds_its_server_and_is_ready() {
    let c = ShadowSocksConnector::new("1.2.3.4:8388".to_string());
    assert_eq!(c.server, "1.2.3.4:8388");
    assert!(c.poll_ready());
}

#[test]
fn connector_uri_destination() {
    let c = ShadowSocksConnector::new(0u8);
    assert_eq!(
        c.uri_destination(Some("http"), Some("example.com"), &no_literals()),
        Ok(Address::DomainName("example.com".to_string(), 80))
    );
    let lit = LiteralParses { socket: Some((IpAddress::V4([127, 0, 0, 1]), 81)), ip: None, bracketed: None };
    assert_eq!(
        c.uri_destination(None, Some("127.0.0.1:81"), &lit),
        Ok(Address::SocketAddress(IpAddress::V4([127, 0, 0, 1]), 81))
    );
    assert_eq!(c.uri_destination(None, None, &no_literals()), Err(ConnectError::InvalidUri));
    assert_eq!(c.uri_destination(Some("ftp"), Some("x"), &no_literals()), Err(ConnectError::InvalidUri));
}

#[test]
fn client_table_lookup_and_replace() {
    let mut t: ClientTable<u32> = ClientTable::new();
    assert_eq!(t.get(&"a:1".to_string()), None);
    t.insert("a:1".to_string(), 10);
    t.insert("b:2".to_string(), 20);
    assert_eq!(t.get(&"a:1".to_string()), Some(&10));
    assert_eq!(t.get(&"b:2".to_string()), Some(&20));
    t.insert("a:1".to_string(), 11);
    assert_eq!(t.get(&"a:1".to_string()), Some(&11));
    assert_eq!(t.get(&"b:2".to_string()), Some(&20));
    assert_eq!(t.get(&"c:3".to_string()), None);
}
