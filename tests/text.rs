use shadowsocks_http::text::{find_char, parse_port, rfind_char, string_of};

fn chars(s: &str) -> Vec<char> {
    s.chars().collect()
}

#[test]
fn finds_first_and_last() {
    let c = chars("a:b:c");
    assert_eq!(find_char(&c, ':'), Some(1));
    assert_eq!(rfind_char(&c, ':'), Some(3));
    assert_eq!(find_char(&c, '@'), None);
    assert_eq!(rfind_char(&c, '@'), None);
    assert_eq!(find_char(&[], 'x'), None);
}

#[test]
fn slices_into_strings() {
    let c = chars("héllo wörld");
    assert_eq!(string_of(&c, 0, 5), "héllo");
    assert_eq!(string_of(&c, 6, 11), "wörld");
    assert_eq!(string_of(&c, 3, 3), "");
}

#[test]
fn decimal_ports() {
    let c = chars("x8080y65535z65536w0070");
    assert_eq!(parse_port(&c, 1, 5), Some(8080));
    assert_eq!(parse_port(&c, 6, 11), Some(65535));
    assert_eq!(parse_port(&c, 12, 17), None);
    assert_eq!(parse_port(&c, 18, 22), Some(70));
    assert_eq!(parse_port(&c, 0, 5), None);
    assert_eq!(parse_port(&c, 2, 2), None);
    let long = chars("99999999999999999999");
    assert_eq!(parse_port(&long, 0, long.len()), None);
}
