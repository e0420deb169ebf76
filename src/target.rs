//! Resolving an HTTP proxy request target into a destination address.
//!
//! The target arrives as its scheme and authority texts. Reading an IP
//! literal is the platform's own address grammar: the caller parses the texts
//! that `literal_texts` names and hands the outcomes in as `LiteralParses`;
//! everything else about the target is decided here.
use vstd::prelude::*;
use crate::text::{
    chars_of, find_char, first_from, last_before, parse_port, port_value, rfind_char, string_of,
};

verus! {

/// An IP address as its numeric parts.
#[derive(Clone, Copy, Debug, PartialEq, Eq)]
pub enum IpAddress {
    V4([u8; 4]),
    V6([u16; 8]),
}

/// A resolved destination.
#[derive(Clone, Debug, PartialEq, Eq)]
pub enum Address {
    SocketAddress(IpAddress, u16),
    DomainName(String, u16),
}

/// What an `Address` denotes.
pub enum AddressModel {
    Socket(IpAddress, u16),
    Domain(Seq<char>, u16),
}

impl View for Address {
    type V = AddressModel;

    open spec fn view(&self) -> AddressModel {
        match self {
            Address::SocketAddress(ip, port) => AddressModel::Socket(*ip, *port),
            Address::DomainName(host, port) => AddressModel::Domain(host@, *port),
        }
    }
}

impl Address {
    pub open spec fn port_spec(&self) -> u16 {
        match self {
            Address::SocketAddress(_, p) => *p,
            Address::DomainName(_, p) => *p,
        }
    }

    /// The destination port.
    pub fn port(&self) -> (r: u16)
        ensures
            r == self.port_spec(),
    {
        match self {
            Address::SocketAddress(_, p) => *p,
            Address::DomainName(_, p) => *p,
        }
    }
}

/// Outcomes of reading IP literals out of an authority, by the platform's
/// address grammar, once any userinfo is dropped: `socket` is the host and
/// port read as `ip:port` (IPv6 in brackets), `ip` the same text read as a
/// bare address, and `bracketed` the text inside its brackets read as a bare
/// address. `literal_texts` gives the two texts.
#[derive(Clone, Copy, Debug, PartialEq, Eq)]
pub struct LiteralParses {
    pub socket: Option<(IpAddress, u16)>,
    pub ip: Option<IpAddress>,
    pub bracketed: Option<IpAddress>,
}

/// The authority with any `userinfo@` dropped.
pub open spec fn host_port_part(a: Seq<char>) -> Seq<char> {
    match last_before(a, '@', a.len() as int) {
        Some(i) => a.subrange(i + 1, a.len() as int),
        None => a,
    }
}

/// The host of an authority: a bracketed IPv6 literal through its `]`, or
/// the text before the first `:`.
pub open spec fn host_of(a: Seq<char>) -> Seq<char> {
    let hp = host_port_part(a);
    if hp.len() > 0 && hp[0] == '[' {
        match first_from(hp, ']', 0) {
            Some(i) => hp.subrange(0, i + 1),
            None => hp,
        }
    } else {
        match first_from(hp, ':', 0) {
            Some(i) => hp.subrange(0, i),
            None => hp,
        }
    }
}

/// A port as written after the colon: a decimal number, optionally signed `+`.
pub open spec fn port_text_value(d: Seq<char>) -> Option<u16> {
    if d.len() > 0 && d[0] == '+' {
        port_value(d.drop_first())
    } else {
        port_value(d)
    }
}

/// The explicit port of an authority: the number after its last `:`.
pub open spec fn port_of(a: Seq<char>) -> Option<u16> {
    match last_before(a, ':', a.len() as int) {
        Some(i) => port_text_value(a.subrange(i + 1, a.len() as int)),
        None => None,
    }
}

pub open spec fn is_bracketed(a: Seq<char>) -> bool {
    a.len() > 0 && a[0] == '[' && a.last() == ']'
}

/// The text between the brackets of `[...]`; other text as it stands.
pub open spec fn bracket_interior(h: Seq<char>) -> Seq<char> {
    if is_bracketed(h) {
        h.subrange(1, h.len() - 1)
    } else {
        h
    }
}

/// The port assumed when the authority names none: 80 for `http` or no
/// scheme, and none for any other scheme.
pub open spec fn default_port(scheme: Option<Seq<char>>) -> Option<u16> {
    match scheme {
        None => Some(80u16),
        Some(s) => if s == seq!['h', 't', 't', 'p'] {
            Some(80u16)
        } else {
            None
        },
    }
}

/// The destination that a request target denotes, if any.
pub open spec fn resolve(
    scheme: Option<Seq<char>>,
    authority: Option<Seq<char>>,
    lit: LiteralParses,
) -> Option<AddressModel> {
    match authority {
        None => None,
        Some(a) => match port_of(a) {
            Some(p) => match lit.socket {
                Some((ip, sp)) => Some(AddressModel::Socket(ip, sp)),
                None => Some(AddressModel::Domain(host_of(a), p)),
            },
            None => match default_port(scheme) {
                None => None,
                Some(p) => if is_bracketed(host_port_part(a)) {
                    match lit.bracketed {
                        Some(IpAddress::V6(s)) => Some(AddressModel::Socket(IpAddress::V6(s), p)),
                        _ => None,
                    }
                } else {
                    match lit.ip {
                        Some(ip) => Some(AddressModel::Socket(ip, p)),
                        None => Some(AddressModel::Domain(host_port_part(a), p)),
                    }
                },
            },
        },
    }
}

/// Resolution fails closed, and only in three cases: the target has no
/// authority; it names no port and its scheme has no default port; or it
/// names no port and brackets something that is no IPv6 literal. Userinfo
/// never reaches a resolved host. A target
/// with an explicit port always resolves, to that port unless the whole
/// authority reads as a socket address. A `CONNECT` target without an
/// explicit port never resolves.
pub proof fn resolution_fails_closed(
    scheme: Option<Seq<char>>,
    authority: Option<Seq<char>>,
    lit: LiteralParses,
)
    ensures
        resolve(scheme, authority, lit) is None <==> match authority {
            None => true,
            Some(a) => port_of(a) is None && (default_port(scheme) is None || (is_bracketed(
                host_port_part(a),
            ) && !(lit.bracketed matches Some(IpAddress::V6(_))))),
        },
        authority is Some && port_of(authority->0) is Some && lit.socket is None ==> resolve(
            scheme,
            authority,
            lit,
        ) == Some(AddressModel::Domain(host_of(authority->0), port_of(authority->0)->0)),
        authority is None || port_of(authority->0) is None ==> resolve_request(
            true,
            scheme,
            authority,
            lit,
        ) is None,
{
}

/// The destination of a proxy request. A `CONNECT` target is an authority
/// with an explicit port; without one it names no destination.
pub open spec fn resolve_request(
    is_connect: bool,
    scheme: Option<Seq<char>>,
    authority: Option<Seq<char>>,
    lit: LiteralParses,
) -> Option<AddressModel> {
    if is_connect && !(authority is Some && port_of(authority->0) is Some) {
        None
    } else {
        resolve(scheme, authority, lit)
    }
}

pub open spec fn view_opt(r: Option<Address>) -> Option<AddressModel> {
    match r {
        Some(a) => Some(a@),
        None => None,
    }
}

pub open spec fn opt_view(s: Option<&str>) -> Option<Seq<char>> {
    match s {
        Some(t) => Some(t@),
        None => None,
    }
}

/// The explicit port of an authority, if it has one.
pub fn authority_port(authority: &str) -> (r: Option<u16>)
    ensures
        r == port_of(authority@),
{
    let a = chars_of(authority);
    match rfind_char(a.as_slice(), ':') {
        Some(i) => {
            let ghost d = a@.subrange(i + 1, a@.len() as int);
            if i + 1 < a.len() && a[i + 1] == '+' {
                assert(d.drop_first() =~= a@.subrange(i + 2, a@.len() as int));
                parse_port(a.as_slice(), i + 2, a.len())
            } else {
                parse_port(a.as_slice(), i + 1, a.len())
            }
        },
        None => None,
    }
}

/// The authority with any userinfo dropped.
pub fn authority_host_port(authority: &str) -> (r: String)
    ensures
        r@ == host_port_part(authority@),
{
    let a = chars_of(authority);
    let lo = match rfind_char(a.as_slice(), '@') {
        Some(i) => i + 1,
        None => 0,
    };
    string_of(a.as_slice(), lo, a.len())
}

/// The host of an authority, userinfo dropped.
pub fn authority_host(authority: &str) -> (r: String)
    ensures
        r@ == host_of(authority@),
{
    let hp = authority_host_port(authority);
    let h = chars_of(hp.as_str());
    if h.len() > 0 && h[0] == '[' {
        match find_char(h.as_slice(), ']') {
            Some(i) => string_of(h.as_slice(), 0, i + 1),
            None => hp,
        }
    } else {
        match find_char(h.as_slice(), ':') {
            Some(i) => string_of(h.as_slice(), 0, i),
            None => hp,
        }
    }
}

fn is_http(s: &str) -> (r: bool)
    ensures
        r == (s@ == seq!['h', 't', 't', 'p']),
{
    let c = chars_of(s);
    let r = c.len() == 4 && c[0] == 'h' && c[1] == 't' && c[2] == 't' && c[3] == 'p';
    assert(r ==> c@ =~= seq!['h', 't', 't', 'p']);
    r
}

/// The port assumed for a scheme when the authority names none.
pub fn scheme_default_port(scheme: Option<&str>) -> (r: Option<u16>)
    ensures
        r == default_port(opt_view(scheme)),
{
    match scheme {
        None => Some(80),
        Some(s) => if is_http(s) {
            Some(80)
        } else {
            None
        },
    }
}

/// The text inside the brackets of `[...]`, such as `::1` for `[::1]`;
/// other text as it stands.
pub fn interior_of(h: &str) -> (r: String)
    ensures
        r@ == bracket_interior(h@),
{
    let c = chars_of(h);
    if c.len() > 0 && c[0] == '[' && c[c.len() - 1] == ']' {
        string_of(c.as_slice(), 1, c.len() - 1)
    } else {
        string_of(c.as_slice(), 0, c.len())
    }
}

/// The texts whose IP-literal readings `host_addr` consults: the authority
/// with any userinfo dropped, and the part inside its brackets.
pub fn literal_texts(authority: &str) -> (r: (String, String))
    ensures
        r.0@ == host_port_part(authority@),
        r.1@ == bracket_interior(host_port_part(authority@)),
{
    let hp = authority_host_port(authority);
    let inner = interior_of(hp.as_str());
    (hp, inner)
}

/// Resolves a proxy request target, given its scheme, its authority (absent
/// for an origin-form target such as `/path`) and the IP-literal readings of
/// the authority. Any userinfo in the authority is ignored.
pub fn host_addr(scheme: Option<&str>, authority: Option<&str>, lit: &LiteralParses) -> (r:
    Option<Address>)
    ensures
        view_opt(r) == resolve(opt_view(scheme), opt_view(authority), *lit),
{
    match authority {
        None => None,
        Some(a) => match authority_port(a) {
            Some(port) => match lit.socket {
                Some((ip, sp)) => Some(Address::SocketAddress(ip, sp)),
                None => Some(Address::DomainName(authority_host(a), port)),
            },
            None => {
                let port = match scheme_default_port(scheme) {
                    Some(p) => p,
                    None => return None,
                };
                let hp = authority_host_port(a);
                let c = chars_of(hp.as_str());
                if c.len() > 0 && c[0] == '[' && c[c.len() - 1] == ']' {
                    match lit.bracketed {
                        Some(IpAddress::V6(s)) => Some(Address::SocketAddress(IpAddress::V6(s), port)),
                        _ => None,
                    }
                } else {
                    match lit.ip {
                        Some(ip) => Some(Address::SocketAddress(ip, port)),
                        None => Some(Address::DomainName(hp, port)),
                    }
                }
            },
        },
    }
}

/// Resolves the target of a proxy request: as `host_addr` does, except
/// that a `CONNECT` target must name its port.
pub fn request_target(
    is_connect: bool,
    scheme: Option<&str>,
    authority: Option<&str>,
    lit: &LiteralParses,
) -> (r: Option<Address>)
    ensures
        view_opt(r) == resolve_request(is_connect, opt_view(scheme), opt_view(authority), *lit),
{
    if is_connect {
        match authority {
            None => return None,
            Some(a) => if authority_port(a).is_none() {
                return None;
            },
        }
    }
    host_addr(scheme, authority, lit)
}

} // verus!
