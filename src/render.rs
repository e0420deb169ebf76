//! Writing a destination as text: `a.b.c.d:port`, `[h:h:h:h:h:h:h:h]:port`
//! (IPv6 groups in lower-case hex, uncompressed) or `host:port`.
use vstd::prelude::*;
use vstd::string::StringExecFns;
use crate::target::{Address, AddressModel, IpAddress};
use crate::text::push_char;

verus! {

/// The digit for `d`, below sixteen.
pub open spec fn digit_char(d: nat) -> char {
    if d == 0 { '0' } else if d == 1 { '1' } else if d == 2 { '2' } else if d == 3 { '3' }
    else if d == 4 { '4' } else if d == 5 { '5' } else if d == 6 { '6' } else if d == 7 { '7' }
    else if d == 8 { '8' } else if d == 9 { '9' } else if d == 10 { 'a' } else if d == 11 { 'b' }
    else if d == 12 { 'c' } else if d == 13 { 'd' } else if d == 14 { 'e' } else { 'f' }
}

/// `n` in decimal, without leading zeros.
pub open spec fn decimal(n: nat) -> Seq<char>
    decreases n,
{
    if n < 10 {
        seq![digit_char(n)]
    } else {
        decimal(n / 10).push(digit_char(n % 10))
    }
}

/// `n` in lower-case hex, without leading zeros.
pub open spec fn hex(n: nat) -> Seq<char>
    decreases n,
{
    if n < 16 {
        seq![digit_char(n)]
    } else {
        hex(n / 16).push(digit_char(n % 16))
    }
}

pub open spec fn numeral(n: nat, hexa: bool) -> Seq<char> {
    if hexa {
        hex(n)
    } else {
        decimal(n)
    }
}

/// The numbers written one after another, `sep` between two neighbours.
pub open spec fn joined(parts: Seq<nat>, sep: char, hexa: bool) -> Seq<char>
    decreases parts.len(),
{
    if parts.len() == 0 {
        Seq::empty()
    } else if parts.len() == 1 {
        numeral(parts[0], hexa)
    } else {
        joined(parts.drop_last(), sep, hexa).push(sep) + numeral(parts.last(), hexa)
    }
}

pub open spec fn v4_parts(o: [u8; 4]) -> Seq<nat> {
    o@.map_values(|b: u8| b as nat)
}

pub open spec fn v6_parts(g: [u16; 8]) -> Seq<nat> {
    g@.map_values(|w: u16| w as nat)
}

/// The text of a destination.
pub open spec fn address_text(a: AddressModel) -> Seq<char> {
    match a {
        AddressModel::Socket(IpAddress::V4(o), p) => joined(v4_parts(o), '.', false) + seq![':']
            + decimal(p as nat),
        AddressModel::Socket(IpAddress::V6(g), p) => seq!['['] + joined(v6_parts(g), ':', true)
            + seq![']', ':'] + decimal(p as nat),
        AddressModel::Domain(h, p) => h + seq![':'] + decimal(p as nat),
    }
}

fn digit(d: u32) -> (c: char)
    requires
        d < 16,
    ensures
        c == digit_char(d as nat),
{
    if d == 0 { '0' } else if d == 1 { '1' } else if d == 2 { '2' } else if d == 3 { '3' }
    else if d == 4 { '4' } else if d == 5 { '5' } else if d == 6 { '6' } else if d == 7 { '7' }
    else if d == 8 { '8' } else if d == 9 { '9' } else if d == 10 { 'a' } else if d == 11 { 'b' }
    else if d == 12 { 'c' } else if d == 13 { 'd' } else if d == 14 { 'e' } else { 'f' }
}

fn push_numeral(s: &mut String, n: u32, hexa: bool)
    ensures
        final(s)@ == old(s)@ + numeral(n as nat, hexa),
    decreases n,
{
    let base: u32 = if hexa { 16 } else { 10 };
    if n >= base {
        push_numeral(s, n / base, hexa);
    }
    let ghost mid = s@;
    push_char(s, digit(n % base));
    proof {
        if n >= base {
            assert(s@ =~= old(s)@ + numeral((n / base) as nat, hexa).push(digit_char((n % base) as nat)));
        } else {
            assert(s@ =~= old(s)@ + seq![digit_char(n as nat)]);
        }
    }
}

fn push_joined(s: &mut String, parts: &[u32], sep: char, hexa: bool)
    ensures
        final(s)@ == old(s)@ + joined(parts@.map_values(|x: u32| x as nat), sep, hexa),
{
    let ghost all = parts@.map_values(|x: u32| x as nat);
    let mut i: usize = 0;
    while i < parts.len()
        invariant
            i <= parts@.len(),
            all == parts@.map_values(|x: u32| x as nat),
            s@ == old(s)@ + joined(all.subrange(0, i as int), sep, hexa),
        decreases parts@.len() - i,
    {
        let ghost before = s@;
        if i > 0 {
            push_char(s, sep);
        }
        push_numeral(s, parts[i], hexa);
        proof {
            let pre = all.subrange(0, i as int);
            let nxt = all.subrange(0, i + 1);
            assert(nxt.drop_last() =~= pre);
            assert(nxt.last() == parts@[i as int] as nat);
            if i == 0 {
                assert(pre =~= Seq::<nat>::empty());
                assert(s@ =~= old(s)@ + joined(nxt, sep, hexa));
            } else {
                assert(s@ =~= old(s)@ + joined(nxt, sep, hexa));
            }
        }
        i = i + 1;
    }
    assert(all.subrange(0, parts@.len() as int) =~= all);
}

impl Address {
    /// The destination as text.
    pub fn to_text(&self) -> (r: String)
        ensures
            r@ == address_text(self@),
    {
        let mut s = String::new();
        match self {
            Address::SocketAddress(IpAddress::V4(o), p) => {
                let parts: [u32; 4] = [o[0] as u32, o[1] as u32, o[2] as u32, o[3] as u32];
                push_joined(&mut s, &parts, '.', false);
                assert(parts@.map_values(|x: u32| x as nat) =~= v4_parts(*o));
                push_char(&mut s, ':');
                push_numeral(&mut s, *p as u32, false);
            },
            Address::SocketAddress(IpAddress::V6(g), p) => {
                push_char(&mut s, '[');
                let parts: [u32; 8] = [
                    g[0] as u32, g[1] as u32, g[2] as u32, g[3] as u32,
                    g[4] as u32, g[5] as u32, g[6] as u32, g[7] as u32,
                ];
                push_joined(&mut s, &parts, ':', true);
                assert(parts@.map_values(|x: u32| x as nat) =~= v6_parts(*g));
                push_char(&mut s, ']');
                push_char(&mut s, ':');
                push_numeral(&mut s, *p as u32, false);
            },
            Address::DomainName(h, p) => {
                s.append(h.as_str());
                push_char(&mut s, ':');
                push_numeral(&mut s, *p as u32, false);
            },
        }
        assert(s@ =~= address_text(self@));
        s
    }
}

} // verus!
