//! IPv4 and IPv6 addresses as plain numbers.

use vstd::prelude::*;
use crate::utils::text::{chars_of, decimal, decimal_string, string_of_chars};

verus! {

/// An IPv4 address, held as its 32-bit number (first octet most significant).
#[derive(Debug, Clone, Copy, PartialEq, Eq, Hash, Structural)]
pub struct Ipv4Address {
    pub bits: u32,
}

/// An IPv6 address, held as its 128-bit number (first segment most
/// significant).
#[derive(Debug, Clone, Copy, PartialEq, Eq, Hash, Structural)]
pub struct Ipv6Address {
    pub bits: u128,
}

/// An address of either family.
#[derive(Debug, Clone, Copy, PartialEq, Eq, Hash, Structural)]
pub enum IpAddress {
    V4(Ipv4Address),
    V6(Ipv6Address),
}

/// The 32-bit number of the dotted quad `a.b.c.d`.
pub open spec fn quad_bits(a: u8, b: u8, c: u8, d: u8) -> int {
    a * 0x100_0000 + b * 0x1_0000 + c * 0x100 + d
}

/// Octet `i` (0 is the first) of the 32-bit number `bits`.
pub open spec fn octet_of(bits: u32, i: int) -> int {
    if i == 0 {
        bits as int / 0x100_0000
    } else if i == 1 {
        (bits as int / 0x1_0000) % 0x100
    } else if i == 2 {
        (bits as int / 0x100) % 0x100
    } else {
        bits as int % 0x100
    }
}

/// The 128-bit number of eight 16-bit segments, first segment first.
pub open spec fn segments_bits(s: Seq<u16>) -> int
    recommends
        s.len() == 8,
{
    s[0] * 0x1_0000_0000_0000_0000_0000_0000_0000 + s[1] * 0x1_0000_0000_0000_0000_0000_0000
        + s[2] * 0x1_0000_0000_0000_0000_0000 + s[3] * 0x1_0000_0000_0000_0000 + s[4]
        * 0x1_0000_0000_0000 + s[5] * 0x1_0000_0000 + s[6] * 0x1_0000 + s[7]
}

/// Segment `i` (0 is the first) of the 128-bit number `bits`.
pub open spec fn segment_of(bits: u128, i: int) -> int {
    if i == 0 {
        bits as int / 0x1_0000_0000_0000_0000_0000_0000_0000
    } else if i == 1 {
        (bits as int / 0x1_0000_0000_0000_0000_0000_0000) % 0x1_0000
    } else if i == 2 {
        (bits as int / 0x1_0000_0000_0000_0000_0000) % 0x1_0000
    } else if i == 3 {
        (bits as int / 0x1_0000_0000_0000_0000) % 0x1_0000
    } else if i == 4 {
        (bits as int / 0x1_0000_0000_0000) % 0x1_0000
    } else if i == 5 {
        (bits as int / 0x1_0000_0000) % 0x1_0000
    } else if i == 6 {
        (bits as int / 0x1_0000) % 0x1_0000
    } else {
        bits as int % 0x1_0000
    }
}

/// The text that the resolver library prints for the IPv6 address whose
/// 128-bit number is `bits`.
pub uninterp spec fn ipv6_text(bits: u128) -> Seq<char>;

/// Renders an IPv6 address as `trust_dns_client::rr::rdata::AAAA` displays it,
/// which is the standard library's text form of the address.
#[verifier::external_body]
fn ipv6_to_text(bits: u128) -> (r: String)
    ensures
        r@ == ipv6_text(bits),
{
    trust_dns_client::rr::rdata::AAAA(bits.into()).to_string()
}

/// The IPv4 address that the text `s` denotes; `None` where it denotes none.
pub uninterp spec fn ipv4_of(s: Seq<char>) -> Option<Ipv4Address>;

/// The IPv6 address that the text `s` denotes; `None` where it denotes none.
pub uninterp spec fn ipv6_of(s: Seq<char>) -> Option<Ipv6Address>;

/// Parses an IPv4 address through `trust_dns_client::rr::rdata::A::from_str`,
/// which is the standard library's parser for IPv4 addresses.
#[verifier::external_body]
pub(crate) fn parse_v4(s: &str) -> (r: Option<Ipv4Address>)
    ensures
        r == ipv4_of(s@),
{
    match s.parse::<trust_dns_client::rr::rdata::A>() {
        Ok(a) => Some(Ipv4Address { bits: u32::from(a.0) }),
        Err(_) => None,
    }
}

/// Parses an IPv6 address through
/// `trust_dns_client::rr::rdata::AAAA::from_str`, which is the standard
/// library's parser for IPv6 addresses.
#[verifier::external_body]
pub(crate) fn parse_v6(s: &str) -> (r: Option<Ipv6Address>)
    ensures
        r == ipv6_of(s@),
{
    match s.parse::<trust_dns_client::rr::rdata::AAAA>() {
        Ok(a) => Some(Ipv6Address { bits: u128::from(a.0) }),
        Err(_) => None,
    }
}

/// The address that the text `s` denotes: an IPv4 address where it is one,
/// else an IPv6 address where it is one.
pub open spec fn address_of(s: Seq<char>) -> Option<IpAddress> {
    match ipv4_of(s) {
        Some(a) => Some(IpAddress::V4(a)),
        None => match ipv6_of(s) {
            Some(a) => Some(IpAddress::V6(a)),
            None => None,
        },
    }
}

/// Parses an address of either family.
pub fn parse_address(s: &str) -> (r: Option<IpAddress>)
    ensures
        r == address_of(s@),
{
    match parse_v4(s) {
        Some(a) => Some(IpAddress::V4(a)),
        None => match parse_v6(s) {
            Some(a) => Some(IpAddress::V6(a)),
            None => None,
        },
    }
}

/// The dotted-decimal text of the 32-bit number `bits`.
pub open spec fn dotted_quad(bits: u32) -> Seq<char> {
    decimal(octet_of(bits, 0) as nat) + seq!['.'] + decimal(octet_of(bits, 1) as nat) + seq!['.']
        + decimal(octet_of(bits, 2) as nat) + seq!['.'] + decimal(octet_of(bits, 3) as nat)
}

/// The octets of a dotted quad's number are the quad's octets.
pub proof fn lemma_quad_octets(a: u8, b: u8, c: u8, d: u8)
    ensures
        0 <= quad_bits(a, b, c, d) <= u32::MAX,
        octet_of(quad_bits(a, b, c, d) as u32, 0) == a,
        octet_of(quad_bits(a, b, c, d) as u32, 1) == b,
        octet_of(quad_bits(a, b, c, d) as u32, 2) == c,
        octet_of(quad_bits(a, b, c, d) as u32, 3) == d,
{
    let n = quad_bits(a, b, c, d);
    let hi = a * 0x100 + b;
    let mid = hi * 0x100 + c;
    assert(n == mid * 0x100 + d);
    assert(n % 0x100 == d && n / 0x100 == mid);
    assert(mid % 0x100 == c && mid / 0x100 == hi);
    assert(hi % 0x100 == b && hi / 0x100 == a);
    assert(n / 0x1_0000 == hi);
    assert(n / 0x100_0000 == a);
}

/// A 32-bit number is the dotted quad of its octets.
pub proof fn lemma_octets_quad(bits: u32)
    ensures
        forall|i: int| 0 <= i < 4 ==> 0 <= #[trigger] octet_of(bits, i) < 0x100,
        octet_of(bits, 0) * 0x100_0000 + octet_of(bits, 1) * 0x1_0000 + octet_of(bits, 2) * 0x100
            + octet_of(bits, 3) == bits,
{
    let n = bits as int;
    let mid = n / 0x100;
    let hi = mid / 0x100;
    assert(n == mid * 0x100 + n % 0x100);
    assert(mid == hi * 0x100 + mid % 0x100);
    assert(hi == (hi / 0x100) * 0x100 + hi % 0x100);
    assert(n / 0x1_0000 == hi);
    assert(n / 0x100_0000 == hi / 0x100);
}

impl Ipv4Address {
    /// The address `a.b.c.d`.
    pub fn new(a: u8, b: u8, c: u8, d: u8) -> (r: Self)
        ensures
            r.bits == quad_bits(a, b, c, d),
            octet_of(r.bits, 0) == a,
            octet_of(r.bits, 1) == b,
            octet_of(r.bits, 2) == c,
            octet_of(r.bits, 3) == d,
    {
        let bits: u32 = (a as u32) * 0x100_0000 + (b as u32) * 0x1_0000 + (c as u32) * 0x100 + (
        d as u32);
        proof {
            lemma_quad_octets(a, b, c, d);
        }
        Ipv4Address { bits }
    }

    /// The address whose 32-bit number is `bits`.
    pub fn from_bits(bits: u32) -> (r: Self)
        ensures
            r.bits == bits,
    {
        Ipv4Address { bits }
    }

    /// The four octets, first octet first.
    pub fn octets(&self) -> (r: [u8; 4])
        ensures
            forall|i: int| 0 <= i < 4 ==> r@[i] == octet_of(self.bits, i),
            quad_bits(r@[0], r@[1], r@[2], r@[3]) == self.bits,
    {
        proof {
            lemma_octets_quad(self.bits);
        }
        [
            (self.bits / 0x100_0000) as u8,
            ((self.bits / 0x1_0000) % 0x100) as u8,
            ((self.bits / 0x100) % 0x100) as u8,
            (self.bits % 0x100) as u8,
        ]
    }

    /// The dotted-decimal text of the address.
    pub fn to_text(&self) -> (r: String)
        ensures
            r@ == dotted_quad(self.bits),
    {
        let o = self.octets();
        let mut out: Vec<char> = chars_of(decimal_string(o[0] as u64).as_str());
        let mut i: usize = 1;
        while i < 4
            invariant
                1 <= i <= 4,
                forall|k: int| 0 <= k < 4 ==> o@[k] == octet_of(self.bits, k),
                i == 1 ==> out@ == decimal(octet_of(self.bits, 0) as nat),
                i == 2 ==> out@ == decimal(octet_of(self.bits, 0) as nat) + seq!['.'] + decimal(
                    octet_of(self.bits, 1) as nat,
                ),
                i == 3 ==> out@ == decimal(octet_of(self.bits, 0) as nat) + seq!['.'] + decimal(
                    octet_of(self.bits, 1) as nat,
                ) + seq!['.'] + decimal(octet_of(self.bits, 2) as nat),
                i == 4 ==> out@ == dotted_quad(self.bits),
            decreases 4 - i,
        {
            let ghost before = out@;
            out.push('.');
            let mut part = chars_of(decimal_string(o[i] as u64).as_str());
            out.append(&mut part);
            assert(out@ == before + seq!['.'] + decimal(octet_of(self.bits, i as int) as nat));
            i += 1;
        }
        string_of_chars(&out)
    }
}

/// The segments of the number built from eight segments are those segments.
pub proof fn lemma_segments_of_bits(s: Seq<u16>)
    requires
        s.len() == 8,
    ensures
        0 <= segments_bits(s) <= u128::MAX,
        forall|i: int| 0 <= i < 8 ==> segment_of(segments_bits(s) as u128, i) == #[trigger] s[i],
{
    let n = segments_bits(s);
    let h1 = s[0] * 0x1_0000 + s[1];
    let h2 = h1 * 0x1_0000 + s[2];
    let h3 = h2 * 0x1_0000 + s[3];
    let h4 = h3 * 0x1_0000 + s[4];
    let h5 = h4 * 0x1_0000 + s[5];
    let h6 = h5 * 0x1_0000 + s[6];
    assert(n == h6 * 0x1_0000 + s[7]);
    assert(n % 0x1_0000 == s[7] && n / 0x1_0000 == h6);
    assert(h6 % 0x1_0000 == s[6] && h6 / 0x1_0000 == h5);
    assert(h5 % 0x1_0000 == s[5] && h5 / 0x1_0000 == h4);
    assert(h4 % 0x1_0000 == s[4] && h4 / 0x1_0000 == h3);
    assert(h3 % 0x1_0000 == s[3] && h3 / 0x1_0000 == h2);
    assert(h2 % 0x1_0000 == s[2] && h2 / 0x1_0000 == h1);
    assert(h1 % 0x1_0000 == s[1] && h1 / 0x1_0000 == s[0]);
    assert(n / 0x1_0000_0000 == h5);
    assert(n / 0x1_0000_0000_0000 == h4);
    assert(n / 0x1_0000_0000_0000_0000 == h3);
    assert(n / 0x1_0000_0000_0000_0000_0000 == h2);
    assert(n / 0x1_0000_0000_0000_0000_0000_0000 == h1);
    assert(n / 0x1_0000_0000_0000_0000_0000_0000_0000 == s[0]);
}

/// A 128-bit number is the number built from its segments.
pub proof fn lemma_bits_of_segments(bits: u128)
    ensures
        forall|i: int| 0 <= i < 8 ==> 0 <= #[trigger] segment_of(bits, i) < 0x1_0000,
        segments_bits(Seq::new(8, |i: int| segment_of(bits, i) as u16)) == bits,
{
    let n = bits as int;
    let h6 = n / 0x1_0000;
    let h5 = h6 / 0x1_0000;
    let h4 = h5 / 0x1_0000;
    let h3 = h4 / 0x1_0000;
    let h2 = h3 / 0x1_0000;
    let h1 = h2 / 0x1_0000;
    let h0 = h1 / 0x1_0000;
    assert(n == h6 * 0x1_0000 + n % 0x1_0000);
    assert(h6 == h5 * 0x1_0000 + h6 % 0x1_0000);
    assert(h5 == h4 * 0x1_0000 + h5 % 0x1_0000);
    assert(h4 == h3 * 0x1_0000 + h4 % 0x1_0000);
    assert(h3 == h2 * 0x1_0000 + h3 % 0x1_0000);
    assert(h2 == h1 * 0x1_0000 + h2 % 0x1_0000);
    assert(h1 == h0 * 0x1_0000 + h1 % 0x1_0000);
    assert(n / 0x1_0000_0000 == h5);
    assert(n / 0x1_0000_0000_0000 == h4);
    assert(n / 0x1_0000_0000_0000_0000 == h3);
    assert(n / 0x1_0000_0000_0000_0000_0000 == h2);
    assert(n / 0x1_0000_0000_0000_0000_0000_0000 == h1);
    assert(n / 0x1_0000_0000_0000_0000_0000_0000_0000 == h0);
    assert(h0 < 0x1_0000);
}

impl IpAddress {
    /// The text of an address of either family.
    pub open spec fn text(self) -> Seq<char> {
        match self {
            IpAddress::V4(a) => dotted_quad(a.bits),
            IpAddress::V6(a) => ipv6_text(a.bits),
        }
    }

    /// The text of the address.
    pub fn to_text(&self) -> (r: String)
        ensures
            r@ == self.text(),
    {
        match self {
            IpAddress::V4(a) => a.to_text(),
            IpAddress::V6(a) => a.to_text(),
        }
    }
}

impl Ipv6Address {
    /// The address with the given eight segments, first segment first.
    pub fn new(a: u16, b: u16, c: u16, d: u16, e: u16, f: u16, g: u16, h: u16) -> (r: Self)
        ensures
            r.bits == segments_bits(seq![a, b, c, d, e, f, g, h]),
            segment_of(r.bits, 0) == a,
            segment_of(r.bits, 1) == b,
            segment_of(r.bits, 2) == c,
            segment_of(r.bits, 3) == d,
            segment_of(r.bits, 4) == e,
            segment_of(r.bits, 5) == f,
            segment_of(r.bits, 6) == g,
            segment_of(r.bits, 7) == h,
    {
        let ghost s = seq![a, b, c, d, e, f, g, h];
        assert(s[0] == a && s[1] == b && s[2] == c && s[3] == d && s[4] == e && s[5] == f && s[6]
            == g && s[7] == h);
        proof {
            lemma_segments_of_bits(s);
        }
        let bits: u128 = (a as u128) * 0x1_0000_0000_0000_0000_0000_0000_0000 + (b as u128)
            * 0x1_0000_0000_0000_0000_0000_0000 + (c as u128) * 0x1_0000_0000_0000_0000_0000 + (
        d as u128) * 0x1_0000_0000_0000_0000 + (e as u128) * 0x1_0000_0000_0000 + (f as u128)
            * 0x1_0000_0000 + (g as u128) * 0x1_0000 + (h as u128);
        Ipv6Address { bits }
    }

    /// The address whose 128-bit number is `bits`.
    pub fn from_bits(bits: u128) -> (r: Self)
        ensures
            r.bits == bits,
    {
        Ipv6Address { bits }
    }

    /// The text of the address.
    pub fn to_text(&self) -> (r: String)
        ensures
            r@ == ipv6_text(self.bits),
    {
        ipv6_to_text(self.bits)
    }

    /// The eight segments, first segment first.
    pub fn segments(&self) -> (r: [u16; 8])
        ensures
            forall|i: int| 0 <= i < 8 ==> r@[i] == segment_of(self.bits, i),
            segments_bits(r@) == self.bits,
    {
        proof {
            lemma_bits_of_segments(self.bits);
        }
        let r: [u16; 8] = [
            (self.bits / 0x1_0000_0000_0000_0000_0000_0000_0000) as u16,
            ((self.bits / 0x1_0000_0000_0000_0000_0000_0000) % 0x1_0000) as u16,
            ((self.bits / 0x1_0000_0000_0000_0000_0000) % 0x1_0000) as u16,
            ((self.bits / 0x1_0000_0000_0000_0000) % 0x1_0000) as u16,
            ((self.bits / 0x1_0000_0000_0000) % 0x1_0000) as u16,
            ((self.bits / 0x1_0000_0000) % 0x1_0000) as u16,
            ((self.bits / 0x1_0000) % 0x1_0000) as u16,
            (self.bits % 0x1_0000) as u16,
        ];
        assert(r@ =~= Seq::new(8, |i: int| segment_of(self.bits, i) as u16));
        r
    }
}

} // verus!
