//! Address ranges: a CIDR block, a start-end pair or a single address,
//! expanded to the addresses to scan.

use vstd::prelude::*;
use vstd::string::*;
use crate::dns::address::{IpAddress, Ipv4Address, Ipv6Address, address_of, parse_address};
use crate::utils::text::{contains_char, split_by, split_text, text_views};

verus! {

/// A CIDR block: an address and the length of the network prefix.
#[derive(Debug, Clone, Copy, PartialEq, Eq, Structural)]
pub struct NetworkBlock {
    pub address: IpAddress,
    pub prefix: u8,
}

/// Why a range could not be expanded.
#[derive(Debug, Clone)]
pub enum RangeError {
    /// The text is no CIDR block; the message says which text.
    Network(String),
    /// A start-end range does not have exactly two parts.
    Format,
    /// A part that should be an address is none.
    Address,
    /// The range holds more addresses than a list can hold here.
    TooLarge,
}

/// The mathematical value of a [`RangeError`].
pub enum RangeErrorView {
    Network(Seq<char>),
    Format,
    Address,
    TooLarge,
}

impl View for RangeError {
    type V = RangeErrorView;

    open spec fn view(&self) -> RangeErrorView {
        match self {
            RangeError::Network(m) => RangeErrorView::Network(m@),
            RangeError::Format => RangeErrorView::Format,
            RangeError::Address => RangeErrorView::Address,
            RangeError::TooLarge => RangeErrorView::TooLarge,
        }
    }
}

impl RangeErrorView {
    /// The text of the error.
    pub open spec fn message(self) -> Seq<char> {
        match self {
            RangeErrorView::Network(m) => m,
            RangeErrorView::Format => "Invalid range format"@,
            RangeErrorView::Address => "invalid IP address syntax"@,
            RangeErrorView::TooLarge => "range too large"@,
        }
    }
}

impl RangeError {
    /// The text of the error.
    pub fn message(&self) -> (r: String)
        ensures
            r@ == self@.message(),
    {
        match self {
            RangeError::Network(m) => m.clone(),
            RangeError::Format => String::from_str("Invalid range format"),
            RangeError::Address => String::from_str("invalid IP address syntax"),
            RangeError::TooLarge => String::from_str("range too large"),
        }
    }
}

impl NetworkBlock {
    /// The prefix is no longer than the address.
    pub open spec fn well_formed(self) -> bool {
        match self.address {
            IpAddress::V4(_) => self.prefix <= 32,
            IpAddress::V6(_) => self.prefix <= 128,
        }
    }

    /// The lowest address of the block: the host bits cleared.
    pub open spec fn first(self) -> IpAddress {
        match self.address {
            IpAddress::V4(a) => IpAddress::V4(
                Ipv4Address { bits: a.bits & v4_mask(self.prefix) },
            ),
            IpAddress::V6(a) => IpAddress::V6(
                Ipv6Address { bits: a.bits & v6_mask(self.prefix) },
            ),
        }
    }

    /// The highest address of the block: the host bits set.
    pub open spec fn last(self) -> IpAddress {
        match self.address {
            IpAddress::V4(a) => IpAddress::V4(
                Ipv4Address { bits: a.bits | !v4_mask(self.prefix) },
            ),
            IpAddress::V6(a) => IpAddress::V6(
                Ipv6Address { bits: a.bits | !v6_mask(self.prefix) },
            ),
        }
    }
}

/// The IPv4 mask whose `prefix` highest bits are set.
pub open spec fn v4_mask(prefix: u8) -> u32 {
    if prefix == 0 {
        0u32
    } else if prefix >= 32 {
        0xffff_ffffu32
    } else {
        0xffff_ffffu32 << ((32 - prefix) as u32)
    }
}

/// The IPv6 mask whose `prefix` highest bits are set.
pub open spec fn v6_mask(prefix: u8) -> u128 {
    if prefix == 0 {
        0u128
    } else if prefix >= 128 {
        0xffff_ffff_ffff_ffff_ffff_ffff_ffff_ffffu128
    } else {
        0xffff_ffff_ffff_ffff_ffff_ffff_ffff_ffffu128 << ((128 - prefix) as u128)
    }
}

/// The CIDR block that the text `s` denotes; `None` where it denotes none.
/// An address without a prefix denotes the block of that one address.
pub uninterp spec fn network_of(s: Seq<char>) -> Option<NetworkBlock>;

/// Parses a CIDR block through `ipnetwork::IpNetwork::from_str`. The error
/// it gives for a text that is no block is `invalid address: ` and the
/// text.
#[verifier::external_body]
pub(crate) fn parse_network(s: &str) -> (r: Result<NetworkBlock, String>)
    ensures
        match r {
            Ok(block) => network_of(s@) == Some(block),
            Err(m) => network_of(s@) is None && m@ == "invalid address: "@ + s@,
        },
{
    match s.parse::<ipnetwork::IpNetwork>() {
        Ok(ipnetwork::IpNetwork::V4(n)) => Ok(
            NetworkBlock {
                address: IpAddress::V4(Ipv4Address { bits: u32::from(n.ip()) }),
                prefix: n.prefix(),
            },
        ),
        Ok(ipnetwork::IpNetwork::V6(n)) => Ok(
            NetworkBlock {
                address: IpAddress::V6(Ipv6Address { bits: u128::from(n.ip()) }),
                prefix: n.prefix(),
            },
        ),
        Err(e) => Err(e.to_string()),
    }
}

/// The IPv4 addresses from `start` to `end` in ascending order; none where
/// `start` is above `end`.
pub open spec fn v4_between(start: u32, end: u32) -> Seq<IpAddress> {
    if start <= end {
        Seq::new(
            (end - start + 1) as nat,
            |i: int| IpAddress::V4(Ipv4Address { bits: (start + i) as u32 }),
        )
    } else {
        Seq::empty()
    }
}

/// The IPv6 addresses from `start` to `end` in ascending order; none where
/// `start` is above `end`.
pub open spec fn v6_between(start: u128, end: u128) -> Seq<IpAddress> {
    if start <= end {
        Seq::new(
            (end - start + 1) as nat,
            |i: int| IpAddress::V6(Ipv6Address { bits: (start + i) as u128 }),
        )
    } else {
        Seq::empty()
    }
}

/// Whether a list can hold the addresses from `start` to `end` on this
/// machine.
pub open spec fn fits(start: int, end: int) -> bool {
    end - start < usize::MAX
}

/// The addresses of a start-end range.
///
/// Between two IPv4 addresses lie all the addresses from the first to the
/// second, counted up by the 32-bit number. Any other pair is not
/// expanded: it gives the two boundary addresses alone.
pub open spec fn expansion_between(start: IpAddress, end: IpAddress) -> Result<
    Seq<IpAddress>,
    RangeErrorView,
> {
    match (start, end) {
        (IpAddress::V4(a), IpAddress::V4(b)) => if fits(a.bits as int, b.bits as int) {
            Ok(v4_between(a.bits, b.bits))
        } else {
            Err(RangeErrorView::TooLarge)
        },
        _ => Ok(seq![start, end]),
    }
}

/// The addresses of a CIDR block, from its lowest to its highest.
pub open spec fn block_expansion(block: NetworkBlock) -> Result<Seq<IpAddress>, RangeErrorView> {
    match (block.first(), block.last()) {
        (IpAddress::V4(a), IpAddress::V4(b)) => if fits(a.bits as int, b.bits as int) {
            Ok(v4_between(a.bits, b.bits))
        } else {
            Err(RangeErrorView::TooLarge)
        },
        (IpAddress::V6(a), IpAddress::V6(b)) => if fits(a.bits as int, b.bits as int) {
            Ok(v6_between(a.bits, b.bits))
        } else {
            Err(RangeErrorView::TooLarge)
        },
        _ => Err(RangeErrorView::Address),
    }
}

/// The expansion of the text of a CIDR block.
pub open spec fn cidr_expansion(cidr: Seq<char>) -> Result<Seq<IpAddress>, RangeErrorView> {
    match network_of(cidr) {
        Some(block) => block_expansion(block),
        None => Err(RangeErrorView::Network("invalid address: "@ + cidr)),
    }
}

/// The expansion of the text of a start-end range: exactly two parts
/// around one `-`, each an address.
pub open spec fn range_expansion(range: Seq<char>) -> Result<Seq<IpAddress>, RangeErrorView> {
    let parts = split_by(range, '-');
    if parts.len() != 2 {
        Err(RangeErrorView::Format)
    } else {
        match (address_of(parts[0]), address_of(parts[1])) {
            (Some(start), Some(end)) => expansion_between(start, end),
            _ => Err(RangeErrorView::Address),
        }
    }
}

/// The expansion of a range in any of its three forms: a text with `/` is
/// a CIDR block, else a text with `-` is a start-end range, else the text
/// is a single address.
pub open spec fn processed_range(range: Seq<char>) -> Result<Seq<IpAddress>, RangeErrorView> {
    if range.contains('/') {
        cidr_expansion(range)
    } else if range.contains('-') {
        range_expansion(range)
    } else {
        match address_of(range) {
            Some(ip) => Ok(seq![ip]),
            None => Err(RangeErrorView::Address),
        }
    }
}

/// `r` is the result `expected`, up to the view of the error.
pub open spec fn is_expansion(
    r: Result<Vec<IpAddress>, RangeError>,
    expected: Result<Seq<IpAddress>, RangeErrorView>,
) -> bool {
    match r {
        Ok(ips) => expected == Ok::<Seq<IpAddress>, RangeErrorView>(ips@),
        Err(e) => expected == Err::<Seq<IpAddress>, RangeErrorView>(e@),
    }
}

/// The IPv4 addresses from `start` to `end` in ascending order.
fn enumerate_v4(start: u32, end: u32) -> (r: Result<Vec<IpAddress>, RangeError>)
    ensures
        is_expansion(
            r,
            if fits(start as int, end as int) {
                Ok(v4_between(start, end))
            } else {
                Err(RangeErrorView::TooLarge)
            },
        ),
{
    let mut ips: Vec<IpAddress> = Vec::new();
    if start > end {
        return Ok(ips);
    }
    if (end - start) as u64 >= usize::MAX as u64 {
        return Err(RangeError::TooLarge);
    }
    let mut current: u32 = start;
    while current < end
        invariant
            start <= current <= end,
            ips@.len() == current - start,
            forall|i: int|
                0 <= i < ips@.len() ==> ips@[i] == IpAddress::V4(
                    Ipv4Address { bits: (start + i) as u32 },
                ),
        decreases end - current,
    {
        ips.push(IpAddress::V4(Ipv4Address { bits: current }));
        current += 1;
    }
    ips.push(IpAddress::V4(Ipv4Address { bits: end }));
    assert(ips@ =~= v4_between(start, end));
    Ok(ips)
}

/// The IPv6 addresses from `start` to `end` in ascending order.
fn enumerate_v6(start: u128, end: u128) -> (r: Result<Vec<IpAddress>, RangeError>)
    ensures
        is_expansion(
            r,
            if fits(start as int, end as int) {
                Ok(v6_between(start, end))
            } else {
                Err(RangeErrorView::TooLarge)
            },
        ),
{
    let mut ips: Vec<IpAddress> = Vec::new();
    if start > end {
        return Ok(ips);
    }
    if end - start >= usize::MAX as u128 {
        return Err(RangeError::TooLarge);
    }
    let mut current: u128 = start;
    while current < end
        invariant
            start <= current <= end,
            ips@.len() == current - start,
            forall|i: int|
                0 <= i < ips@.len() ==> ips@[i] == IpAddress::V6(
                    Ipv6Address { bits: (start + i) as u128 },
                ),
        decreases end - current,
    {
        ips.push(IpAddress::V6(Ipv6Address { bits: current }));
        current += 1;
    }
    ips.push(IpAddress::V6(Ipv6Address { bits: end }));
    assert(ips@ =~= v6_between(start, end));
    Ok(ips)
}

/// The addresses of the range from `start` to `end`.
pub fn expand_between(start: IpAddress, end: IpAddress) -> (r: Result<Vec<IpAddress>, RangeError>)
    ensures
        is_expansion(r, expansion_between(start, end)),
{
    match (start, end) {
        (IpAddress::V4(a), IpAddress::V4(b)) => enumerate_v4(a.bits, b.bits),
        _ => {
            let mut ips: Vec<IpAddress> = Vec::new();
            ips.push(start);
            ips.push(end);
            assert(ips@ =~= seq![start, end]);
            Ok(ips)
        },
    }
}

/// The addresses of a CIDR block, from its lowest to its highest.
pub fn expand_block(block: NetworkBlock) -> (r: Result<Vec<IpAddress>, RangeError>)
    ensures
        is_expansion(r, block_expansion(block)),
{
    match block.address {
        IpAddress::V4(a) => {
            let mask: u32 = if block.prefix == 0 {
                0
            } else if block.prefix >= 32 {
                0xffff_ffff
            } else {
                0xffff_ffffu32 << ((32 - block.prefix) as u32)
            };
            enumerate_v4(a.bits & mask, a.bits | !mask)
        },
        IpAddress::V6(a) => {
            let mask: u128 = if block.prefix == 0 {
                0
            } else if block.prefix >= 128 {
                0xffff_ffff_ffff_ffff_ffff_ffff_ffff_ffff
            } else {
                0xffff_ffff_ffff_ffff_ffff_ffff_ffff_ffffu128 << ((128 - block.prefix) as u128)
            };
            enumerate_v6(a.bits & mask, a.bits | !mask)
        },
    }
}

/// Expand a CIDR range to individual IP addresses
pub fn expand_cidr(cidr: &str) -> (r: Result<Vec<IpAddress>, RangeError>)
    ensures
        is_expansion(r, cidr_expansion(cidr@)),
{
    match parse_network(cidr) {
        Ok(block) => expand_block(block),
        Err(m) => Err(RangeError::Network(m)),
    }
}

/// Expand an IP range in start-end format
pub fn expand_range(range_str: &str) -> (r: Result<Vec<IpAddress>, RangeError>)
    ensures
        is_expansion(r, range_expansion(range_str@)),
{
    let parts = split_text(range_str, '-');
    if parts.len() != 2 {
        return Err(RangeError::Format);
    }
    assert(text_views(parts@)[0] == parts@[0]@);
    assert(text_views(parts@)[1] == parts@[1]@);
    let start = parse_address(parts[0].as_str());
    let end = parse_address(parts[1].as_str());
    match (start, end) {
        (Some(a), Some(b)) => expand_between(a, b),
        _ => Err(RangeError::Address),
    }
}

/// Process an IP range string (either CIDR or start-end format)
pub fn process_range(range_str: &str) -> (r: Result<Vec<IpAddress>, RangeError>)
    ensures
        is_expansion(r, processed_range(range_str@)),
{
    if contains_char(range_str, '/') {
        expand_cidr(range_str)
    } else if contains_char(range_str, '-') {
        expand_range(range_str)
    } else {
        match parse_address(range_str) {
            Some(ip) => {
                let mut ips: Vec<IpAddress> = Vec::new();
                ips.push(ip);
                assert(ips@ =~= seq![ip]);
                Ok(ips)
            },
            None => Err(RangeError::Address),
        }
    }
}

} // verus!
