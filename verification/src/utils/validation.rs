//! Input validation utilities

use vstd::prelude::*;
use vstd::string::*;
use crate::dns::address::{address_of, ipv4_of, ipv6_of, parse_address, parse_v4, parse_v6};
use crate::utils::cidr::{network_of, parse_network};
use crate::utils::text::{chars_of, split_by, split_text, text_views};

verus! {

/// The longest domain name, in characters.
pub const MAX_DOMAIN_LENGTH: usize = 253;

/// The longest label of a domain name, in characters.
pub const MAX_LABEL_LENGTH: usize = 63;

/// An ASCII letter or digit.
pub open spec fn is_alphanumeric(c: char) -> bool {
    ('a' <= c && c <= 'z') || ('A' <= c && c <= 'Z') || ('0' <= c && c <= '9')
}

/// A label of a domain name: 1 to 63 characters, each a letter, a digit or
/// a hyphen, and neither the first nor the last a hyphen.
pub open spec fn is_valid_label(label: Seq<char>) -> bool {
    &&& 1 <= label.len() <= MAX_LABEL_LENGTH
    &&& is_alphanumeric(label.first())
    &&& is_alphanumeric(label.last())
    &&& forall|i: int| 0 <= i < label.len() ==> is_alphanumeric(#[trigger] label[i]) || label[i] == '-'
}

/// A domain name: at most 253 characters, and each of the labels between
/// its dots is valid.
pub open spec fn is_domain_name(domain: Seq<char>) -> bool {
    &&& domain.len() <= MAX_DOMAIN_LENGTH
    &&& forall|i: int|
        0 <= i < split_by(domain, '.').len() ==> is_valid_label(
            #[trigger] split_by(domain, '.')[i],
        )
}

/// Whether `c` is an ASCII letter or digit.
pub fn char_is_alphanumeric(c: char) -> (r: bool)
    ensures
        r == is_alphanumeric(c),
{
    ('a' <= c && c <= 'z') || ('A' <= c && c <= 'Z') || ('0' <= c && c <= '9')
}

/// Whether `label` is a valid label of a domain name.
pub fn label_is_valid(label: &str) -> (r: bool)
    ensures
        r == is_valid_label(label@),
{
    let chars = chars_of(label);
    if chars.len() < 1 || chars.len() > MAX_LABEL_LENGTH {
        return false;
    }
    if !char_is_alphanumeric(chars[0]) || !char_is_alphanumeric(chars[chars.len() - 1]) {
        return false;
    }
    let mut i: usize = 0;
    while i < chars.len()
        invariant
            i <= chars.len(),
            chars@ == label@,
            forall|k: int| 0 <= k < i ==> is_alphanumeric(#[trigger] label@[k]) || label@[k] == '-',
        decreases chars.len() - i,
    {
        if !char_is_alphanumeric(chars[i]) && chars[i] != '-' {
            return false;
        }
        i += 1;
    }
    true
}

/// Validate if a string is a valid domain name
pub fn is_valid_domain(domain: &str) -> (r: bool)
    ensures
        r == is_domain_name(domain@),
{
    if domain.unicode_len() > MAX_DOMAIN_LENGTH {
        return false;
    }
    let labels = split_text(domain, '.');
    let ghost views = split_by(domain@, '.');
    let mut i: usize = 0;
    while i < labels.len()
        invariant
            i <= labels.len(),
            text_views(labels@) == views,
            views == split_by(domain@, '.'),
            forall|k: int| 0 <= k < i ==> is_valid_label(#[trigger] views[k]),
        decreases labels.len() - i,
    {
        assert(views[i as int] == labels@[i as int]@);
        if !label_is_valid(labels[i].as_str()) {
            assert(!is_valid_label(split_by(domain@, '.')[i as int]));
            return false;
        }
        i += 1;
    }
    assert(views.len() == labels@.len());
    true
}

/// Validate if a string is a valid IP address
pub fn is_valid_ip(ip: &str) -> (r: bool)
    ensures
        r == address_of(ip@) is Some,
{
    parse_address(ip).is_some()
}

/// Validate if a string is a valid IPv4 address
pub fn is_valid_ipv4(ip: &str) -> (r: bool)
    ensures
        r == ipv4_of(ip@) is Some,
{
    parse_v4(ip).is_some()
}

/// Validate if a string is a valid IPv6 address
pub fn is_valid_ipv6(ip: &str) -> (r: bool)
    ensures
        r == ipv6_of(ip@) is Some,
{
    parse_v6(ip).is_some()
}

/// Validate CIDR notation
pub fn is_valid_cidr(cidr: &str) -> (r: bool)
    ensures
        r == network_of(cidr@) is Some,
{
    parse_network(cidr).is_ok()
}

} // verus!
