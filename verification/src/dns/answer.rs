//! Lookup answers as plain values: what a resolver or a zone transfer
//! hands over before it becomes a record of the model.

use vstd::prelude::*;
use vstd::string::*;
use crate::dns::address::{Ipv4Address, Ipv6Address};

verus! {

/// The record type that an answer record announces, as far as the
/// conversion tells types apart.
#[derive(Debug, Clone, Copy, PartialEq, Eq, Structural)]
pub enum WireType {
    A,
    Aaaa,
    Mx,
    Ns,
    Txt,
    Ptr,
    Cname,
    Soa,
    Srv,
    Caa,
    Other,
}

/// The payload of an answer record. Names are in their printed form, which
/// may end in the root dot; the parts of a TXT payload are raw bytes.
#[derive(Debug, Clone)]
pub enum WireValue {
    A(Ipv4Address),
    Aaaa(Ipv6Address),
    Mx { preference: u16, exchange: String },
    Ns(String),
    Txt(Vec<Vec<u8>>),
    Ptr(String),
    Cname(String),
    Srv { priority: u16, weight: u16, port: u16, target: String },
    /// A CAA payload: the flags byte, the property tag, and the property
    /// value as text.
    Caa { flags: u8, tag: String, value: String },
    Soa {
        mname: String,
        rname: String,
        serial: u32,
        refresh: i32,
        retry: i32,
        expire: i32,
        minimum: u32,
    },
    Other,
}

/// A payload together with its generic textual representation.
#[derive(Debug, Clone)]
pub struct WireData {
    pub value: WireValue,
    pub text: String,
}

/// One answer record of a transfer.
#[derive(Debug, Clone)]
pub struct WireRecord {
    pub name: String,
    pub record_type: WireType,
    pub data: Option<WireData>,
}

/// The flag of a CAA payload that marks its property as critical to the
/// issuer: the highest bit of the flags byte.
pub const CAA_ISSUER_CRITICAL: u8 = 128;

/// The flags byte of a CAA payload of which only the critical flag is
/// known.
pub fn caa_flags(issuer_critical: bool) -> (r: u8)
    ensures
        r == (if issuer_critical {
            CAA_ISSUER_CRITICAL
        } else {
            0u8
        }),
{
    if issuer_critical {
        CAA_ISSUER_CRITICAL
    } else {
        0
    }
}

/// The text that lossy UTF-8 decoding gives for `bytes`.
pub uninterp spec fn lossy_text(bytes: Seq<u8>) -> Seq<char>;

/// Decodes bytes through `String::from_utf8_lossy`, which replaces invalid
/// sequences by the replacement character.
#[verifier::external_body]
pub(crate) fn decode_lossy(bytes: &Vec<u8>) -> (r: String)
    ensures
        r@ == lossy_text(bytes@),
{
    String::from_utf8_lossy(bytes).into_owned()
}

/// The decoded parts of a TXT payload, joined without a separator: the
/// first `n` parts.
pub open spec fn joined_text(parts: Seq<Vec<u8>>, n: int) -> Seq<char>
    decreases n,
{
    if n <= 0 {
        Seq::empty()
    } else {
        joined_text(parts, n - 1) + lossy_text(parts[n - 1]@)
    }
}

/// A signed time value as an unsigned one; 0 where it is negative.
pub open spec fn unsigned_or_zero(v: i32) -> u32 {
    if v < 0 {
        0
    } else {
        v as u32
    }
}

/// A signed time value as an unsigned one; 0 where it is negative.
pub fn to_unsigned_or_zero(v: i32) -> (r: u32)
    ensures
        r == unsigned_or_zero(v),
{
    if v < 0 {
        0
    } else {
        v as u32
    }
}

/// Decodes the parts of a TXT payload and joins them without a separator.
pub fn join_text_parts(parts: &Vec<Vec<u8>>) -> (r: String)
    ensures
        r@ == joined_text(parts@, parts@.len() as int),
{
    let mut out = String::new();
    let mut i: usize = 0;
    while i < parts.len()
        invariant
            i <= parts.len(),
            out@ == joined_text(parts@, i as int),
        decreases parts.len() - i,
    {
        let part = decode_lossy(&parts[i]);
        out.append(part.as_str());
        i += 1;
    }
    out
}

} // verus!
