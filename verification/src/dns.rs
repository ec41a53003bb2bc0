//! The DNS record model and the rules that turn lookup answers into records.

use vstd::prelude::*;
use vstd::string::*;

pub mod address;
pub mod answer;
pub mod record;
pub mod resolver;
pub mod zone_transfer;

verus! {

/// Why a DNS operation failed; the variants with a text carry the message
/// of their cause.
#[derive(Debug, Clone)]
pub enum DnsError {
    Resolution(String),
    Io(String),
    AddrParse(String),
    InvalidRecord(String),
    ZoneTransferFailed(String),
    Timeout,
    Other(String),
}

/// The mathematical value of a [`DnsError`].
pub enum DnsErrorView {
    Resolution(Seq<char>),
    Io(Seq<char>),
    AddrParse(Seq<char>),
    InvalidRecord(Seq<char>),
    ZoneTransferFailed(Seq<char>),
    Timeout,
    Other(Seq<char>),
}

impl View for DnsError {
    type V = DnsErrorView;

    open spec fn view(&self) -> DnsErrorView {
        match self {
            DnsError::Resolution(m) => DnsErrorView::Resolution(m@),
            DnsError::Io(m) => DnsErrorView::Io(m@),
            DnsError::AddrParse(m) => DnsErrorView::AddrParse(m@),
            DnsError::InvalidRecord(m) => DnsErrorView::InvalidRecord(m@),
            DnsError::ZoneTransferFailed(m) => DnsErrorView::ZoneTransferFailed(m@),
            DnsError::Timeout => DnsErrorView::Timeout,
            DnsError::Other(m) => DnsErrorView::Other(m@),
        }
    }
}

impl DnsErrorView {
    /// The text of the error: a prefix that names the kind of failure, then
    /// the cause.
    pub open spec fn message(self) -> Seq<char> {
        match self {
            DnsErrorView::Resolution(m) => "DNS resolution error: "@ + m,
            DnsErrorView::Io(m) => "IO error: "@ + m,
            DnsErrorView::AddrParse(m) => "Address parsing error: "@ + m,
            DnsErrorView::InvalidRecord(m) => "Invalid DNS record: "@ + m,
            DnsErrorView::ZoneTransferFailed(m) => "Zone transfer failed: "@ + m,
            DnsErrorView::Timeout => "DNS query timeout"@,
            DnsErrorView::Other(m) => "Other DNS error: "@ + m,
        }
    }
}

impl DnsError {
    /// The text of the error.
    pub fn message(&self) -> (r: String)
        ensures
            r@ == self@.message(),
    {
        match self {
            DnsError::Resolution(m) => String::from_str("DNS resolution error: ").concat(
                m.as_str(),
            ),
            DnsError::Io(m) => String::from_str("IO error: ").concat(m.as_str()),
            DnsError::AddrParse(m) => String::from_str("Address parsing error: ").concat(
                m.as_str(),
            ),
            DnsError::InvalidRecord(m) => String::from_str("Invalid DNS record: ").concat(
                m.as_str(),
            ),
            DnsError::ZoneTransferFailed(m) => String::from_str("Zone transfer failed: ").concat(
                m.as_str(),
            ),
            DnsError::Timeout => String::from_str("DNS query timeout"),
            DnsError::Other(m) => String::from_str("Other DNS error: ").concat(m.as_str()),
        }
    }

    /// A copy of the error.
    pub fn duplicate(&self) -> (r: Self)
        ensures
            r@ == self@,
    {
        match self {
            DnsError::Resolution(m) => DnsError::Resolution(m.clone()),
            DnsError::Io(m) => DnsError::Io(m.clone()),
            DnsError::AddrParse(m) => DnsError::AddrParse(m.clone()),
            DnsError::InvalidRecord(m) => DnsError::InvalidRecord(m.clone()),
            DnsError::ZoneTransferFailed(m) => DnsError::ZoneTransferFailed(m.clone()),
            DnsError::Timeout => DnsError::Timeout,
            DnsError::Other(m) => DnsError::Other(m.clone()),
        }
    }
}

} // verus!
