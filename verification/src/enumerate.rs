//! The enumeration techniques: passive sources, brute force, WHOIS.

use vstd::prelude::*;
use vstd::string::*;

pub mod bing;
pub mod brute_force;
pub mod crt_sh;
pub mod discovery;
pub mod html;
pub mod retry;
pub mod subdomain;
pub mod whois;
pub mod yandex;

verus! {

/// Enumeration-related errors; the variants with a text carry the message
/// of their cause.
#[derive(Debug, Clone)]
pub enum EnumerationError {
    Http(String),
    Io(String),
    Network(String),
    Parse(String),
    Timeout,
    Other(String),
}

/// The mathematical value of an [`EnumerationError`].
pub enum EnumerationErrorView {
    Http(Seq<char>),
    Io(Seq<char>),
    Network(Seq<char>),
    Parse(Seq<char>),
    Timeout,
    Other(Seq<char>),
}

impl View for EnumerationError {
    type V = EnumerationErrorView;

    open spec fn view(&self) -> EnumerationErrorView {
        match self {
            EnumerationError::Http(m) => EnumerationErrorView::Http(m@),
            EnumerationError::Io(m) => EnumerationErrorView::Io(m@),
            EnumerationError::Network(m) => EnumerationErrorView::Network(m@),
            EnumerationError::Parse(m) => EnumerationErrorView::Parse(m@),
            EnumerationError::Timeout => EnumerationErrorView::Timeout,
            EnumerationError::Other(m) => EnumerationErrorView::Other(m@),
        }
    }
}

impl EnumerationErrorView {
    /// The text of the error.
    pub open spec fn message(self) -> Seq<char> {
        match self {
            EnumerationErrorView::Http(m) => "HTTP error: "@ + m,
            EnumerationErrorView::Io(m) => "IO error: "@ + m,
            EnumerationErrorView::Network(m) => "Network error: "@ + m,
            EnumerationErrorView::Parse(m) => "Parse error: "@ + m,
            EnumerationErrorView::Timeout => "Timeout error"@,
            EnumerationErrorView::Other(m) => "Other enumeration error: "@ + m,
        }
    }
}

impl EnumerationError {
    /// The text of the error.
    pub fn message(&self) -> (r: String)
        ensures
            r@ == self@.message(),
    {
        match self {
            EnumerationError::Http(m) => String::from_str("HTTP error: ").concat(m.as_str()),
            EnumerationError::Io(m) => String::from_str("IO error: ").concat(m.as_str()),
            EnumerationError::Network(m) => String::from_str("Network error: ").concat(
                m.as_str(),
            ),
            EnumerationError::Parse(m) => String::from_str("Parse error: ").concat(m.as_str()),
            EnumerationError::Timeout => String::from_str("Timeout error"),
            EnumerationError::Other(m) => String::from_str("Other enumeration error: ").concat(
                m.as_str(),
            ),
        }
    }
}

} // verus!
