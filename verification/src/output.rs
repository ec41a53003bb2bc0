//! What the exporters write for a collection of records.

use vstd::prelude::*;
use vstd::string::*;

pub mod fields;
pub mod sqlite;
pub mod xml;

verus! {

/// Why an export failed; each variant carries the message of its cause.
#[derive(Debug, Clone)]
pub enum OutputError {
    Json(String),
    Xml(String),
    Sqlite(String),
    Io(String),
    Utf8(String),
    Other(String),
}

impl OutputError {
    /// The text of the error: a prefix that names the failing layer, then
    /// the cause.
    pub open spec fn message_spec(&self) -> Seq<char> {
        match self {
            OutputError::Json(m) => "JSON error: "@ + m@,
            OutputError::Xml(m) => "XML error: "@ + m@,
            OutputError::Sqlite(m) => "SQLite error: "@ + m@,
            OutputError::Io(m) => "IO error: "@ + m@,
            OutputError::Utf8(m) => "UTF-8 conversion error: "@ + m@,
            OutputError::Other(m) => "Other output error: "@ + m@,
        }
    }

    /// The text of the error.
    pub fn message(&self) -> (r: String)
        ensures
            r@ == self.message_spec(),
    {
        match self {
            OutputError::Json(m) => String::from_str("JSON error: ").concat(m.as_str()),
            OutputError::Xml(m) => String::from_str("XML error: ").concat(m.as_str()),
            OutputError::Sqlite(m) => String::from_str("SQLite error: ").concat(m.as_str()),
            OutputError::Io(m) => String::from_str("IO error: ").concat(m.as_str()),
            OutputError::Utf8(m) => String::from_str("UTF-8 conversion error: ").concat(
                m.as_str(),
            ),
            OutputError::Other(m) => String::from_str("Other output error: ").concat(m.as_str()),
        }
    }
}

} // verus!
