//! The relational form of a record: one parent row, and one key/value row
//! for each field of its payload.

use vstd::prelude::*;
use vstd::string::*;
use crate::dns::record::{DnsRecord, DnsRecordView};
use crate::output::fields::{data_rows, record_data_rows, row_views};

verus! {

/// The parent row of a record: the kind's name, the record's name, and the
/// time to live, 0 where the record has none.
pub open spec fn parent_row(record: DnsRecordView) -> (Seq<char>, Seq<char>, u32) {
    (
        record.record_type.name_spec(),
        record.name,
        match record.ttl {
            Some(ttl) => ttl,
            None => 0,
        },
    )
}

/// The parent row to store for a record.
pub fn record_row(record: &DnsRecord) -> (r: (String, String, u32))
    ensures
        (r.0@, r.1@, r.2) == parent_row(record@),
{
    let ttl: u32 = match record.ttl() {
        Some(ttl) => ttl,
        None => 0,
    };
    (String::from_str(record.record_type().name()), String::from_str(record.name()), ttl)
}

/// The rows to store for a record: its parent row, then one child row for
/// each field of its payload, in order.
pub fn record_rows(record: &DnsRecord) -> (r: ((String, String, u32), Vec<(String, String)>))
    ensures
        (r.0.0@, r.0.1@, r.0.2) == parent_row(record@),
        row_views(r.1@) == data_rows(record@.data),
{
    (record_row(record), record_data_rows(record.data()))
}

} // verus!
