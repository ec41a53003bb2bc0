//! The fields of a record's payload as key/value texts: what the exporters
//! write for a payload, whatever the format.

use vstd::prelude::*;
use vstd::string::*;
use crate::dns::address::{dotted_quad, ipv6_text};
use crate::dns::record::{RecordData, RecordDataView};
use crate::utils::text::{decimal, decimal_string};

verus! {

/// The key/value rows of a payload, in the order in which they are written.
pub open spec fn data_rows(data: RecordDataView) -> Seq<(Seq<char>, Seq<char>)> {
    match data {
        RecordDataView::A(address) => seq![("address"@, dotted_quad(address.bits))],
        RecordDataView::Aaaa(address) => seq![("address"@, ipv6_text(address.bits))],
        RecordDataView::Mx { preference, exchange } => seq![
            ("preference"@, decimal(preference as nat)),
            ("exchange"@, exchange),
        ],
        RecordDataView::Ns(nameserver) => seq![("nameserver"@, nameserver)],
        RecordDataView::Soa { mname, rname, serial, refresh, retry, expire, minimum } => seq![
            ("mname"@, mname),
            ("rname"@, rname),
            ("serial"@, decimal(serial as nat)),
            ("refresh"@, decimal(refresh as nat)),
            ("retry"@, decimal(retry as nat)),
            ("expire"@, decimal(expire as nat)),
            ("minimum"@, decimal(minimum as nat)),
        ],
        RecordDataView::Spf(text) => seq![("data"@, text)],
        RecordDataView::Txt(text) => seq![("data"@, text)],
        RecordDataView::Ptr(target) => seq![("target"@, target)],
        RecordDataView::Srv { priority, weight, port, target } => seq![
            ("priority"@, decimal(priority as nat)),
            ("weight"@, decimal(weight as nat)),
            ("port"@, decimal(port as nat)),
            ("target"@, target),
        ],
        RecordDataView::Caa { flags, tag, value } => seq![
            ("flags"@, decimal(flags as nat)),
            ("tag"@, tag),
            ("value"@, value),
        ],
        RecordDataView::Cname(target) => seq![("target"@, target)],
    }
}

/// The texts of a list of key/value rows.
pub open spec fn row_views(rows: Seq<(String, String)>) -> Seq<(Seq<char>, Seq<char>)> {
    rows.map_values(|row: (String, String)| (row.0@, row.1@))
}

fn row(key: &str, value: String) -> (r: (String, String))
    ensures
        r.0@ == key@,
        r.1@ == value@,
{
    (String::from_str(key), value)
}

/// The key/value rows of a payload.
pub fn record_data_rows(data: &RecordData) -> (rows: Vec<(String, String)>)
    ensures
        row_views(rows@) == data_rows(data@),
{
    let mut rows: Vec<(String, String)> = Vec::new();
    match data {
        RecordData::A(address) => {
            rows.push(row("address", address.to_text()));
        },
        RecordData::Aaaa(address) => {
            rows.push(row("address", address.to_text()));
        },
        RecordData::Mx { preference, exchange } => {
            rows.push(row("preference", decimal_string(*preference as u64)));
            rows.push(row("exchange", exchange.clone()));
        },
        RecordData::Ns(nameserver) => {
            rows.push(row("nameserver", nameserver.clone()));
        },
        RecordData::Soa { mname, rname, serial, refresh, retry, expire, minimum } => {
            rows.push(row("mname", mname.clone()));
            rows.push(row("rname", rname.clone()));
            rows.push(row("serial", decimal_string(*serial as u64)));
            rows.push(row("refresh", decimal_string(*refresh as u64)));
            rows.push(row("retry", decimal_string(*retry as u64)));
            rows.push(row("expire", decimal_string(*expire as u64)));
            rows.push(row("minimum", decimal_string(*minimum as u64)));
        },
        RecordData::Spf(text) => {
            rows.push(row("data", text.clone()));
        },
        RecordData::Txt(text) => {
            rows.push(row("data", text.clone()));
        },
        RecordData::Ptr(target) => {
            rows.push(row("target", target.clone()));
        },
        RecordData::Srv { priority, weight, port, target } => {
            rows.push(row("priority", decimal_string(*priority as u64)));
            rows.push(row("weight", decimal_string(*weight as u64)));
            rows.push(row("port", decimal_string(*port as u64)));
            rows.push(row("target", target.clone()));
        },
        RecordData::Caa { flags, tag, value } => {
            rows.push(row("flags", decimal_string(*flags as u64)));
            rows.push(row("tag", tag.clone()));
            rows.push(row("value", value.clone()));
        },
        RecordData::Cname(target) => {
            rows.push(row("target", target.clone()));
        },
    }
    assert(row_views(rows@) =~= data_rows(data@));
    rows
}

} // verus!
