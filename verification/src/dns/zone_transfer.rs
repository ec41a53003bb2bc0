//! Zone transfer: what is checked before the transfer, and how the answer
//! records of a transfer become records of the model.

use vstd::prelude::*;
use vstd::string::*;
use crate::dns::{DnsError, DnsErrorView};
use crate::dns::answer::{WireData, WireRecord, WireType, WireValue, join_text_parts, joined_text,
    to_unsigned_or_zero, unsigned_or_zero};
use crate::dns::record::{
    DnsRecord,
    DnsRecordView,
    RecordDataView,
    all_well_formed,
    record_views,
};
use crate::utils::text::{strip_trailing_dots, without_trailing_dots};

verus! {

/// The error text with which the DNS library refuses `name` as an ASCII
/// domain name; `None` where it accepts the name.
pub uninterp spec fn ascii_name_error(name: Seq<char>) -> Option<Seq<char>>;

/// Parses a domain name through `trust_dns_client::rr::Name::from_ascii`
/// and hands back the text of the error, if any.
#[verifier::external_body]
fn name_error(name: &str) -> (r: Option<String>)
    ensures
        match r {
            Some(m) => ascii_name_error(name@) == Some(m@),
            None => ascii_name_error(name@) is None,
        },
{
    match trust_dns_client::rr::Name::from_ascii(name) {
        Ok(_) => None,
        Err(e) => Some(e.to_string()),
    }
}

/// The record that an answer record becomes, or the reason why it has none.
///
/// The name loses its trailing dots, and so does every name in the payload.
/// A record whose payload is not of the announced type is invalid. A record
/// of a type that the model does not know becomes a TXT record that holds
/// the payload's generic text.
pub open spec fn converted(record: WireRecord) -> Result<DnsRecordView, DnsErrorView> {
    let name = without_trailing_dots(record.name@);
    let made = |data: RecordDataView|
        Ok::<DnsRecordView, DnsErrorView>(
            DnsRecordView { record_type: data.kind(), name, data, ttl: None },
        );
    let invalid = |m: Seq<char>|
        Err::<DnsRecordView, DnsErrorView>(DnsErrorView::InvalidRecord(m));
    match record.record_type {
        WireType::A => match record.data {
            Some(WireData { value: WireValue::A(address), .. }) => made(RecordDataView::A(address)),
            _ => invalid("Invalid A record"@),
        },
        WireType::Aaaa => match record.data {
            Some(WireData { value: WireValue::Aaaa(address), .. }) => made(
                RecordDataView::Aaaa(address),
            ),
            _ => invalid("Invalid AAAA record"@),
        },
        WireType::Mx => match record.data {
            Some(WireData { value: WireValue::Mx { preference, exchange }, .. }) => made(
                RecordDataView::Mx { preference, exchange: without_trailing_dots(exchange@) },
            ),
            _ => invalid("Invalid MX record"@),
        },
        WireType::Ns => match record.data {
            Some(WireData { value: WireValue::Ns(nameserver), .. }) => made(
                RecordDataView::Ns(without_trailing_dots(nameserver@)),
            ),
            _ => invalid("Invalid NS record"@),
        },
        WireType::Txt => match record.data {
            Some(WireData { value: WireValue::Txt(parts), .. }) => made(
                RecordDataView::Txt(joined_text(parts@, parts@.len() as int)),
            ),
            _ => invalid("Invalid TXT record"@),
        },
        WireType::Ptr => match record.data {
            Some(WireData { value: WireValue::Ptr(target), .. }) => made(
                RecordDataView::Ptr(without_trailing_dots(target@)),
            ),
            _ => invalid("Invalid PTR record"@),
        },
        WireType::Cname => match record.data {
            Some(WireData { value: WireValue::Cname(target), .. }) => made(
                RecordDataView::Cname(without_trailing_dots(target@)),
            ),
            _ => invalid("Invalid CNAME record"@),
        },
        WireType::Soa => match record.data {
            Some(
                WireData {
                    value: WireValue::Soa { mname, rname, serial, refresh, retry, expire, minimum },
                    ..
                },
            ) => made(
                RecordDataView::Soa {
                    mname: without_trailing_dots(mname@),
                    rname: without_trailing_dots(rname@),
                    serial,
                    refresh: unsigned_or_zero(refresh),
                    retry: unsigned_or_zero(retry),
                    expire: unsigned_or_zero(expire),
                    minimum,
                },
            ),
            _ => invalid("Invalid SOA record"@),
        },
        WireType::Srv => match record.data {
            Some(WireData { value: WireValue::Srv { priority, weight, port, target }, .. }) => made(
                RecordDataView::Srv {
                    priority,
                    weight,
                    port,
                    target: without_trailing_dots(target@),
                },
            ),
            _ => invalid("Invalid SRV record"@),
        },
        WireType::Caa => match record.data {
            Some(WireData { value: WireValue::Caa { flags, tag, value }, .. }) => made(
                RecordDataView::Caa { flags, tag: tag@, value: value@ },
            ),
            _ => invalid("Invalid CAA record"@),
        },
        WireType::Other => match record.data {
            Some(data) => made(RecordDataView::Txt(data.text@)),
            None => invalid("Record has no data"@),
        },
    }
}

fn invalid_record(message: &str) -> (r: Result<DnsRecord, DnsError>)
    ensures
        r matches Err(e) && e@ == DnsErrorView::InvalidRecord(message@),
{
    Err(DnsError::InvalidRecord(String::from_str(message)))
}

/// The record of the model for one answer record of a transfer.
pub fn convert_record(record: &WireRecord) -> (r: Result<DnsRecord, DnsError>)
    ensures
        match r {
            Ok(made) => converted(*record) == Ok::<DnsRecordView, DnsErrorView>(made@),
            Err(e) => converted(*record) == Err::<DnsRecordView, DnsErrorView>(e@),
        },
        r matches Ok(made) ==> made@.well_formed(),
{
    let name = strip_trailing_dots(record.name.as_str());
    match record.record_type {
        WireType::A => match &record.data {
            Some(WireData { value: WireValue::A(address), .. }) => Ok(
                DnsRecord::new_a(name, *address),
            ),
            _ => invalid_record("Invalid A record"),
        },
        WireType::Aaaa => match &record.data {
            Some(WireData { value: WireValue::Aaaa(address), .. }) => Ok(
                DnsRecord::new_aaaa(name, *address),
            ),
            _ => invalid_record("Invalid AAAA record"),
        },
        WireType::Mx => match &record.data {
            Some(WireData { value: WireValue::Mx { preference, exchange }, .. }) => Ok(
                DnsRecord::new_mx(name, *preference, strip_trailing_dots(exchange.as_str())),
            ),
            _ => invalid_record("Invalid MX record"),
        },
        WireType::Ns => match &record.data {
            Some(WireData { value: WireValue::Ns(nameserver), .. }) => Ok(
                DnsRecord::new_ns(name, strip_trailing_dots(nameserver.as_str())),
            ),
            _ => invalid_record("Invalid NS record"),
        },
        WireType::Txt => match &record.data {
            Some(WireData { value: WireValue::Txt(parts), .. }) => Ok(
                DnsRecord::new_txt(name, join_text_parts(parts)),
            ),
            _ => invalid_record("Invalid TXT record"),
        },
        WireType::Ptr => match &record.data {
            Some(WireData { value: WireValue::Ptr(target), .. }) => Ok(
                DnsRecord::new_ptr(name, strip_trailing_dots(target.as_str())),
            ),
            _ => invalid_record("Invalid PTR record"),
        },
        WireType::Cname => match &record.data {
            Some(WireData { value: WireValue::Cname(target), .. }) => Ok(
                DnsRecord::new_cname(name, strip_trailing_dots(target.as_str())),
            ),
            _ => invalid_record("Invalid CNAME record"),
        },
        WireType::Soa => match &record.data {
            Some(
                WireData {
                    value: WireValue::Soa { mname, rname, serial, refresh, retry, expire, minimum },
                    ..
                },
            ) => Ok(
                DnsRecord::new_soa(
                    name,
                    strip_trailing_dots(mname.as_str()),
                    strip_trailing_dots(rname.as_str()),
                    *serial,
                    to_unsigned_or_zero(*refresh),
                    to_unsigned_or_zero(*retry),
                    to_unsigned_or_zero(*expire),
                    *minimum,
                ),
            ),
            _ => invalid_record("Invalid SOA record"),
        },
        WireType::Srv => match &record.data {
            Some(WireData { value: WireValue::Srv { priority, weight, port, target }, .. }) => Ok(
                DnsRecord::new_srv(
                    name,
                    *priority,
                    *weight,
                    *port,
                    strip_trailing_dots(target.as_str()),
                ),
            ),
            _ => invalid_record("Invalid SRV record"),
        },
        WireType::Caa => match &record.data {
            Some(WireData { value: WireValue::Caa { flags, tag, value }, .. }) => Ok(
                DnsRecord::new_caa(name, *flags, tag.clone(), value.clone()),
            ),
            _ => invalid_record("Invalid CAA record"),
        },
        WireType::Other => match &record.data {
            Some(data) => Ok(DnsRecord::new_txt(name, data.text.clone())),
            None => invalid_record("Record has no data"),
        },
    }
}

/// The records of the first `n` answers: each answer that has a record
/// gives it, the others give nothing.
pub open spec fn converted_answers(answers: Seq<WireRecord>, n: int) -> Seq<DnsRecordView>
    decreases n,
{
    if n <= 0 {
        Seq::empty()
    } else {
        match converted(answers[n - 1]) {
            Ok(record) => converted_answers(answers, n - 1).push(record),
            Err(_) => converted_answers(answers, n - 1),
        }
    }
}

/// The records of the answers of a transfer, in order; an answer that has
/// no record is left out and does not fail the others.
pub fn convert_answers(answers: &Vec<WireRecord>) -> (r: Vec<DnsRecord>)
    ensures
        record_views(r@) == converted_answers(answers@, answers@.len() as int),
        all_well_formed(record_views(r@)),
{
    let mut records: Vec<DnsRecord> = Vec::new();
    let mut i: usize = 0;
    assert(record_views(records@) =~= converted_answers(answers@, 0));
    while i < answers.len()
        invariant
            i <= answers.len(),
            record_views(records@) == converted_answers(answers@, i as int),
            all_well_formed(record_views(records@)),
        decreases answers.len() - i,
    {
        let ghost before = records@;
        match convert_record(&answers[i]) {
            Ok(record) => {
                records.push(record);
                assert(record_views(records@) =~= record_views(before).push(record@));
            },
            Err(_) => {},
        }
        i += 1;
    }
    records
}

/// What happened when the transfer was attempted against one nameserver.
#[derive(Debug, Clone)]
pub enum TransferOutcome {
    /// The nameserver's address could not be parsed; the text says why.
    InvalidNameserver(String),
    /// The connection failed; the text says why.
    ConnectFailed(String),
    /// The AXFR query failed; the text says why.
    QueryFailed(String),
    /// The transfer gave these answer records.
    Answers(Vec<WireRecord>),
}

/// The result of a transfer of `domain` that ended in `outcome`.
///
/// A domain that is no valid ASCII name fails before anything else is
/// looked at; then the failures of the attempt, each with its own kind and
/// prefix; a transfer that succeeded gives the records of its answers.
pub open spec fn transfer_result(domain: Seq<char>, outcome: TransferOutcome) -> Result<
    Seq<DnsRecordView>,
    DnsErrorView,
> {
    match ascii_name_error(domain) {
        Some(m) => Err(DnsErrorView::InvalidRecord("Invalid domain name: "@ + m)),
        None => match outcome {
            TransferOutcome::InvalidNameserver(m) => Err(
                DnsErrorView::InvalidRecord("Invalid nameserver address: "@ + m@),
            ),
            TransferOutcome::ConnectFailed(m) => Err(
                DnsErrorView::ZoneTransferFailed("Failed to connect to nameserver: "@ + m@),
            ),
            TransferOutcome::QueryFailed(m) => Err(
                DnsErrorView::ZoneTransferFailed("AXFR query failed: "@ + m@),
            ),
            TransferOutcome::Answers(answers) => Ok(converted_answers(answers@, answers@.len() as int)),
        },
    }
}

/// Checks that `domain` is a valid ASCII domain name, as a transfer needs.
pub fn check_zone_name(domain: &str) -> (r: Result<(), DnsError>)
    ensures
        match r {
            Ok(()) => ascii_name_error(domain@) is None,
            Err(e) => ascii_name_error(domain@) matches Some(m) && e@
                == DnsErrorView::InvalidRecord("Invalid domain name: "@ + m),
        },
{
    match name_error(domain) {
        Some(m) => Err(
            DnsError::InvalidRecord(String::from_str("Invalid domain name: ").concat(m.as_str())),
        ),
        None => Ok(()),
    }
}

/// The result of a zone transfer of `domain` from one nameserver, given
/// what happened when it was attempted.
pub fn zone_transfer(domain: &str, outcome: &TransferOutcome) -> (r: Result<
    Vec<DnsRecord>,
    DnsError,
>)
    ensures
        match r {
            Ok(records) => transfer_result(domain@, *outcome) == Ok::<
                Seq<DnsRecordView>,
                DnsErrorView,
            >(record_views(records@)),
            Err(e) => transfer_result(domain@, *outcome) == Err::<
                Seq<DnsRecordView>,
                DnsErrorView,
            >(e@),
        },
        r matches Ok(records) ==> all_well_formed(record_views(records@)),
{
    match check_zone_name(domain) {
        Err(e) => {
            return Err(e);
        },
        Ok(()) => {},
    }
    match outcome {
        TransferOutcome::InvalidNameserver(m) => Err(
            DnsError::InvalidRecord(
                String::from_str("Invalid nameserver address: ").concat(m.as_str()),
            ),
        ),
        TransferOutcome::ConnectFailed(m) => Err(
            DnsError::ZoneTransferFailed(
                String::from_str("Failed to connect to nameserver: ").concat(m.as_str()),
            ),
        ),
        TransferOutcome::QueryFailed(m) => Err(
            DnsError::ZoneTransferFailed(
                String::from_str("AXFR query failed: ").concat(m.as_str()),
            ),
        ),
        TransferOutcome::Answers(answers) => Ok(convert_answers(answers)),
    }
}

} // verus!
