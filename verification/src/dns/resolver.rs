//! The resolver's configuration, and the rules that turn the answers of a
//! lookup into records.
//!
//! The lookups themselves are network operations: they are made outside
//! this library, which is handed their outcome.

use vstd::prelude::*;
use vstd::string::*;
use crate::dns::{DnsError, DnsErrorView};
use crate::dns::address::{IpAddress, Ipv4Address, Ipv6Address, address_of, parse_address};
use crate::dns::answer::{
    WireData,
    WireValue,
    join_text_parts,
    joined_text,
    to_unsigned_or_zero,
    unsigned_or_zero,
};
use crate::dns::record::{
    DnsRecord,
    DnsRecordView,
    RecordDataView,
    all_well_formed,
    record_views,
};
use crate::utils::text::{
    chars_contain,
    chars_of,
    chars_start_with,
    contains_text,
    strip_trailing_dots,
    without_trailing_dots,
};

verus! {

/// The transport of a nameserver entry.
#[derive(Debug, Clone, Copy, PartialEq, Eq, Structural)]
pub enum Protocol {
    Udp,
    Tcp,
}

/// One nameserver that the resolver asks.
#[derive(Debug, Clone, Copy, PartialEq, Eq, Structural)]
pub struct NameServerEntry {
    pub address: IpAddress,
    pub port: u16,
    pub protocol: Protocol,
}

/// The port that DNS servers listen on.
pub const DNS_PORT: u16 = 53;

/// DNS helper struct for performing DNS queries: it holds which
/// nameservers to ask.
#[derive(Debug, Clone)]
pub struct DnsHelper {
    /// Whether the resolver's built-in default nameservers are used.
    pub use_defaults: bool,
    /// The explicit nameserver entries, in the order in which they are
    /// asked.
    pub name_servers: Vec<NameServerEntry>,
}

/// An MX answer: the exchange is in its printed form.
#[derive(Debug, Clone)]
pub struct MxAnswer {
    pub preference: u16,
    pub exchange: String,
}

/// An SOA answer: the names are in their printed form.
#[derive(Debug, Clone)]
pub struct SoaAnswer {
    pub mname: String,
    pub rname: String,
    pub serial: u32,
    pub refresh: i32,
    pub retry: i32,
    pub expire: i32,
    pub minimum: u32,
}

/// An SRV answer: the target is in its printed form.
#[derive(Debug, Clone)]
pub struct SrvAnswer {
    pub priority: u16,
    pub weight: u16,
    pub port: u16,
    pub target: String,
}

/// A record named `name` that holds `data`.
pub open spec fn record_of(name: Seq<char>, data: RecordDataView) -> DnsRecordView {
    DnsRecordView { record_type: data.kind(), name, data, ttl: None }
}

/// The entries of a resolver that asks each of `servers` over UDP.
pub open spec fn udp_entries(servers: Seq<IpAddress>) -> Seq<NameServerEntry> {
    Seq::new(
        servers.len(),
        |i: int| NameServerEntry { address: servers[i], port: DNS_PORT, protocol: Protocol::Udp },
    )
}

/// The entries of a resolver that asks each of `servers` over UDP and then
/// over TCP, on the given ports.
pub open spec fn udp_tcp_entries(servers: Seq<IpAddress>, tcp_port: u16, udp_port: u16) -> Seq<
    NameServerEntry,
> {
    Seq::new(
        2 * servers.len(),
        |i: int|
            if i % 2 == 0 {
                NameServerEntry { address: servers[i / 2], port: udp_port, protocol: Protocol::Udp }
            } else {
                NameServerEntry { address: servers[i / 2], port: tcp_port, protocol: Protocol::Tcp }
            },
    )
}

/// The A records of `host` for the answers of a lookup.
pub open spec fn a_records(host: Seq<char>, answers: Seq<Ipv4Address>) -> Seq<DnsRecordView> {
    Seq::new(answers.len(), |i: int| record_of(host, RecordDataView::A(answers[i])))
}

/// The AAAA records of `host` for the answers of a lookup.
pub open spec fn aaaa_records(host: Seq<char>, answers: Seq<Ipv6Address>) -> Seq<DnsRecordView> {
    Seq::new(answers.len(), |i: int| record_of(host, RecordDataView::Aaaa(answers[i])))
}

/// The MX records of `domain`: each exchange loses its trailing dots.
pub open spec fn mx_records(domain: Seq<char>, answers: Seq<MxAnswer>) -> Seq<DnsRecordView> {
    Seq::new(
        answers.len(),
        |i: int|
            record_of(
                domain,
                RecordDataView::Mx {
                    preference: answers[i].preference,
                    exchange: without_trailing_dots(answers[i].exchange@),
                },
            ),
    )
}

/// The NS records of `domain`: each nameserver loses its trailing dots.
pub open spec fn ns_records(domain: Seq<char>, answers: Seq<String>) -> Seq<DnsRecordView> {
    Seq::new(
        answers.len(),
        |i: int| record_of(domain, RecordDataView::Ns(without_trailing_dots(answers[i]@))),
    )
}

/// The SOA records of `domain`: names lose their trailing dots, negative
/// times become 0.
pub open spec fn soa_records(domain: Seq<char>, answers: Seq<SoaAnswer>) -> Seq<DnsRecordView> {
    Seq::new(
        answers.len(),
        |i: int|
            record_of(
                domain,
                RecordDataView::Soa {
                    mname: without_trailing_dots(answers[i].mname@),
                    rname: without_trailing_dots(answers[i].rname@),
                    serial: answers[i].serial,
                    refresh: unsigned_or_zero(answers[i].refresh),
                    retry: unsigned_or_zero(answers[i].retry),
                    expire: unsigned_or_zero(answers[i].expire),
                    minimum: answers[i].minimum,
                },
            ),
    )
}

/// The TXT records of `domain`: the parts of each answer are decoded and
/// joined.
pub open spec fn txt_records(domain: Seq<char>, answers: Seq<Vec<Vec<u8>>>) -> Seq<
    DnsRecordView,
> {
    Seq::new(
        answers.len(),
        |i: int|
            record_of(
                domain,
                RecordDataView::Txt(joined_text(answers[i]@, answers[i]@.len() as int)),
            ),
    )
}

/// The PTR records of the address `ip`: each target loses its trailing
/// dots.
pub open spec fn ptr_records(ip: Seq<char>, answers: Seq<String>) -> Seq<DnsRecordView> {
    Seq::new(
        answers.len(),
        |i: int| record_of(ip, RecordDataView::Ptr(without_trailing_dots(answers[i]@))),
    )
}

/// The SRV records of `service`: each target loses its trailing dots.
pub open spec fn srv_records(service: Seq<char>, answers: Seq<SrvAnswer>) -> Seq<DnsRecordView> {
    Seq::new(
        answers.len(),
        |i: int|
            record_of(
                service,
                RecordDataView::Srv {
                    priority: answers[i].priority,
                    weight: answers[i].weight,
                    port: answers[i].port,
                    target: without_trailing_dots(answers[i].target@),
                },
            ),
    )
}

/// The text that marks an SPF policy among TXT records.
pub open spec fn spf_marker() -> Seq<char> {
    "v=spf1"@
}

/// The SPF records among the first `n` TXT answers of `domain`: one for
/// each answer whose text begins with the SPF marker, with that text.
pub open spec fn spf_records(domain: Seq<char>, answers: Seq<Vec<Vec<u8>>>, n: int) -> Seq<
    DnsRecordView,
>
    decreases n,
{
    if n <= 0 {
        Seq::empty()
    } else {
        let text = joined_text(answers[n - 1]@, answers[n - 1]@.len() as int);
        if spf_marker().is_prefix_of(text) {
            spf_records(domain, answers, n - 1).push(record_of(domain, RecordDataView::Spf(text)))
        } else {
            spf_records(domain, answers, n - 1)
        }
    }
}

/// The CAA records among the first `n` raw answers: each CAA payload gives
/// a CAA record with its flags, tag and value. Answers with another
/// payload, or with none, give nothing.
pub open spec fn caa_records(domain: Seq<char>, answers: Seq<Option<WireData>>, n: int) -> Seq<
    DnsRecordView,
>
    decreases n,
{
    if n <= 0 {
        Seq::empty()
    } else {
        match answers[n - 1] {
            Some(WireData { value: WireValue::Caa { flags, tag, value }, .. }) => caa_records(
                domain,
                answers,
                n - 1,
            ).push(record_of(domain, RecordDataView::Caa { flags, tag: tag@, value: value@ })),
            _ => caa_records(domain, answers, n - 1),
        }
    }
}

/// The CNAME records among the first `n` raw answers: each target loses
/// its trailing dots. Answers with another payload, or with none, give
/// nothing.
pub open spec fn cname_records(host: Seq<char>, answers: Seq<Option<WireData>>, n: int) -> Seq<
    DnsRecordView,
>
    decreases n,
{
    if n <= 0 {
        Seq::empty()
    } else {
        match answers[n - 1] {
            Some(WireData { value: WireValue::Cname(target), .. }) => cname_records(
                host,
                answers,
                n - 1,
            ).push(record_of(host, RecordDataView::Cname(without_trailing_dots(target@)))),
            _ => cname_records(host, answers, n - 1),
        }
    }
}

/// The text by which a resolution failure says that the name has no record
/// of the kind that was asked for.
pub open spec fn absence_marker() -> Seq<char> {
    "no record found"@
}

/// Whether a failed lookup only says that no record exists: a resolution
/// failure whose message holds the absence marker.
pub open spec fn signals_absence(error: DnsErrorView) -> bool {
    match error {
        DnsErrorView::Resolution(m) => contains_text(m, absence_marker()),
        _ => false,
    }
}

/// What a lookup gives once its answers are turned into records by
/// `records`: a failed lookup fails with the same error.
pub open spec fn lookup_records<A>(
    lookup: Result<Vec<A>, DnsError>,
    records: spec_fn(Seq<A>) -> Seq<DnsRecordView>,
) -> Result<Seq<DnsRecordView>, DnsErrorView> {
    match lookup {
        Ok(answers) => Ok(records(answers@)),
        Err(e) => Err(e@),
    }
}

/// `r` is the result `expected`, up to views.
pub open spec fn is_result(
    r: Result<Vec<DnsRecord>, DnsError>,
    expected: Result<Seq<DnsRecordView>, DnsErrorView>,
) -> bool {
    match r {
        Ok(records) => expected == Ok::<Seq<DnsRecordView>, DnsErrorView>(record_views(records@))
            && all_well_formed(record_views(records@)),
        Err(e) => expected == Err::<Seq<DnsRecordView>, DnsErrorView>(e@),
    }
}

/// The records of a combined address lookup: the A records, then the AAAA
/// records; a failed lookup of either kind gives none of that kind.
pub open spec fn ip_records(
    host: Seq<char>,
    a_lookup: Result<Vec<Ipv4Address>, DnsError>,
    aaaa_lookup: Result<Vec<Ipv6Address>, DnsError>,
) -> Seq<DnsRecordView> {
    (match a_lookup {
        Ok(answers) => a_records(host, answers@),
        Err(_) => Seq::empty(),
    }) + (match aaaa_lookup {
        Ok(answers) => aaaa_records(host, answers@),
        Err(_) => Seq::empty(),
    })
}

/// The outcome of a CAA lookup: a lookup that failed only because no
/// record exists succeeds with no records; every other failure stays.
pub open spec fn caa_result(domain: Seq<char>, lookup: Result<Vec<Option<WireData>>, DnsError>)
    -> Result<Seq<DnsRecordView>, DnsErrorView> {
    match lookup {
        Ok(answers) => Ok(caa_records(domain, answers@, answers@.len() as int)),
        Err(e) => if signals_absence(e@) {
            Ok(Seq::empty())
        } else {
            Err(e@)
        },
    }
}

/// The outcome of a PTR lookup for the text `ip`: a text that is no IP
/// address fails before the lookup counts.
pub open spec fn ptr_result(ip: Seq<char>, lookup: Result<Vec<String>, DnsError>) -> Result<
    Seq<DnsRecordView>,
    DnsErrorView,
> {
    if address_of(ip) is None {
        Err(DnsErrorView::AddrParse("invalid IP address syntax"@))
    } else {
        lookup_records(lookup, |answers: Seq<String>| ptr_records(ip, answers))
    }
}

impl DnsHelper {
    /// Create a new DNS helper that asks the resolver's default
    /// nameservers.
    pub fn new(_domain: String) -> (r: Result<Self, DnsError>)
        ensures
            r matches Ok(helper) && helper.use_defaults && helper.name_servers@.len() == 0,
    {
        Ok(Self { use_defaults: true, name_servers: Vec::new() })
    }

    /// Create a new DNS helper with custom nameservers, each asked over UDP
    /// on the DNS port.
    pub fn with_nameservers(_domain: String, nameservers: Vec<IpAddress>) -> (r: Result<
        Self,
        DnsError,
    >)
        ensures
            r matches Ok(helper) && !helper.use_defaults && helper.name_servers@ == udp_entries(
                nameservers@,
            ),
    {
        let mut entries: Vec<NameServerEntry> = Vec::new();
        let mut i: usize = 0;
        while i < nameservers.len()
            invariant
                i <= nameservers.len(),
                entries@ == udp_entries(nameservers@.take(i as int)),
            decreases nameservers.len() - i,
        {
            entries.push(
                NameServerEntry {
                    address: nameservers[i],
                    port: DNS_PORT,
                    protocol: Protocol::Udp,
                },
            );
            assert(entries@ =~= udp_entries(nameservers@.take(i as int + 1)));
            i += 1;
        }
        assert(nameservers@.take(i as int) =~= nameservers@);
        Ok(Self { use_defaults: false, name_servers: entries })
    }

    /// Create a new DNS helper with custom nameservers and ports: each
    /// nameserver is asked over UDP on `udp_port` and over TCP on
    /// `tcp_port`.
    pub fn with_nameservers_and_ports(
        _domain: String,
        nameservers: Vec<IpAddress>,
        tcp_port: u16,
        udp_port: u16,
    ) -> (r: Result<Self, DnsError>)
        ensures
            r matches Ok(helper) && !helper.use_defaults && helper.name_servers@
                == udp_tcp_entries(nameservers@, tcp_port, udp_port),
    {
        let mut entries: Vec<NameServerEntry> = Vec::new();
        let mut i: usize = 0;
        while i < nameservers.len()
            invariant
                i <= nameservers.len(),
                entries@ == udp_tcp_entries(nameservers@.take(i as int), tcp_port, udp_port),
            decreases nameservers.len() - i,
        {
            entries.push(
                NameServerEntry {
                    address: nameservers[i],
                    port: udp_port,
                    protocol: Protocol::Udp,
                },
            );
            entries.push(
                NameServerEntry {
                    address: nameservers[i],
                    port: tcp_port,
                    protocol: Protocol::Tcp,
                },
            );
            assert(entries@ =~= udp_tcp_entries(
                nameservers@.take(i as int + 1),
                tcp_port,
                udp_port,
            ));
            i += 1;
        }
        assert(nameservers@.take(i as int) =~= nameservers@);
        Ok(Self { use_defaults: false, name_servers: entries })
    }

    /// The A records of `host` for the outcome of an IPv4 lookup.
    pub fn get_a(&self, host: &str, lookup: Result<Vec<Ipv4Address>, DnsError>) -> (r: Result<
        Vec<DnsRecord>,
        DnsError,
    >)
        ensures
            is_result(r, lookup_records(lookup, |a: Seq<Ipv4Address>| a_records(host@, a))),
    {
        match lookup {
            Ok(answers) => {
                let mut records: Vec<DnsRecord> = Vec::new();
                let mut i: usize = 0;
                while i < answers.len()
                    invariant
                        i <= answers.len(),
                        records@.len() == i,
                        forall|k: int|
                            0 <= k < i ==> (#[trigger] records@[k])@ == a_records(host@, answers@)[k],
                        all_well_formed(record_views(records@)),
                    decreases answers.len() - i,
                {
                    records.push(DnsRecord::new_a(String::from_str(host), answers[i]));
                    i += 1;
                }
                assert(record_views(records@) =~= a_records(host@, answers@));
                Ok(records)
            },
            Err(e) => Err(e),
        }
    }

    /// The AAAA records of `host` for the outcome of an IPv6 lookup.
    pub fn get_aaaa(&self, host: &str, lookup: Result<Vec<Ipv6Address>, DnsError>) -> (r: Result<
        Vec<DnsRecord>,
        DnsError,
    >)
        ensures
            is_result(r, lookup_records(lookup, |a: Seq<Ipv6Address>| aaaa_records(host@, a))),
    {
        match lookup {
            Ok(answers) => {
                let mut records: Vec<DnsRecord> = Vec::new();
                let mut i: usize = 0;
                while i < answers.len()
                    invariant
                        i <= answers.len(),
                        records@.len() == i,
                        forall|k: int|
                            0 <= k < i ==> (#[trigger] records@[k])@ == aaaa_records(host@, answers@)[k],
                        all_well_formed(record_views(records@)),
                    decreases answers.len() - i,
                {
                    records.push(DnsRecord::new_aaaa(String::from_str(host), answers[i]));
                    i += 1;
                }
                assert(record_views(records@) =~= aaaa_records(host@, answers@));
                Ok(records)
            },
            Err(e) => Err(e),
        }
    }

    /// Resolve both A and AAAA records: the union of the two lookups. A
    /// lookup that failed contributes nothing and fails nothing.
    pub fn get_ip(
        &self,
        hostname: &str,
        a_lookup: Result<Vec<Ipv4Address>, DnsError>,
        aaaa_lookup: Result<Vec<Ipv6Address>, DnsError>,
    ) -> (r: Result<Vec<DnsRecord>, DnsError>)
        ensures
            r matches Ok(records) && record_views(records@) == ip_records(
                hostname@,
                a_lookup,
                aaaa_lookup,
            ) && all_well_formed(record_views(records@)),
    {
        let mut records: Vec<DnsRecord> = Vec::new();
        match self.get_a(hostname, a_lookup) {
            Ok(mut a_records) => {
                records.append(&mut a_records);
            },
            Err(_) => {},
        }
        let ghost first = records@;
        match self.get_aaaa(hostname, aaaa_lookup) {
            Ok(mut aaaa_records) => {
                let ghost second = aaaa_records@;
                records.append(&mut aaaa_records);
                assert(record_views(records@) =~= record_views(first) + record_views(second));
            },
            Err(_) => {
                assert(record_views(records@) =~= record_views(first) + Seq::empty());
            },
        }
        Ok(records)
    }

    /// The MX records of `domain` for the outcome of an MX lookup.
    pub fn get_mx(&self, domain: &str, lookup: Result<Vec<MxAnswer>, DnsError>) -> (r: Result<
        Vec<DnsRecord>,
        DnsError,
    >)
        ensures
            is_result(r, lookup_records(lookup, |a: Seq<MxAnswer>| mx_records(domain@, a))),
    {
        match lookup {
            Ok(answers) => {
                let mut records: Vec<DnsRecord> = Vec::new();
                let mut i: usize = 0;
                while i < answers.len()
                    invariant
                        i <= answers.len(),
                        records@.len() == i,
                        forall|k: int|
                            0 <= k < i ==> (#[trigger] records@[k])@ == mx_records(domain@, answers@)[k],
                        all_well_formed(record_views(records@)),
                    decreases answers.len() - i,
                {
                    let exchange = strip_trailing_dots(answers[i].exchange.as_str());
                    records.push(
                        DnsRecord::new_mx(String::from_str(domain), answers[i].preference, exchange),
                    );
                    i += 1;
                }
                assert(record_views(records@) =~= mx_records(domain@, answers@));
                Ok(records)
            },
            Err(e) => Err(e),
        }
    }

    /// The NS records of `domain` for the outcome of an NS lookup.
    pub fn get_ns(&self, domain: &str, lookup: Result<Vec<String>, DnsError>) -> (r: Result<
        Vec<DnsRecord>,
        DnsError,
    >)
        ensures
            is_result(r, lookup_records(lookup, |a: Seq<String>| ns_records(domain@, a))),
    {
        match lookup {
            Ok(answers) => {
                let mut records: Vec<DnsRecord> = Vec::new();
                let mut i: usize = 0;
                while i < answers.len()
                    invariant
                        i <= answers.len(),
                        records@.len() == i,
                        forall|k: int|
                            0 <= k < i ==> (#[trigger] records@[k])@ == ns_records(domain@, answers@)[k],
                        all_well_formed(record_views(records@)),
                    decreases answers.len() - i,
                {
                    let nameserver = strip_trailing_dots(answers[i].as_str());
                    records.push(DnsRecord::new_ns(String::from_str(domain), nameserver));
                    i += 1;
                }
                assert(record_views(records@) =~= ns_records(domain@, answers@));
                Ok(records)
            },
            Err(e) => Err(e),
        }
    }

    /// The SOA records of `domain` for the outcome of an SOA lookup.
    pub fn get_soa(&self, domain: &str, lookup: Result<Vec<SoaAnswer>, DnsError>) -> (r: Result<
        Vec<DnsRecord>,
        DnsError,
    >)
        ensures
            is_result(r, lookup_records(lookup, |a: Seq<SoaAnswer>| soa_records(domain@, a))),
    {
        match lookup {
            Ok(answers) => {
                let mut records: Vec<DnsRecord> = Vec::new();
                let mut i: usize = 0;
                while i < answers.len()
                    invariant
                        i <= answers.len(),
                        records@.len() == i,
                        forall|k: int|
                            0 <= k < i ==> (#[trigger] records@[k])@ == soa_records(domain@, answers@)[k],
                        all_well_formed(record_views(records@)),
                    decreases answers.len() - i,
                {
                    let answer = &answers[i];
                    records.push(
                        DnsRecord::new_soa(
                            String::from_str(domain),
                            strip_trailing_dots(answer.mname.as_str()),
                            strip_trailing_dots(answer.rname.as_str()),
                            answer.serial,
                            to_unsigned_or_zero(answer.refresh),
                            to_unsigned_or_zero(answer.retry),
                            to_unsigned_or_zero(answer.expire),
                            answer.minimum,
                        ),
                    );
                    i += 1;
                }
                assert(record_views(records@) =~= soa_records(domain@, answers@));
                Ok(records)
            },
            Err(e) => Err(e),
        }
    }

    /// The TXT records of `domain` for the outcome of a TXT lookup.
    pub fn get_txt(&self, domain: &str, lookup: Result<Vec<Vec<Vec<u8>>>, DnsError>) -> (r:
        Result<Vec<DnsRecord>, DnsError>)
        ensures
            is_result(r, lookup_records(lookup, |a: Seq<Vec<Vec<u8>>>| txt_records(domain@, a))),
    {
        match lookup {
            Ok(answers) => Ok(txt_records_from(domain, &answers)),
            Err(e) => Err(e),
        }
    }

    /// The SPF records of `domain` for the outcome of a TXT lookup: SPF
    /// policies are TXT records whose text begins with `v=spf1`.
    pub fn get_spf(&self, domain: &str, lookup: Result<Vec<Vec<Vec<u8>>>, DnsError>) -> (r:
        Result<Vec<DnsRecord>, DnsError>)
        ensures
            is_result(
                r,
                lookup_records(
                    lookup,
                    |a: Seq<Vec<Vec<u8>>>| spf_records(domain@, a, a.len() as int),
                ),
            ),
    {
        match lookup {
            Ok(answers) => Ok(spf_records_from(domain, &answers)),
            Err(e) => Err(e),
        }
    }

    /// The PTR records of the address `ip` for the outcome of a reverse
    /// lookup.
    pub fn get_ptr(&self, ip: &str, lookup: Result<Vec<String>, DnsError>) -> (r: Result<
        Vec<DnsRecord>,
        DnsError,
    >)
        ensures
            is_result(r, ptr_result(ip@, lookup)),
    {
        if parse_address(ip).is_none() {
            return Err(DnsError::AddrParse(String::from_str("invalid IP address syntax")));
        }
        match lookup {
            Ok(answers) => {
                let mut records: Vec<DnsRecord> = Vec::new();
                let mut i: usize = 0;
                while i < answers.len()
                    invariant
                        i <= answers.len(),
                        records@.len() == i,
                        forall|k: int|
                            0 <= k < i ==> (#[trigger] records@[k])@ == ptr_records(ip@, answers@)[k],
                        all_well_formed(record_views(records@)),
                    decreases answers.len() - i,
                {
                    let target = strip_trailing_dots(answers[i].as_str());
                    records.push(DnsRecord::new_ptr(String::from_str(ip), target));
                    i += 1;
                }
                assert(record_views(records@) =~= ptr_records(ip@, answers@));
                Ok(records)
            },
            Err(e) => Err(e),
        }
    }

    /// The SRV records of `service` for the outcome of an SRV lookup.
    pub fn get_srv(&self, service: &str, lookup: Result<Vec<SrvAnswer>, DnsError>) -> (r: Result<
        Vec<DnsRecord>,
        DnsError,
    >)
        ensures
            is_result(r, lookup_records(lookup, |a: Seq<SrvAnswer>| srv_records(service@, a))),
    {
        match lookup {
            Ok(answers) => {
                let mut records: Vec<DnsRecord> = Vec::new();
                let mut i: usize = 0;
                while i < answers.len()
                    invariant
                        i <= answers.len(),
                        records@.len() == i,
                        forall|k: int|
                            0 <= k < i ==> (#[trigger] records@[k])@ == srv_records(service@, answers@)[k],
                        all_well_formed(record_views(records@)),
                    decreases answers.len() - i,
                {
                    let answer = &answers[i];
                    records.push(
                        DnsRecord::new_srv(
                            String::from_str(service),
                            answer.priority,
                            answer.weight,
                            answer.port,
                            strip_trailing_dots(answer.target.as_str()),
                        ),
                    );
                    i += 1;
                }
                assert(record_views(records@) =~= srv_records(service@, answers@));
                Ok(records)
            },
            Err(e) => Err(e),
        }
    }

    /// The records of `domain` for the outcome of a raw CAA lookup.
    ///
    /// A lookup that failed because no record was found is no failure: it
    /// gives an empty list. Any other failure, a timeout among them, stays
    /// a failure.
    pub fn get_caa(&self, domain: &str, lookup: Result<Vec<Option<WireData>>, DnsError>) -> (r:
        Result<Vec<DnsRecord>, DnsError>)
        ensures
            is_result(r, caa_result(domain@, lookup)),
    {
        match lookup {
            Ok(answers) => {
                let mut records: Vec<DnsRecord> = Vec::new();
                let mut i: usize = 0;
                assert(record_views(records@) =~= caa_records(domain@, answers@, 0));
                while i < answers.len()
                    invariant
                        i <= answers.len(),
                        record_views(records@) == caa_records(domain@, answers@, i as int),
                        all_well_formed(record_views(records@)),
                    decreases answers.len() - i,
                {
                    match &answers[i] {
                        Some(WireData { value: WireValue::Caa { flags, tag, value }, .. }) => {
                            let ghost before = records@;
                            let record = DnsRecord::new_caa(
                                String::from_str(domain),
                                *flags,
                                tag.clone(),
                                value.clone(),
                            );
                            records.push(record);
                            assert(record_views(records@) =~= record_views(before).push(record@));
                        },
                        _ => {},
                    }
                    i += 1;
                }
                Ok(records)
            },
            Err(e) => {
                if failure_signals_absence(&e) {
                    let records: Vec<DnsRecord> = Vec::new();
                    assert(record_views(records@) =~= Seq::empty());
                    Ok(records)
                } else {
                    Err(e)
                }
            },
        }
    }

    /// The CNAME records of `host` for the outcome of a raw CNAME lookup.
    pub fn get_cname(&self, host: &str, lookup: Result<Vec<Option<WireData>>, DnsError>) -> (r:
        Result<Vec<DnsRecord>, DnsError>)
        ensures
            is_result(
                r,
                lookup_records(
                    lookup,
                    |a: Seq<Option<WireData>>| cname_records(host@, a, a.len() as int),
                ),
            ),
    {
        match lookup {
            Ok(answers) => {
                let mut records: Vec<DnsRecord> = Vec::new();
                let mut i: usize = 0;
                assert(record_views(records@) =~= cname_records(host@, answers@, 0));
                while i < answers.len()
                    invariant
                        i <= answers.len(),
                        record_views(records@) == cname_records(host@, answers@, i as int),
                        all_well_formed(record_views(records@)),
                    decreases answers.len() - i,
                {
                    match &answers[i] {
                        Some(WireData { value: WireValue::Cname(target), .. }) => {
                            let ghost before = records@;
                            let record = DnsRecord::new_cname(
                                String::from_str(host),
                                strip_trailing_dots(target.as_str()),
                            );
                            records.push(record);
                            assert(record_views(records@) =~= record_views(before).push(record@));
                        },
                        _ => {},
                    }
                    i += 1;
                }
                Ok(records)
            },
            Err(e) => Err(e),
        }
    }
}

/// The TXT records of `domain` for the answers of a TXT lookup.
pub fn txt_records_from(domain: &str, answers: &Vec<Vec<Vec<u8>>>) -> (records: Vec<DnsRecord>)
    ensures
        record_views(records@) == txt_records(domain@, answers@),
        all_well_formed(record_views(records@)),
{
    let mut records: Vec<DnsRecord> = Vec::new();
    let mut i: usize = 0;
    while i < answers.len()
        invariant
            i <= answers.len(),
            records@.len() == i,
            forall|k: int|
                0 <= k < i ==> (#[trigger] records@[k])@ == txt_records(domain@, answers@)[k],
            all_well_formed(record_views(records@)),
        decreases answers.len() - i,
    {
        let text = join_text_parts(&answers[i]);
        records.push(DnsRecord::new_txt(String::from_str(domain), text));
        i += 1;
    }
    assert(record_views(records@) =~= txt_records(domain@, answers@));
    records
}

/// The SPF records of `domain` among the answers of a TXT lookup.
pub fn spf_records_from(domain: &str, answers: &Vec<Vec<Vec<u8>>>) -> (records: Vec<DnsRecord>)
    ensures
        record_views(records@) == spf_records(domain@, answers@, answers@.len() as int),
        all_well_formed(record_views(records@)),
{
    let marker = chars_of("v=spf1");
    let mut records: Vec<DnsRecord> = Vec::new();
    let mut i: usize = 0;
    assert(record_views(records@) =~= spf_records(domain@, answers@, 0));
    while i < answers.len()
        invariant
            i <= answers.len(),
            marker@ == spf_marker(),
            record_views(records@) == spf_records(domain@, answers@, i as int),
            all_well_formed(record_views(records@)),
        decreases answers.len() - i,
    {
        let text = join_text_parts(&answers[i]);
        if chars_start_with(&chars_of(text.as_str()), &marker) {
            let ghost before = records@;
            let record = DnsRecord::new_spf(String::from_str(domain), text);
            records.push(record);
            assert(record_views(records@) =~= record_views(before).push(record@));
        }
        i += 1;
    }
    records
}

/// Whether a failed lookup only says that no record exists.
pub fn failure_signals_absence(error: &DnsError) -> (r: bool)
    ensures
        r == signals_absence(error@),
{
    match error {
        DnsError::Resolution(m) => chars_contain(
            &chars_of(m.as_str()),
            &chars_of("no record found"),
        ),
        _ => false,
    }
}

} // verus!
