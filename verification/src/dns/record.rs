//! DNS record kinds and the record structure that every technique fills.

use vstd::prelude::*;
use crate::dns::address::{Ipv4Address, Ipv6Address};

verus! {

/// The closed set of record kinds that the enumeration produces.
#[derive(Debug, Clone, Copy, PartialEq, Eq, Hash, Structural)]
pub enum RecordType {
    A,
    Aaaa,
    Mx,
    Ns,
    Soa,
    Spf,
    Txt,
    Ptr,
    Srv,
    Caa,
    Cname,
}

/// The payload of a record, one variant per record kind.
#[derive(Debug, Clone)]
pub enum RecordData {
    A(Ipv4Address),
    Aaaa(Ipv6Address),
    Mx { preference: u16, exchange: String },
    Ns(String),
    Soa {
        mname: String,
        rname: String,
        serial: u32,
        refresh: u32,
        retry: u32,
        expire: u32,
        minimum: u32,
    },
    Spf(String),
    Txt(String),
    Ptr(String),
    Srv { priority: u16, weight: u16, port: u16, target: String },
    Caa { flags: u8, tag: String, value: String },
    Cname(String),
}

/// One resolved DNS fact. A record cannot be changed once it is made, and
/// its kind is always the kind of its payload.
#[derive(Debug)]
pub struct DnsRecord {
    record_type: RecordType,
    name: String,
    data: RecordData,
    ttl: Option<u32>,
}

/// The mathematical value of a [`RecordData`]: texts are character sequences.
pub enum RecordDataView {
    A(Ipv4Address),
    Aaaa(Ipv6Address),
    Mx { preference: u16, exchange: Seq<char> },
    Ns(Seq<char>),
    Soa {
        mname: Seq<char>,
        rname: Seq<char>,
        serial: u32,
        refresh: u32,
        retry: u32,
        expire: u32,
        minimum: u32,
    },
    Spf(Seq<char>),
    Txt(Seq<char>),
    Ptr(Seq<char>),
    Srv { priority: u16, weight: u16, port: u16, target: Seq<char> },
    Caa { flags: u8, tag: Seq<char>, value: Seq<char> },
    Cname(Seq<char>),
}

/// The mathematical value of a [`DnsRecord`].
pub struct DnsRecordView {
    pub record_type: RecordType,
    pub name: Seq<char>,
    pub data: RecordDataView,
    pub ttl: Option<u32>,
}

impl RecordDataView {
    /// The record kind that this payload belongs to.
    pub open spec fn kind(self) -> RecordType {
        match self {
            RecordDataView::A(_) => RecordType::A,
            RecordDataView::Aaaa(_) => RecordType::Aaaa,
            RecordDataView::Mx { .. } => RecordType::Mx,
            RecordDataView::Ns(_) => RecordType::Ns,
            RecordDataView::Soa { .. } => RecordType::Soa,
            RecordDataView::Spf(_) => RecordType::Spf,
            RecordDataView::Txt(_) => RecordType::Txt,
            RecordDataView::Ptr(_) => RecordType::Ptr,
            RecordDataView::Srv { .. } => RecordType::Srv,
            RecordDataView::Caa { .. } => RecordType::Caa,
            RecordDataView::Cname(_) => RecordType::Cname,
        }
    }
}

impl DnsRecordView {
    /// The record's kind is the kind of its payload.
    pub open spec fn well_formed(self) -> bool {
        self.record_type == self.data.kind()
    }
}

impl View for RecordData {
    type V = RecordDataView;

    open spec fn view(&self) -> RecordDataView {
        match *self {
            RecordData::A(address) => RecordDataView::A(address),
            RecordData::Aaaa(address) => RecordDataView::Aaaa(address),
            RecordData::Mx { preference, exchange } => RecordDataView::Mx {
                preference,
                exchange: exchange@,
            },
            RecordData::Ns(nameserver) => RecordDataView::Ns(nameserver@),
            RecordData::Soa {
                mname,
                rname,
                serial,
                refresh,
                retry,
                expire,
                minimum,
            } => RecordDataView::Soa {
                mname: mname@,
                rname: rname@,
                serial,
                refresh,
                retry,
                expire,
                minimum,
            },
            RecordData::Spf(text) => RecordDataView::Spf(text@),
            RecordData::Txt(text) => RecordDataView::Txt(text@),
            RecordData::Ptr(target) => RecordDataView::Ptr(target@),
            RecordData::Srv { priority, weight, port, target } => RecordDataView::Srv {
                priority,
                weight,
                port,
                target: target@,
            },
            RecordData::Caa { flags, tag, value } => RecordDataView::Caa {
                flags,
                tag: tag@,
                value: value@,
            },
            RecordData::Cname(target) => RecordDataView::Cname(target@),
        }
    }
}

impl View for DnsRecord {
    type V = DnsRecordView;

    closed spec fn view(&self) -> DnsRecordView {
        DnsRecordView {
            record_type: self.record_type,
            name: self.name@,
            data: self.data@,
            ttl: self.ttl,
        }
    }
}

/// The views of a sequence of records, in order.
pub open spec fn record_views(records: Seq<DnsRecord>) -> Seq<DnsRecordView> {
    records.map_values(|r: DnsRecord| r@)
}

/// Every record of the sequence has the kind of its payload.
pub open spec fn all_well_formed(records: Seq<DnsRecordView>) -> bool {
    forall|i: int| 0 <= i < records.len() ==> (#[trigger] records[i]).well_formed()
}

impl RecordType {
    /// The kind's name as it is written in exports: `A`, `Aaaa`, `Mx`, ...
    pub open spec fn name_spec(self) -> Seq<char> {
        match self {
            RecordType::A => "A"@,
            RecordType::Aaaa => "Aaaa"@,
            RecordType::Mx => "Mx"@,
            RecordType::Ns => "Ns"@,
            RecordType::Soa => "Soa"@,
            RecordType::Spf => "Spf"@,
            RecordType::Txt => "Txt"@,
            RecordType::Ptr => "Ptr"@,
            RecordType::Srv => "Srv"@,
            RecordType::Caa => "Caa"@,
            RecordType::Cname => "Cname"@,
        }
    }

    /// The kind's name in lower case: `a`, `aaaa`, `mx`, ...
    pub open spec fn lower_name_spec(self) -> Seq<char> {
        match self {
            RecordType::A => "a"@,
            RecordType::Aaaa => "aaaa"@,
            RecordType::Mx => "mx"@,
            RecordType::Ns => "ns"@,
            RecordType::Soa => "soa"@,
            RecordType::Spf => "spf"@,
            RecordType::Txt => "txt"@,
            RecordType::Ptr => "ptr"@,
            RecordType::Srv => "srv"@,
            RecordType::Caa => "caa"@,
            RecordType::Cname => "cname"@,
        }
    }

    /// The kind's name as it is written in exports.
    pub fn name(&self) -> (r: &'static str)
        ensures
            r@ == self.name_spec(),
    {
        match self {
            RecordType::A => "A",
            RecordType::Aaaa => "Aaaa",
            RecordType::Mx => "Mx",
            RecordType::Ns => "Ns",
            RecordType::Soa => "Soa",
            RecordType::Spf => "Spf",
            RecordType::Txt => "Txt",
            RecordType::Ptr => "Ptr",
            RecordType::Srv => "Srv",
            RecordType::Caa => "Caa",
            RecordType::Cname => "Cname",
        }
    }

    /// The kind's name in lower case.
    pub fn lower_name(&self) -> (r: &'static str)
        ensures
            r@ == self.lower_name_spec(),
    {
        match self {
            RecordType::A => "a",
            RecordType::Aaaa => "aaaa",
            RecordType::Mx => "mx",
            RecordType::Ns => "ns",
            RecordType::Soa => "soa",
            RecordType::Spf => "spf",
            RecordType::Txt => "txt",
            RecordType::Ptr => "ptr",
            RecordType::Srv => "srv",
            RecordType::Caa => "caa",
            RecordType::Cname => "cname",
        }
    }
}

impl Clone for DnsRecord {
    fn clone(&self) -> (r: Self)
        ensures
            r@ == self@,
    {
        proof {
            use_type_invariant(self);
        }
        Self {
            record_type: self.record_type,
            name: self.name.clone(),
            data: self.data.duplicate(),
            ttl: self.ttl,
        }
    }
}

impl RecordData {
    /// A copy of the payload.
    pub fn duplicate(&self) -> (r: Self)
        ensures
            r@ == self@,
    {
        match self {
            RecordData::A(address) => RecordData::A(*address),
            RecordData::Aaaa(address) => RecordData::Aaaa(*address),
            RecordData::Mx { preference, exchange } => RecordData::Mx {
                preference: *preference,
                exchange: exchange.clone(),
            },
            RecordData::Ns(nameserver) => RecordData::Ns(nameserver.clone()),
            RecordData::Soa { mname, rname, serial, refresh, retry, expire, minimum } => {
                RecordData::Soa {
                    mname: mname.clone(),
                    rname: rname.clone(),
                    serial: *serial,
                    refresh: *refresh,
                    retry: *retry,
                    expire: *expire,
                    minimum: *minimum,
                }
            },
            RecordData::Spf(text) => RecordData::Spf(text.clone()),
            RecordData::Txt(text) => RecordData::Txt(text.clone()),
            RecordData::Ptr(target) => RecordData::Ptr(target.clone()),
            RecordData::Srv { priority, weight, port, target } => RecordData::Srv {
                priority: *priority,
                weight: *weight,
                port: *port,
                target: target.clone(),
            },
            RecordData::Caa { flags, tag, value } => RecordData::Caa {
                flags: *flags,
                tag: tag.clone(),
                value: value.clone(),
            },
            RecordData::Cname(target) => RecordData::Cname(target.clone()),
        }
    }

    /// The record kind that this payload belongs to.
    pub fn kind(&self) -> (r: RecordType)
        ensures
            r == self@.kind(),
    {
        match self {
            RecordData::A(_) => RecordType::A,
            RecordData::Aaaa(_) => RecordType::Aaaa,
            RecordData::Mx { .. } => RecordType::Mx,
            RecordData::Ns(_) => RecordType::Ns,
            RecordData::Soa { .. } => RecordType::Soa,
            RecordData::Spf(_) => RecordType::Spf,
            RecordData::Txt(_) => RecordType::Txt,
            RecordData::Ptr(_) => RecordType::Ptr,
            RecordData::Srv { .. } => RecordType::Srv,
            RecordData::Caa { .. } => RecordType::Caa,
            RecordData::Cname(_) => RecordType::Cname,
        }
    }
}

impl DnsRecord {
    /// Every record has the kind of its payload.
    #[verifier::type_invariant]
    spec fn kind_matches_payload(self) -> bool {
        self.record_type == self.data@.kind()
    }

    /// The record of the given parts; `None` where the kind is not the kind
    /// of the payload.
    pub fn from_parts(record_type: RecordType, name: String, data: RecordData, ttl: Option<u32>)
        -> (r: Option<Self>)
        ensures
            match r {
                Some(record) => record_type == data@.kind() && record@ == (DnsRecordView {
                    record_type,
                    name: name@,
                    data: data@,
                    ttl,
                }),
                None => record_type != data@.kind(),
            },
    {
        if record_type == data.kind() {
            Some(Self { record_type, name, data, ttl })
        } else {
            None
        }
    }

    /// The parts of the record: its kind, its name, its payload and its
    /// time to live.
    pub fn into_parts(self) -> (r: (RecordType, String, RecordData, Option<u32>))
        ensures
            r.0 == self@.record_type,
            r.1@ == self@.name,
            r.2@ == self@.data,
            r.3 == self@.ttl,
            r.0 == r.2@.kind(),
    {
        proof {
            use_type_invariant(&self);
        }
        (self.record_type, self.name, self.data, self.ttl)
    }

    /// The same record with the given time to live.
    pub fn with_ttl(self, ttl: Option<u32>) -> (r: Self)
        ensures
            r@ == (DnsRecordView { ttl, ..self@ }),
    {
        proof {
            use_type_invariant(&self);
        }
        Self { record_type: self.record_type, name: self.name, data: self.data, ttl }
    }

    /// The kind of the record, which is the kind of its payload.
    pub fn record_type(&self) -> (r: RecordType)
        ensures
            r == self@.record_type,
            self@.well_formed(),
    {
        proof {
            use_type_invariant(self);
        }
        self.record_type
    }

    /// The name that the record is about, without a trailing dot where it
    /// came from a lookup.
    pub fn name(&self) -> (r: &str)
        ensures
            r@ == self@.name,
    {
        self.name.as_str()
    }

    /// The payload of the record.
    pub fn data(&self) -> (r: &RecordData)
        ensures
            r@ == self@.data,
            self@.well_formed(),
    {
        proof {
            use_type_invariant(self);
        }
        &self.data
    }

    /// The time to live of the record, where it is known.
    pub fn ttl(&self) -> (r: Option<u32>)
        ensures
            r == self@.ttl,
    {
        self.ttl
    }

    /// Whether the record's kind is the kind of its payload: it always is.
    pub fn is_well_formed(&self) -> (r: bool)
        ensures
            r,
            self@.well_formed(),
    {
        proof {
            use_type_invariant(self);
        }
        self.record_type == self.data.kind()
    }

    /// Create a new A record
    pub fn new_a(name: String, address: Ipv4Address) -> (r: Self)
        ensures
            r@ == (DnsRecordView {
                record_type: RecordType::A,
                name: name@,
                data: RecordDataView::A(address),
                ttl: None,
            }),
            r@.well_formed(),
    {
        Self { record_type: RecordType::A, name, data: RecordData::A(address), ttl: None }
    }

    /// Create a new AAAA record
    pub fn new_aaaa(name: String, address: Ipv6Address) -> (r: Self)
        ensures
            r@ == (DnsRecordView {
                record_type: RecordType::Aaaa,
                name: name@,
                data: RecordDataView::Aaaa(address),
                ttl: None,
            }),
            r@.well_formed(),
    {
        Self { record_type: RecordType::Aaaa, name, data: RecordData::Aaaa(address), ttl: None }
    }

    /// Create a new MX record
    pub fn new_mx(name: String, preference: u16, exchange: String) -> (r: Self)
        ensures
            r@ == (DnsRecordView {
                record_type: RecordType::Mx,
                name: name@,
                data: RecordDataView::Mx { preference, exchange: exchange@ },
                ttl: None,
            }),
            r@.well_formed(),
    {
        Self {
            record_type: RecordType::Mx,
            name,
            data: RecordData::Mx { preference, exchange },
            ttl: None,
        }
    }

    /// Create a new NS record
    pub fn new_ns(name: String, nameserver: String) -> (r: Self)
        ensures
            r@ == (DnsRecordView {
                record_type: RecordType::Ns,
                name: name@,
                data: RecordDataView::Ns(nameserver@),
                ttl: None,
            }),
            r@.well_formed(),
    {
        Self { record_type: RecordType::Ns, name, data: RecordData::Ns(nameserver), ttl: None }
    }

    /// Create a new SOA record
    pub fn new_soa(
        name: String,
        mname: String,
        rname: String,
        serial: u32,
        refresh: u32,
        retry: u32,
        expire: u32,
        minimum: u32,
    ) -> (r: Self)
        ensures
            r@ == (DnsRecordView {
                record_type: RecordType::Soa,
                name: name@,
                data: RecordDataView::Soa {
                    mname: mname@,
                    rname: rname@,
                    serial,
                    refresh,
                    retry,
                    expire,
                    minimum,
                },
                ttl: None,
            }),
            r@.well_formed(),
    {
        Self {
            record_type: RecordType::Soa,
            name,
            data: RecordData::Soa { mname, rname, serial, refresh, retry, expire, minimum },
            ttl: None,
        }
    }

    /// Create a new TXT record
    pub fn new_txt(name: String, data: String) -> (r: Self)
        ensures
            r@ == (DnsRecordView {
                record_type: RecordType::Txt,
                name: name@,
                data: RecordDataView::Txt(data@),
                ttl: None,
            }),
            r@.well_formed(),
    {
        Self { record_type: RecordType::Txt, name, data: RecordData::Txt(data), ttl: None }
    }

    /// Create a new SPF record
    pub fn new_spf(name: String, data: String) -> (r: Self)
        ensures
            r@ == (DnsRecordView {
                record_type: RecordType::Spf,
                name: name@,
                data: RecordDataView::Spf(data@),
                ttl: None,
            }),
            r@.well_formed(),
    {
        Self { record_type: RecordType::Spf, name, data: RecordData::Spf(data), ttl: None }
    }

    /// Create a new PTR record
    pub fn new_ptr(name: String, target: String) -> (r: Self)
        ensures
            r@ == (DnsRecordView {
                record_type: RecordType::Ptr,
                name: name@,
                data: RecordDataView::Ptr(target@),
                ttl: None,
            }),
            r@.well_formed(),
    {
        Self { record_type: RecordType::Ptr, name, data: RecordData::Ptr(target), ttl: None }
    }

    /// Create a new SRV record
    pub fn new_srv(name: String, priority: u16, weight: u16, port: u16, target: String) -> (r:
        Self)
        ensures
            r@ == (DnsRecordView {
                record_type: RecordType::Srv,
                name: name@,
                data: RecordDataView::Srv { priority, weight, port, target: target@ },
                ttl: None,
            }),
            r@.well_formed(),
    {
        Self {
            record_type: RecordType::Srv,
            name,
            data: RecordData::Srv { priority, weight, port, target },
            ttl: None,
        }
    }

    /// Create a new CAA record
    pub fn new_caa(name: String, flags: u8, tag: String, value: String) -> (r: Self)
        ensures
            r@ == (DnsRecordView {
                record_type: RecordType::Caa,
                name: name@,
                data: RecordDataView::Caa { flags, tag: tag@, value: value@ },
                ttl: None,
            }),
            r@.well_formed(),
    {
        Self {
            record_type: RecordType::Caa,
            name,
            data: RecordData::Caa { flags, tag, value },
            ttl: None,
        }
    }

    /// Create a new CNAME record
    pub fn new_cname(name: String, target: String) -> (r: Self)
        ensures
            r@ == (DnsRecordView {
                record_type: RecordType::Cname,
                name: name@,
                data: RecordDataView::Cname(target@),
                ttl: None,
            }),
            r@.well_formed(),
    {
        Self { record_type: RecordType::Cname, name, data: RecordData::Cname(target), ttl: None }
    }
}

} // verus!
