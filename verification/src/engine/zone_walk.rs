//! The zone walk: the nameservers of the domain are looked up, then a zone
//! transfer is attempted against each of them.

use vstd::prelude::*;
use vstd::string::*;
use crate::DnsReconError;
use crate::dns::{DnsError, DnsErrorView};
use crate::dns::record::{
    DnsRecord,
    DnsRecordView,
    RecordData,
    RecordDataView,
    record_views,
};
use crate::dns::resolver::{DnsHelper, ns_records};
use crate::dns::zone_transfer::{TransferOutcome, transfer_result, zone_transfer};
use crate::utils::text::text_views;

verus! {

/// The nameservers that the first `n` records name: each NS record gives
/// its nameserver, other records give nothing.
pub open spec fn nameservers_of(records: Seq<DnsRecordView>, n: int) -> Seq<Seq<char>>
    decreases n,
{
    if n <= 0 {
        Seq::empty()
    } else {
        match records[n - 1].data {
            RecordDataView::Ns(nameserver) => nameservers_of(records, n - 1).push(nameserver),
            _ => nameservers_of(records, n - 1),
        }
    }
}

/// The nameservers that the records name, in order.
pub fn collect_nameservers(records: &Vec<DnsRecord>) -> (r: Vec<String>)
    ensures
        text_views(r@) == nameservers_of(record_views(records@), records@.len() as int),
{
    let ghost views = record_views(records@);
    let mut names: Vec<String> = Vec::new();
    let mut i: usize = 0;
    assert(text_views(names@) =~= nameservers_of(views, 0));
    while i < records.len()
        invariant
            i <= records.len(),
            views == record_views(records@),
            text_views(names@) == nameservers_of(views, i as int),
        decreases records.len() - i,
    {
        assert(views[i as int] == records@[i as int]@);
        match records[i].data() {
            RecordData::Ns(nameserver) => {
                let ghost before = names@;
                names.push(nameserver.clone());
                assert(text_views(names@) =~= text_views(before).push(nameserver@));
            },
            _ => {},
        }
        i += 1;
    }
    names
}

/// What a transfer contributes: its records where it succeeded, nothing
/// where it failed.
pub open spec fn transfer_records(domain: Seq<char>, outcome: TransferOutcome) -> Seq<
    DnsRecordView,
> {
    match transfer_result(domain, outcome) {
        Ok(records) => records,
        Err(_) => Seq::empty(),
    }
}

/// The state of a zone walk.
#[derive(Debug, Clone)]
pub struct ZoneWalk {
    pub domain: String,
    /// The nameservers to ask, in the order of the NS records.
    pub nameservers: Vec<String>,
    /// How many nameservers have been dealt with.
    pub position: usize,
    /// The records gathered so far: the NS records first.
    pub results: Vec<DnsRecord>,
}

impl ZoneWalk {
    /// Starts a walk of `domain` from the outcome of its NS lookup.
    ///
    /// Without nameservers there is nothing to walk: a failed lookup fails
    /// the technique. Else the NS records are the first results, and their
    /// nameservers are the ones to ask.
    pub fn start(helper: &DnsHelper, domain: &str, lookup: Result<Vec<String>, DnsError>) -> (r:
        Result<Self, DnsReconError>)
        ensures
            match r {
                Ok(walk) => lookup matches Ok(answers) && {
                    &&& walk.domain@ == domain@
                    &&& walk.position == 0
                    &&& record_views(walk.results@) == ns_records(domain@, answers@)
                    &&& text_views(walk.nameservers@) == nameservers_of(
                        ns_records(domain@, answers@),
                        answers@.len() as int,
                    )
                },
                Err(DnsReconError::Dns(e)) => lookup matches Err(cause) && e@ == cause@,
                Err(_) => false,
            },
    {
        match helper.get_ns(domain, lookup) {
            Ok(records) => {
                let nameservers = collect_nameservers(&records);
                Ok(
                    ZoneWalk {
                        domain: String::from_str(domain),
                        nameservers,
                        position: 0,
                        results: records,
                    },
                )
            },
            Err(e) => Err(DnsReconError::Dns(e)),
        }
    }

    /// The nameserver to attempt a transfer against next; `None` once each
    /// has been dealt with.
    pub fn next_nameserver(&self) -> (r: Option<String>)
        ensures
            match r {
                Some(name) => self.position < self.nameservers@.len() && name@
                    == self.nameservers@[self.position as int]@,
                None => self.position >= self.nameservers@.len(),
            },
    {
        if self.position < self.nameservers.len() {
            Some(self.nameservers[self.position].clone())
        } else {
            None
        }
    }

    /// Takes in what happened when the transfer was attempted against the
    /// pending nameserver. A transfer that failed contributes nothing and
    /// does not end the walk: the error is handed back for the caller to
    /// tell.
    ///
    /// With no nameserver pending nothing changes.
    pub fn on_transfer(&mut self, outcome: &TransferOutcome) -> (r: Option<DnsError>)
        ensures
            final(self).domain == old(self).domain,
            final(self).nameservers == old(self).nameservers,
            if old(self).position < old(self).nameservers@.len() {
                &&& final(self).position == old(self).position + 1
                &&& record_views(final(self).results@) == record_views(old(self).results@)
                    + transfer_records(old(self).domain@, *outcome)
                &&& match r {
                    Some(e) => transfer_result(old(self).domain@, *outcome) == Err::<
                        Seq<DnsRecordView>,
                        DnsErrorView,
                    >(e@),
                    None => transfer_result(old(self).domain@, *outcome) is Ok,
                }
            } else {
                *final(self) == *old(self) && r is None
            },
    {
        if self.position >= self.nameservers.len() {
            return None;
        }
        self.position = self.position + 1;
        match zone_transfer(self.domain.as_str(), outcome) {
            Ok(mut records) => {
                let ghost before = self.results@;
                let ghost added = records@;
                self.results.append(&mut records);
                assert(record_views(self.results@) =~= record_views(before) + record_views(added));
                None
            },
            Err(e) => {
                assert(record_views(self.results@) =~= record_views(self.results@) + Seq::empty());
                Some(e)
            },
        }
    }

    /// The records gathered.
    pub fn finish(self) -> (r: Vec<DnsRecord>)
        ensures
            r@ == self.results@,
    {
        self.results
    }
}

} // verus!
