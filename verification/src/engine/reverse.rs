//! The reverse technique: a range is expanded to its addresses, and the PTR
//! records of each address are looked up.

use vstd::prelude::*;
use vstd::string::*;
use crate::DnsReconError;
use crate::cli::progress::{PROGRESS_INTERVAL, ProgressReporter, report_scan_progress};
use crate::dns::{DnsError, DnsErrorView};
use crate::dns::address::IpAddress;
use crate::dns::record::{DnsRecord, DnsRecordView, record_views};
use crate::dns::resolver::{DnsHelper, ptr_result};
use crate::utils::cidr::{RangeErrorView, process_range, processed_range};

verus! {

/// What a reverse lookup contributes: its records where it succeeded,
/// nothing where it failed.
pub open spec fn ptr_contribution(ip: Seq<char>, lookup: Result<Vec<String>, DnsError>) -> Seq<
    DnsRecordView,
> {
    match ptr_result(ip, lookup) {
        Ok(records) => records,
        Err(_) => Seq::empty(),
    }
}

/// The state of a reverse scan.
#[derive(Debug, Clone)]
pub struct ReverseScan {
    /// The addresses to look up, in order.
    pub addresses: Vec<IpAddress>,
    /// How many addresses have been dealt with.
    pub position: usize,
    /// The records gathered so far.
    pub results: Vec<DnsRecord>,
}

impl ReverseScan {
    /// Starts a scan of `range`: a CIDR block, a start-end pair or a single
    /// address. A range that cannot be expanded fails the technique before
    /// any lookup.
    pub fn start(range: &str) -> (r: Result<Self, DnsReconError>)
        ensures
            match r {
                Ok(scan) => {
                    &&& scan.position == 0
                    &&& scan.results@.len() == 0
                    &&& processed_range(range@) == Ok::<Seq<IpAddress>, RangeErrorView>(
                        scan.addresses@,
                    )
                },
                Err(DnsReconError::Other(m)) => processed_range(range@) matches Err(e) && m@
                    == "Failed to process range: "@ + e.message(),
                Err(_) => false,
            },
    {
        match process_range(range) {
            Ok(addresses) => {
                let scan = ReverseScan { addresses, position: 0, results: Vec::new() };
                assert(record_views(scan.results@) =~= Seq::empty());
                Ok(scan)
            },
            Err(e) => Err(
                DnsReconError::Other(
                    String::from_str("Failed to process range: ").concat(e.message().as_str()),
                ),
            ),
        }
    }

    /// The address to look up next; `None` once each has been dealt with.
    pub fn next_address(&self) -> (r: Option<IpAddress>)
        ensures
            match r {
                Some(ip) => self.position < self.addresses@.len() && ip
                    == self.addresses@[self.position as int],
                None => self.position >= self.addresses@.len(),
            },
    {
        if self.position < self.addresses.len() {
            Some(self.addresses[self.position])
        } else {
            None
        }
    }

    /// Tells the reporter how far the scan is, before the pending address
    /// is looked up: at every hundredth address, the first included.
    pub fn report_progress<P: ProgressReporter>(&self, progress: &P) -> (reported: bool)
        ensures
            reported == (self.position % PROGRESS_INTERVAL == 0),
    {
        report_scan_progress(progress, self.position, self.addresses.len(), self.results.len())
    }

    /// Takes in the outcome of the reverse lookup for the pending address.
    /// A lookup that failed contributes nothing and does not end the scan:
    /// the error is handed back for the caller to tell.
    ///
    /// With no address pending nothing changes.
    pub fn on_lookup(&mut self, helper: &DnsHelper, lookup: Result<Vec<String>, DnsError>) -> (r:
        Option<DnsError>)
        ensures
            final(self).addresses == old(self).addresses,
            if old(self).position < old(self).addresses@.len() {
                let ip = old(self).addresses@[old(self).position as int].text();
                &&& final(self).position == old(self).position + 1
                &&& record_views(final(self).results@) == record_views(old(self).results@)
                    + ptr_contribution(ip, lookup)
                &&& match r {
                    Some(e) => ptr_result(ip, lookup) == Err::<Seq<DnsRecordView>, DnsErrorView>(
                        e@,
                    ),
                    None => ptr_result(ip, lookup) is Ok,
                }
            } else {
                *final(self) == *old(self) && r is None
            },
    {
        if self.position >= self.addresses.len() {
            return None;
        }
        let ip = self.addresses[self.position].to_text();
        self.position = self.position + 1;
        match helper.get_ptr(ip.as_str(), lookup) {
            Ok(mut records) => {
                let ghost before = self.results@;
                let ghost added = records@;
                self.results.append(&mut records);
                assert(record_views(self.results@) =~= record_views(before) + record_views(added));
                None
            },
            Err(e) => {
                assert(record_views(self.results@) =~= record_views(self.results@) + Seq::empty());
                Some(e)
            },
        }
    }

    /// The records gathered.
    pub fn finish(self) -> (r: Vec<DnsRecord>)
        ensures
            r@ == self.results@,
    {
        self.results
    }
}

} // verus!
