//! DNS attack-surface enumeration: the record model, the range expansion,
//! the candidate filters and the orchestration rules, with machine-checked
//! contracts.

use vstd::prelude::*;
use vstd::string::*;
use crate::dns::record::{DnsRecord, DnsRecordView, all_well_formed, record_views};
use crate::utils::text::{lowercase, text_views};

pub mod cli;
pub mod dns;
pub mod engine;
pub mod enumerate;
pub mod output;
pub mod utils;

verus! {

/// Main error type for the application
#[derive(Debug, Clone)]
pub enum DnsReconError {
    Dns(dns::DnsError),
    Enumeration(enumerate::EnumerationError),
    Output(output::OutputError),
    Cli(cli::CliError),
    Io(String),
    Other(String),
}

impl DnsReconError {
    /// The text of the error: a prefix that names the layer, then the text
    /// of the layer's own error.
    pub open spec fn message_spec(&self) -> Seq<char> {
        match self {
            DnsReconError::Dns(e) => "DNS error: "@ + e@.message(),
            DnsReconError::Enumeration(e) => "Enumeration error: "@ + e@.message(),
            DnsReconError::Output(e) => "Output error: "@ + e.message_spec(),
            DnsReconError::Cli(e) => "CLI error: "@ + e@.message(),
            DnsReconError::Io(m) => "IO error: "@ + m@,
            DnsReconError::Other(m) => "Other error: "@ + m@,
        }
    }

    /// The text of the error.
    pub fn message(&self) -> (r: String)
        ensures
            r@ == self.message_spec(),
    {
        match self {
            DnsReconError::Dns(e) => String::from_str("DNS error: ").concat(
                e.message().as_str(),
            ),
            DnsReconError::Enumeration(e) => String::from_str("Enumeration error: ").concat(
                e.message().as_str(),
            ),
            DnsReconError::Output(e) => String::from_str("Output error: ").concat(
                e.message().as_str(),
            ),
            DnsReconError::Cli(e) => String::from_str("CLI error: ").concat(
                e.message().as_str(),
            ),
            DnsReconError::Io(m) => String::from_str("IO error: ").concat(m.as_str()),
            DnsReconError::Other(m) => String::from_str("Other error: ").concat(m.as_str()),
        }
    }
}

/// The key by which records are deduplicated: the name in lower case.
pub open spec fn dedup_key(record: DnsRecordView) -> Seq<char> {
    lowercase(record.name)
}

/// No record before position `i` has the key of the record at `i`.
pub open spec fn is_first_of_its_name(records: Seq<DnsRecordView>, i: int) -> bool {
    forall|j: int| 0 <= j < i ==> dedup_key(#[trigger] records[j]) != dedup_key(records[i])
}

/// Of the first `n` records, those that are the first of their name, in
/// order.
pub open spec fn deduplicated(records: Seq<DnsRecordView>, n: int) -> Seq<DnsRecordView>
    decreases n,
{
    if n <= 0 {
        Seq::empty()
    } else if is_first_of_its_name(records, n - 1) {
        deduplicated(records, n - 1).push(records[n - 1])
    } else {
        deduplicated(records, n - 1)
    }
}

/// The keys of the first `n` records that are the first of their name.
pub open spec fn seen_keys(records: Seq<DnsRecordView>, n: int) -> Seq<Seq<char>> {
    deduplicated(records, n).map_values(|r: DnsRecordView| dedup_key(r))
}

/// A key is among the kept keys of the first `n` records exactly if one of
/// those records has it.
proof fn lemma_seen_keys(records: Seq<DnsRecordView>, n: int, key: Seq<char>)
    requires
        0 <= n <= records.len(),
    ensures
        seen_keys(records, n).contains(key) <==> exists|j: int|
            0 <= j < n && dedup_key(#[trigger] records[j]) == key,
    decreases n,
{
    if n > 0 {
        lemma_seen_keys(records, n - 1, key);
        let prev = seen_keys(records, n - 1);
        let cur = seen_keys(records, n);
        let last = records[n - 1];
        if is_first_of_its_name(records, n - 1) {
            assert(cur =~= prev.push(dedup_key(last)));
            if cur.contains(key) {
                let k = choose|k: int| 0 <= k < cur.len() && cur[k] == key;
                if k < prev.len() {
                    assert(prev[k] == key);
                    assert(prev.contains(key));
                } else {
                    assert(dedup_key(records[n - 1]) == key);
                }
            }
            if exists|j: int| 0 <= j < n && dedup_key(#[trigger] records[j]) == key {
                let j = choose|j: int| 0 <= j < n && dedup_key(#[trigger] records[j]) == key;
                if j < n - 1 {
                    assert(prev.contains(key));
                    let k = choose|k: int| 0 <= k < prev.len() && prev[k] == key;
                    assert(cur[k] == key);
                } else {
                    assert(cur[cur.len() - 1] == key);
                }
            }
        } else {
            assert(cur =~= prev);
            if exists|j: int| 0 <= j < n && dedup_key(#[trigger] records[j]) == key {
                let j = choose|j: int| 0 <= j < n && dedup_key(#[trigger] records[j]) == key;
                if j == n - 1 {
                    let j2 = choose|j2: int|
                        0 <= j2 < n - 1 && dedup_key(#[trigger] records[j2]) == dedup_key(
                            records[n - 1],
                        );
                    assert(dedup_key(records[j2]) == key);
                }
            }
        }
    } else {
        assert(seen_keys(records, n) =~= Seq::empty());
    }
}

/// After deduplication no two records share a name, whatever the case of
/// its letters.
pub proof fn lemma_deduplicated_names_differ(records: Seq<DnsRecordView>, n: int)
    requires
        0 <= n <= records.len(),
    ensures
        forall|i: int, j: int|
            0 <= i < j < deduplicated(records, n).len() ==> dedup_key(
                #[trigger] deduplicated(records, n)[i],
            ) != dedup_key(#[trigger] deduplicated(records, n)[j]),
    decreases n,
{
    if n > 0 {
        lemma_deduplicated_names_differ(records, n - 1);
        let prev = deduplicated(records, n - 1);
        let cur = deduplicated(records, n);
        if is_first_of_its_name(records, n - 1) {
            assert forall|i: int, j: int| 0 <= i < j < cur.len() implies dedup_key(
                #[trigger] cur[i],
            ) != dedup_key(#[trigger] cur[j]) by {
                if j == cur.len() - 1 {
                    let key = dedup_key(records[n - 1]);
                    lemma_seen_keys(records, n - 1, key);
                    if dedup_key(cur[i]) == key {
                        assert(seen_keys(records, n - 1)[i] == key);
                        assert(seen_keys(records, n - 1).contains(key));
                    }
                } else {
                    assert(cur[i] == prev[i] && cur[j] == prev[j]);
                }
            }
        }
    }
}

/// Deduplication loses no name: each record among the first `n` has its
/// name, up to case, on a record that stays.
pub proof fn lemma_deduplicated_keeps_names(records: Seq<DnsRecordView>, n: int, i: int)
    requires
        0 <= i < n <= records.len(),
    ensures
        exists|k: int|
            0 <= k < deduplicated(records, n).len() && dedup_key(
                #[trigger] deduplicated(records, n)[k],
            ) == dedup_key(records[i]),
{
    let key = dedup_key(records[i]);
    lemma_seen_keys(records, n, key);
    assert(seen_keys(records, n).contains(key));
    let k = choose|k: int| 0 <= k < seen_keys(records, n).len() && seen_keys(records, n)[k] == key;
    assert(dedup_key(deduplicated(records, n)[k]) == key);
}

/// The first record stays, and it stays first.
pub proof fn lemma_deduplicated_first(records: Seq<DnsRecordView>, n: int)
    requires
        1 <= n <= records.len(),
    ensures
        deduplicated(records, n).len() >= 1,
        deduplicated(records, n)[0] == records[0],
        deduplicated(records, n).len() <= n,
    decreases n,
{
    if n > 1 {
        lemma_deduplicated_first(records, n - 1);
    } else {
        assert(deduplicated(records, 0) =~= Seq::empty());
    }
}

/// Deduplicate DNS records by name (case-insensitive): of the records that
/// share a name, the first stays, whatever the kinds and payloads are.
pub fn deduplicate_records(records: Vec<DnsRecord>) -> (r: Vec<DnsRecord>)
    ensures
        record_views(r@) == deduplicated(record_views(records@), records@.len() as int),
        all_well_formed(record_views(records@)) ==> all_well_formed(record_views(r@)),
{
    let ghost all = record_views(records@);
    let ghost total = records@.len() as int;
    let mut seen_names: Vec<String> = Vec::new();
    let mut kept: Vec<DnsRecord> = Vec::new();
    assert(record_views(kept@) =~= deduplicated(all, 0));
    assert(text_views(seen_names@) =~= seen_keys(all, 0));
    for record in it: records
        invariant
            it.seq().len() == total,
            record_views(it.seq()) == all,
            record_views(kept@) == deduplicated(all, it.index() as int),
            text_views(seen_names@) == seen_keys(all, it.index() as int),
            all_well_formed(all) ==> all_well_formed(record_views(kept@)),
    {
        let ghost n = it.index() as int;
        assert(all[n] == record@);
        let name_lower = record.name().to_lowercase();
        let mut found = false;
        let mut k: usize = 0;
        while k < seen_names.len()
            invariant
                k <= seen_names.len(),
                found <==> exists|j: int| 0 <= j < k && seen_names@[j]@ == name_lower@,
            decreases seen_names.len() - k,
        {
            if seen_names[k] == name_lower {
                found = true;
            }
            k += 1;
        }
        proof {
            let keys = text_views(seen_names@);
            lemma_seen_keys(all, n, name_lower@);
            if found {
                let j = choose|j: int| 0 <= j < seen_names@.len() && seen_names@[j]@ == name_lower@;
                assert(keys[j] == name_lower@);
                assert(keys.contains(name_lower@));
            } else {
                if keys.contains(name_lower@) {
                    let j = choose|j: int| 0 <= j < keys.len() && keys[j] == name_lower@;
                    assert(seen_names@[j]@ == name_lower@);
                }
            }
            assert(found <==> !is_first_of_its_name(all, n));
        }
        if !found {
            let ghost kept_before = kept@;
            let ghost seen_before = seen_names@;
            seen_names.push(name_lower);
            kept.push(record);
            assert(record_views(kept@) =~= record_views(kept_before).push(all[n]));
            assert(deduplicated(all, n + 1) == deduplicated(all, n).push(all[n]));
            assert(text_views(seen_names@) =~= text_views(seen_before).push(dedup_key(all[n])));
            assert(seen_keys(all, n + 1) =~= seen_keys(all, n).push(dedup_key(all[n])));
        } else {
            assert(text_views(seen_names@) =~= seen_keys(all, n + 1));
        }
    }
    kept
}

} // verus!
