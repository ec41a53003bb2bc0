//! Brute force enumeration using wordlists, under a concurrency budget.
//!
//! The lookups run outside this library. The caller asks [`BruteForce::next_step`]
//! what to do, starts the lookup it is told to start, and reports each
//! lookup that ends with [`BruteForce::complete`]. The state never admits
//! more lookups at a time than the budget allows.

use vstd::prelude::*;
use vstd::string::*;
use crate::dns::DnsError;
use crate::dns::record::{DnsRecord, DnsRecordView, record_views};
use crate::utils::text::{chars_of, text_views};

verus! {

/// Whether a line of a wordlist is a label: blank lines and lines that
/// begin with `#` are not.
pub open spec fn is_label_line(line: Seq<char>) -> bool {
    line.len() > 0 && line[0] != '#'
}

/// The labels among the first `n` lines of a wordlist, in order.
pub open spec fn labels_of(lines: Seq<Seq<char>>, n: int) -> Seq<Seq<char>>
    decreases n,
{
    if n <= 0 {
        Seq::empty()
    } else if is_label_line(lines[n - 1]) {
        labels_of(lines, n - 1).push(lines[n - 1])
    } else {
        labels_of(lines, n - 1)
    }
}

/// The name to resolve for a label: the label, a dot, the domain.
pub open spec fn candidate(label: Seq<char>, domain: Seq<char>) -> Seq<char> {
    label + seq!['.'] + domain
}

/// The labels of a wordlist, given its lines.
pub fn wordlist_labels(lines: &Vec<String>) -> (r: Vec<String>)
    ensures
        text_views(r@) == labels_of(text_views(lines@), lines@.len() as int),
{
    let ghost views = text_views(lines@);
    let mut labels: Vec<String> = Vec::new();
    let mut i: usize = 0;
    assert(text_views(labels@) =~= labels_of(views, 0));
    while i < lines.len()
        invariant
            i <= lines.len(),
            views == text_views(lines@),
            text_views(labels@) == labels_of(views, i as int),
        decreases lines.len() - i,
    {
        assert(views[i as int] == lines@[i as int]@);
        let chars = chars_of(lines[i].as_str());
        if chars.len() > 0 && chars[0] != '#' {
            let ghost before = labels@;
            labels.push(lines[i].clone());
            assert(text_views(labels@) =~= text_views(before).push(views[i as int]));
        }
        i += 1;
    }
    labels
}

/// The name to resolve for a label.
pub fn candidate_name(label: &str, domain: &str) -> (r: String)
    ensures
        r@ == candidate(label@, domain@),
{
    let mut name = String::from_str(label);
    name.append(".");
    name.append(domain);
    proof {
        reveal_strlit(".");
        assert("."@ =~= seq!['.']);
    }
    name
}

/// What the caller is to do next.
#[derive(Debug, Clone)]
pub enum BruteForceStep {
    /// Start resolving `name`, the candidate of the label at `index`, now.
    Resolve { index: usize, name: String },
    /// Nothing can start before a running lookup ends: wait for one.
    Wait,
    /// Labels remain, but the budget is 0: no lookup can ever start.
    Stalled,
    /// Every label has been resolved.
    Done,
}

/// The state of a brute-force run. In every state, no more lookups are
/// running than the budget allows.
#[derive(Debug)]
pub struct BruteForce {
    domain: String,
    labels: Vec<String>,
    limit: usize,
    started: usize,
    finished: usize,
    results: Vec<Option<Vec<DnsRecord>>>,
}

/// The mathematical value of a [`BruteForce`].
pub struct BruteForceView {
    pub domain: Seq<char>,
    /// The labels to resolve, in the order of the wordlist.
    pub labels: Seq<Seq<char>>,
    /// The concurrency budget: how many lookups may run at a time.
    pub limit: nat,
    /// How many labels have had their lookup started; they are started in
    /// the order of the wordlist.
    pub started: nat,
    /// For each label, the records of its lookup once that has ended.
    pub results: Seq<Option<Seq<DnsRecordView>>>,
}

/// How many of the first `n` lookups have ended.
pub open spec fn ended_among(results: Seq<Option<Seq<DnsRecordView>>>, n: int) -> nat
    decreases n,
{
    if n <= 0 {
        0
    } else {
        ended_among(results, n - 1) + (if results[n - 1] is Some {
            1nat
        } else {
            0nat
        })
    }
}

/// The records of the first `n` labels, in the order of the wordlist: a
/// lookup that has ended gives its records, the others give nothing.
pub open spec fn merged(results: Seq<Option<Seq<DnsRecordView>>>, n: int) -> Seq<DnsRecordView>
    decreases n,
{
    if n <= 0 {
        Seq::empty()
    } else {
        merged(results, n - 1) + (match results[n - 1] {
            Some(records) => records,
            None => Seq::empty(),
        })
    }
}

/// What a lookup contributes: its records where it succeeded, nothing
/// where it failed. A failure is no error of the run.
pub open spec fn contribution(outcome: Result<Vec<DnsRecord>, DnsError>) -> Seq<DnsRecordView> {
    match outcome {
        Ok(records) => record_views(records@),
        Err(_) => Seq::empty(),
    }
}

/// The records of each lookup that has ended, as values.
pub open spec fn slot_views(results: Seq<Option<Vec<DnsRecord>>>) -> Seq<
    Option<Seq<DnsRecordView>>,
> {
    results.map_values(
        |slot: Option<Vec<DnsRecord>>|
            match slot {
                Some(records) => Some(record_views(records@)),
                None => None,
            },
    )
}

/// Replacing an entry that has not ended by one that has adds one to the
/// count of ended lookups from that entry on.
proof fn lemma_ended_after_update(
    results: Seq<Option<Seq<DnsRecordView>>>,
    n: int,
    at: int,
    value: Option<Seq<DnsRecordView>>,
)
    requires
        0 <= at < results.len(),
        0 <= n <= results.len(),
        results[at] is None,
        value is Some,
    ensures
        ended_among(results.update(at, value), n) == ended_among(results, n) + (if at < n {
            1nat
        } else {
            0nat
        }),
    decreases n,
{
    if n > 0 {
        lemma_ended_after_update(results, n - 1, at, value);
    }
}

/// Lookups that have not ended count nothing.
proof fn lemma_ended_bounded(results: Seq<Option<Seq<DnsRecordView>>>, n: int, from: int)
    requires
        0 <= from <= n <= results.len(),
        forall|i: int| from <= i < results.len() ==> results[i] is None,
    ensures
        ended_among(results, n) == ended_among(results, from),
        ended_among(results, from) <= from,
    decreases n,
{
    if n > from {
        lemma_ended_bounded(results, n - 1, from);
    } else if from > 0 {
        lemma_ended_at_most(results, from);
    }
}

/// Where one of the first `n` lookups has not ended, fewer than `n` have.
proof fn lemma_ended_fewer(results: Seq<Option<Seq<DnsRecordView>>>, n: int, at: int)
    requires
        0 <= at < n <= results.len(),
        results[at] is None,
    ensures
        ended_among(results, n) < n,
    decreases n,
{
    if at == n - 1 {
        lemma_ended_at_most(results, n - 1);
    } else {
        lemma_ended_fewer(results, n - 1, at);
    }
}

/// No more lookups have ended than there are.
proof fn lemma_ended_at_most(results: Seq<Option<Seq<DnsRecordView>>>, n: int)
    requires
        0 <= n <= results.len(),
    ensures
        ended_among(results, n) <= n,
    decreases n,
{
    if n > 0 {
        lemma_ended_at_most(results, n - 1);
    }
}

impl BruteForceView {
    /// How many lookups have ended.
    pub open spec fn ended(self) -> nat {
        ended_among(self.results, self.results.len() as int)
    }

    /// How many lookups are running: started and not ended.
    pub open spec fn in_flight(self) -> int {
        self.started - self.ended()
    }

    /// The bookkeeping is consistent, and no more lookups run than the
    /// budget allows.
    pub open spec fn well_formed(self) -> bool {
        &&& self.results.len() == self.labels.len()
        &&& self.started <= self.labels.len()
        &&& forall|i: int| self.started <= i < self.results.len() ==> self.results[i] is None
        &&& 0 <= self.in_flight() <= self.limit
    }

    /// The state after the lookup of the next label has started.
    pub open spec fn after_start(self) -> BruteForceView {
        BruteForceView { started: self.started + 1, ..self }
    }

    /// The state after the lookup of the label at `index` has ended with
    /// the records `records`.
    pub open spec fn after_end(self, index: int, records: Seq<DnsRecordView>) -> BruteForceView {
        BruteForceView { results: self.results.update(index, Some(records)), ..self }
    }
}

impl View for BruteForce {
    type V = BruteForceView;

    closed spec fn view(&self) -> BruteForceView {
        BruteForceView {
            domain: self.domain@,
            labels: text_views(self.labels@),
            limit: self.limit as nat,
            started: self.started as nat,
            results: slot_views(self.results@),
        }
    }
}

impl BruteForce {
    /// In every state the bookkeeping is consistent and no more lookups run
    /// than the budget allows.
    #[verifier::type_invariant]
    spec fn within_budget(self) -> bool {
        &&& self@.well_formed()
        &&& self.finished == self@.ended()
    }

    /// A run over `labels` for `domain` with the budget `limit`; nothing
    /// has started.
    pub fn new(domain: &str, labels: Vec<String>, limit: usize) -> (r: Self)
        ensures
            r@.well_formed(),
            r@.domain == domain@,
            r@.labels == text_views(labels@),
            r@.limit == limit,
            r@.started == 0,
            r@.in_flight() == 0,
            r@.results.len() == labels@.len(),
            forall|i: int| 0 <= i < r@.results.len() ==> r@.results[i] is None,
    {
        let mut results: Vec<Option<Vec<DnsRecord>>> = Vec::new();
        let mut i: usize = 0;
        while i < labels.len()
            invariant
                i <= labels.len(),
                results@.len() == i,
                forall|k: int| 0 <= k < i ==> results@[k] is None,
            decreases labels.len() - i,
        {
            results.push(None);
            i += 1;
        }
        proof {
            lemma_ended_bounded(slot_views(results@), results@.len() as int, 0);
        }
        BruteForce {
            domain: String::from_str(domain),
            labels,
            limit,
            started: 0,
            finished: 0,
            results,
        }
    }

    /// How many lookups are running; never more than the budget.
    pub fn running(&self) -> (r: usize)
        ensures
            r == self@.in_flight(),
            r <= self@.limit,
            self@.well_formed(),
    {
        proof {
            use_type_invariant(self);
        }
        self.started - self.finished
    }

    /// The concurrency budget.
    pub fn limit(&self) -> (r: usize)
        ensures
            r == self@.limit,
    {
        self.limit
    }

    /// How many labels have had their lookup started.
    pub fn started(&self) -> (r: usize)
        ensures
            r == self@.started,
    {
        self.started
    }

    /// Says what to do next, and counts the lookup that it tells to start.
    ///
    /// A lookup starts only while fewer than `limit` are running; the
    /// labels are started in order.
    pub fn next_step(&mut self) -> (r: BruteForceStep)
        ensures
            final(self)@.well_formed(),
            final(self)@.in_flight() <= final(self)@.limit,
            match r {
                BruteForceStep::Resolve { index, name } => {
                    &&& old(self)@.started < old(self)@.labels.len()
                    &&& old(self)@.in_flight() < old(self)@.limit
                    &&& index == old(self)@.started
                    &&& name@ == candidate(old(self)@.labels[index as int], old(self)@.domain)
                    &&& final(self)@ == old(self)@.after_start()
                },
                BruteForceStep::Wait => {
                    &&& final(self)@ == old(self)@
                    &&& old(self)@.in_flight() > 0
                    &&& (old(self)@.started == old(self)@.labels.len() || old(self)@.in_flight()
                        == old(self)@.limit)
                },
                BruteForceStep::Stalled => {
                    &&& final(self)@ == old(self)@
                    &&& old(self)@.started < old(self)@.labels.len()
                    &&& old(self)@.limit == 0
                },
                BruteForceStep::Done => {
                    &&& final(self)@ == old(self)@
                    &&& old(self)@.started == old(self)@.labels.len()
                    &&& old(self)@.in_flight() == 0
                },
            },
    {
        proof {
            use_type_invariant(&*self);
        }
        let running = self.started - self.finished;
        if self.started < self.labels.len() && running < self.limit {
            let index = self.started;
            assert(text_views(self.labels@)[index as int] == self.labels@[index as int]@);
            let name = candidate_name(self.labels[index].as_str(), self.domain.as_str());
            self.started = self.started + 1;
            BruteForceStep::Resolve { index, name }
        } else if running > 0 {
            BruteForceStep::Wait
        } else if self.started < self.labels.len() {
            BruteForceStep::Stalled
        } else {
            BruteForceStep::Done
        }
    }

    /// Takes in the end of the lookup for the label at `index`. A lookup
    /// that failed contributes no records and fails nothing; no other
    /// label is touched.
    ///
    /// Hands back whether that lookup was running; where it was not,
    /// nothing changes.
    pub fn complete(&mut self, index: usize, outcome: Result<Vec<DnsRecord>, DnsError>) -> (r:
        bool)
        ensures
            final(self)@.well_formed(),
            final(self)@.in_flight() <= final(self)@.limit,
            r == (index < old(self)@.started && old(self)@.results[index as int] is None),
            r ==> final(self)@ == old(self)@.after_end(index as int, contribution(outcome))
                && final(self)@.in_flight() == old(self)@.in_flight() - 1,
            !r ==> final(self)@ == old(self)@,
    {
        proof {
            use_type_invariant(&*self);
        }
        if index >= self.started {
            return false;
        }
        assert(slot_views(self.results@)[index as int] is None <==> self.results@[index as int]
            is None);
        if self.results[index].is_some() {
            return false;
        }
        let records = match outcome {
            Ok(records) => records,
            Err(_) => {
                let empty: Vec<DnsRecord> = Vec::new();
                assert(record_views(empty@) =~= Seq::empty());
                empty
            },
        };
        let mut taken = BruteForce::new("", Vec::new(), 0);
        core::mem::swap(self, &mut taken);
        let BruteForce { domain, labels, limit, started, finished, mut results } = taken;
        let ghost before = slot_views(results@);
        proof {
            lemma_ended_after_update(
                before,
                before.len() as int,
                index as int,
                Some(record_views(records@)),
            );
            lemma_ended_bounded(before, before.len() as int, started as int);
            lemma_ended_fewer(before, started as int, index as int);
        }
        results.set(index, Some(records));
        assert(slot_views(results@) =~= before.update(index as int, Some(record_views(records@))));
        *self = BruteForce { domain, labels, limit, started, finished: finished + 1, results };
        true
    }

    /// The records found: those of the lookups that have ended, in the
    /// order of the wordlist.
    pub fn finish(self) -> (r: Vec<DnsRecord>)
        ensures
            record_views(r@) == merged(self@.results, self@.results.len() as int),
    {
        let ghost slots = self.results@;
        let ghost views = slot_views(self.results@);
        let mut found: Vec<DnsRecord> = Vec::new();
        assert(record_views(found@) =~= merged(views, 0));
        for slot in it: self.results
            invariant
                it.seq() == slots,
                views == slot_views(slots),
                record_views(found@) == merged(views, it.index() as int),
        {
            assert(views[it.index() as int] == (match slot {
                Some(records) => Some(record_views(records@)),
                None => None,
            }));
            match slot {
                Some(mut records) => {
                    let ghost before = found@;
                    let ghost added = records@;
                    found.append(&mut records);
                    assert(record_views(found@) =~= record_views(before) + record_views(added));
                },
                None => {
                    assert(record_views(found@) =~= record_views(found@) + Seq::empty());
                },
            }
        }
        found
    }
}

} // verus!
