//! The standard technique: direct lookups for the domain, then every
//! passive source, then the resolution of each name that a source found.

use vstd::prelude::*;
use vstd::string::*;
use crate::dns::{DnsError, DnsErrorView};
use crate::dns::address::{Ipv4Address, Ipv6Address};
use crate::dns::answer::WireData;
use crate::dns::record::{DnsRecord, DnsRecordView, all_well_formed, record_views};
use crate::dns::resolver::{
    DnsHelper,
    MxAnswer,
    SoaAnswer,
    caa_result,
    failure_signals_absence,
    ip_records,
    signals_absence,
    mx_records,
    ns_records,
    soa_records,
    spf_records,
    spf_records_from,
    txt_records,
    txt_records_from,
};
use crate::enumerate::EnumerationError;
use crate::enumerate::discovery::Source;

verus! {

/// A direct lookup of the standard technique.
#[derive(Debug, Clone, Copy, PartialEq, Eq, Structural)]
pub enum DirectLookup {
    /// The A and the AAAA records.
    Ip,
    Mx,
    Ns,
    Soa,
    /// The TXT records; the SPF records are derived from them.
    Txt,
    Caa,
}

/// How many direct lookups the technique makes.
pub const DIRECT_LOOKUPS: usize = 6;

/// How many passive sources the technique asks.
pub const SOURCES: usize = 3;

/// How often a passive source that fails is tried again.
pub const SOURCE_RETRIES: u32 = 3;

/// The direct lookup of stage `stage`.
pub open spec fn direct_lookup_at(stage: int) -> DirectLookup {
    if stage == 0 {
        DirectLookup::Ip
    } else if stage == 1 {
        DirectLookup::Mx
    } else if stage == 2 {
        DirectLookup::Ns
    } else if stage == 3 {
        DirectLookup::Soa
    } else if stage == 4 {
        DirectLookup::Txt
    } else {
        DirectLookup::Caa
    }
}

/// The passive source of stage `DIRECT_LOOKUPS + i`.
pub open spec fn source_at(i: int) -> Source {
    if i == 0 {
        Source::CrtSh
    } else if i == 1 {
        Source::Bing
    } else {
        Source::Yandex
    }
}

/// What came back for a direct lookup.
#[derive(Debug)]
pub enum LookupAnswer {
    Ip { a: Result<Vec<Ipv4Address>, DnsError>, aaaa: Result<Vec<Ipv6Address>, DnsError> },
    Mx(Result<Vec<MxAnswer>, DnsError>),
    Ns(Result<Vec<String>, DnsError>),
    Soa(Result<Vec<SoaAnswer>, DnsError>),
    Txt(Result<Vec<Vec<Vec<u8>>>, DnsError>),
    Caa(Result<Vec<Option<WireData>>, DnsError>),
}

impl LookupAnswer {
    /// The lookup that this is the answer of.
    pub open spec fn kind(self) -> DirectLookup {
        match self {
            LookupAnswer::Ip { .. } => DirectLookup::Ip,
            LookupAnswer::Mx(_) => DirectLookup::Mx,
            LookupAnswer::Ns(_) => DirectLookup::Ns,
            LookupAnswer::Soa(_) => DirectLookup::Soa,
            LookupAnswer::Txt(_) => DirectLookup::Txt,
            LookupAnswer::Caa(_) => DirectLookup::Caa,
        }
    }

    /// The failures of the lookup that are to be told.
    pub fn failures(&self) -> (r: Vec<DnsError>)
        ensures
            error_views(r@) == answer_failures(*self),
    {
        let mut out: Vec<DnsError> = Vec::new();
        assert(error_views(out@) =~= Seq::empty());
        match self {
            LookupAnswer::Ip { a, aaaa } => {
                push_failure(&mut out, a);
                push_failure(&mut out, aaaa);
            },
            LookupAnswer::Mx(lookup) => {
                push_failure(&mut out, lookup);
            },
            LookupAnswer::Ns(lookup) => {
                push_failure(&mut out, lookup);
            },
            LookupAnswer::Soa(lookup) => {
                push_failure(&mut out, lookup);
            },
            LookupAnswer::Txt(lookup) => {
                push_failure(&mut out, lookup);
            },
            LookupAnswer::Caa(lookup) => {
                match lookup {
                    Ok(_) => {},
                    Err(e) => {
                        if !failure_signals_absence(e) {
                            out.push(e.duplicate());
                            assert(error_views(out@) =~= seq![e@]);
                        }
                    },
                }
            },
        }
        out
    }

    /// The lookup that this is the answer of.
    pub fn lookup(&self) -> (r: DirectLookup)
        ensures
            r == self.kind(),
    {
        match self {
            LookupAnswer::Ip { .. } => DirectLookup::Ip,
            LookupAnswer::Mx(_) => DirectLookup::Mx,
            LookupAnswer::Ns(_) => DirectLookup::Ns,
            LookupAnswer::Soa(_) => DirectLookup::Soa,
            LookupAnswer::Txt(_) => DirectLookup::Txt,
            LookupAnswer::Caa(_) => DirectLookup::Caa,
        }
    }
}

/// The records that a direct lookup contributes. A lookup that failed
/// contributes none and fails nothing; the TXT lookup contributes its TXT
/// records and then the SPF records among them.
pub open spec fn answer_records(domain: Seq<char>, answer: LookupAnswer) -> Seq<DnsRecordView> {
    match answer {
        LookupAnswer::Ip { a, aaaa } => ip_records(domain, a, aaaa),
        LookupAnswer::Mx(Ok(answers)) => mx_records(domain, answers@),
        LookupAnswer::Ns(Ok(answers)) => ns_records(domain, answers@),
        LookupAnswer::Soa(Ok(answers)) => soa_records(domain, answers@),
        LookupAnswer::Txt(Ok(answers)) => txt_records(domain, answers@) + spf_records(
            domain,
            answers@,
            answers@.len() as int,
        ),
        LookupAnswer::Caa(lookup) => match caa_result(domain, lookup) {
            Ok(records) => records,
            Err(_) => Seq::empty(),
        },
        _ => Seq::empty(),
    }
}

/// The values of a list of errors.
pub open spec fn error_views(errors: Seq<DnsError>) -> Seq<DnsErrorView> {
    errors.map_values(|e: DnsError| e@)
}

/// The failure of one lookup, as a list: its error where it failed.
pub open spec fn failure_of<A>(lookup: Result<Vec<A>, DnsError>) -> Seq<DnsErrorView> {
    match lookup {
        Ok(_) => Seq::empty(),
        Err(e) => seq![e@],
    }
}

/// The failures of a direct lookup that are to be told: the technique goes
/// on after each of them, but none passes in silence. A CAA lookup that
/// only found no record is no failure.
pub open spec fn answer_failures(answer: LookupAnswer) -> Seq<DnsErrorView> {
    match answer {
        LookupAnswer::Ip { a, aaaa } => failure_of(a) + failure_of(aaaa),
        LookupAnswer::Mx(lookup) => failure_of(lookup),
        LookupAnswer::Ns(lookup) => failure_of(lookup),
        LookupAnswer::Soa(lookup) => failure_of(lookup),
        LookupAnswer::Txt(lookup) => failure_of(lookup),
        LookupAnswer::Caa(lookup) => match lookup {
            Ok(_) => Seq::empty(),
            Err(e) => if signals_absence(e@) {
                Seq::empty()
            } else {
                seq![e@]
            },
        },
    }
}

/// Appends the error of a failed lookup to `out`.
fn push_failure<A>(out: &mut Vec<DnsError>, lookup: &Result<Vec<A>, DnsError>)
    ensures
        error_views(final(out)@) == error_views(old(out)@) + failure_of(*lookup),
{
    match lookup {
        Ok(_) => {
            assert(error_views(out@) =~= error_views(old(out)@) + Seq::empty());
        },
        Err(e) => {
            out.push(e.duplicate());
            assert(error_views(out@) =~= error_views(old(out)@) + seq![e@]);
        },
    }
}

/// The records that a direct lookup contributes.
pub fn records_of_answer(helper: &DnsHelper, domain: &str, answer: LookupAnswer) -> (r: Vec<
    DnsRecord,
>)
    ensures
        record_views(r@) == answer_records(domain@, answer),
        all_well_formed(record_views(r@)),
{
    let outcome = match answer {
        LookupAnswer::Ip { a, aaaa } => helper.get_ip(domain, a, aaaa),
        LookupAnswer::Mx(lookup) => helper.get_mx(domain, lookup),
        LookupAnswer::Ns(lookup) => helper.get_ns(domain, lookup),
        LookupAnswer::Soa(lookup) => helper.get_soa(domain, lookup),
        LookupAnswer::Txt(lookup) => match lookup {
            Ok(answers) => {
                let mut records = txt_records_from(domain, &answers);
                let mut spf = spf_records_from(domain, &answers);
                let ghost first = records@;
                let ghost second = spf@;
                records.append(&mut spf);
                assert(record_views(records@) =~= record_views(first) + record_views(second));
                Ok(records)
            },
            Err(e) => Err(e),
        },
        LookupAnswer::Caa(lookup) => helper.get_caa(domain, lookup),
    };
    match outcome {
        Ok(records) => records,
        Err(_) => {
            let none: Vec<DnsRecord> = Vec::new();
            assert(record_views(none@) =~= Seq::empty());
            none
        },
    }
}

/// What the caller is to do next.
#[derive(Debug, Clone)]
pub enum StandardStep {
    /// Make this lookup for the domain and report its answer.
    Lookup(DirectLookup),
    /// Ask this source for candidate names, trying again up to
    /// `max_retries` times where it fails, and report the outcome.
    Discover { source: Source, max_retries: u32 },
    /// Look up the addresses of this candidate name and report them.
    Resolve(String),
    /// The technique is through.
    Done,
}

/// The state of a run of the standard technique.
#[derive(Debug, Clone)]
pub struct StandardEnumeration {
    pub domain: String,
    /// The direct lookups come first, one stage each, then the sources.
    pub stage: usize,
    /// Whether the candidates of the current source are being resolved.
    pub resolving: bool,
    /// The candidates of the current source.
    pub candidates: Vec<String>,
    /// The index of the candidate to resolve next.
    pub next_candidate: usize,
    /// The records gathered so far.
    pub results: Vec<DnsRecord>,
}

impl StandardEnumeration {
    /// The stage after the last.
    pub open spec fn last_stage() -> int {
        DIRECT_LOOKUPS + SOURCES
    }

    /// Whether a direct lookup is awaited.
    pub open spec fn awaits_lookup(&self) -> bool {
        self.stage < DIRECT_LOOKUPS
    }

    /// Whether the addresses of a candidate are awaited.
    pub open spec fn awaits_resolution(&self) -> bool {
        &&& DIRECT_LOOKUPS <= self.stage < Self::last_stage()
        &&& self.resolving
        &&& self.next_candidate < self.candidates@.len()
    }

    /// Whether the outcome of a source is awaited.
    pub open spec fn awaits_discovery(&self) -> bool {
        DIRECT_LOOKUPS <= self.stage < Self::last_stage() && !self.awaits_resolution()
    }

    /// Whether the technique is through.
    pub open spec fn is_done(&self) -> bool {
        self.stage >= Self::last_stage()
    }

    /// A run for `domain` that has done nothing yet.
    pub fn new(domain: &str) -> (r: Self)
        ensures
            r.domain@ == domain@,
            r.stage == 0,
            !r.resolving,
            r.results@.len() == 0,
    {
        StandardEnumeration {
            domain: String::from_str(domain),
            stage: 0,
            resolving: false,
            candidates: Vec::new(),
            next_candidate: 0,
            results: Vec::new(),
        }
    }

    /// What to do next.
    pub fn next_step(&self) -> (r: StandardStep)
        ensures
            match r {
                StandardStep::Lookup(kind) => self.awaits_lookup() && kind == direct_lookup_at(
                    self.stage as int,
                ),
                StandardStep::Discover { source, max_retries } => self.awaits_discovery()
                    && source == source_at(self.stage - DIRECT_LOOKUPS) && max_retries
                    == SOURCE_RETRIES,
                StandardStep::Resolve(name) => self.awaits_resolution() && name@
                    == self.candidates@[self.next_candidate as int]@,
                StandardStep::Done => self.is_done(),
            },
    {
        if self.stage == 0 {
            StandardStep::Lookup(DirectLookup::Ip)
        } else if self.stage == 1 {
            StandardStep::Lookup(DirectLookup::Mx)
        } else if self.stage == 2 {
            StandardStep::Lookup(DirectLookup::Ns)
        } else if self.stage == 3 {
            StandardStep::Lookup(DirectLookup::Soa)
        } else if self.stage == 4 {
            StandardStep::Lookup(DirectLookup::Txt)
        } else if self.stage == 5 {
            StandardStep::Lookup(DirectLookup::Caa)
        } else if self.stage >= DIRECT_LOOKUPS + SOURCES {
            StandardStep::Done
        } else if self.resolving && self.next_candidate < self.candidates.len() {
            StandardStep::Resolve(self.candidates[self.next_candidate].clone())
        } else if self.stage == DIRECT_LOOKUPS {
            StandardStep::Discover { source: Source::CrtSh, max_retries: SOURCE_RETRIES }
        } else if self.stage == DIRECT_LOOKUPS + 1 {
            StandardStep::Discover { source: Source::Bing, max_retries: SOURCE_RETRIES }
        } else {
            StandardStep::Discover { source: Source::Yandex, max_retries: SOURCE_RETRIES }
        }
    }

    /// Takes in the answer of the direct lookup that is awaited, adds its
    /// records and moves on to the next stage.
    ///
    /// Hands back whether the answer was the awaited one; where it was not,
    /// nothing changes.
    pub fn on_lookup(&mut self, helper: &DnsHelper, answer: LookupAnswer) -> (r: bool)
        ensures
            r == (old(self).awaits_lookup() && answer.kind() == direct_lookup_at(
                old(self).stage as int,
            )),
            r ==> {
                &&& final(self).stage == old(self).stage + 1
                &&& final(self).resolving == old(self).resolving
                &&& final(self).domain == old(self).domain
                &&& record_views(final(self).results@) == record_views(old(self).results@)
                    + answer_records(old(self).domain@, answer)
            },
            !r ==> *final(self) == *old(self),
    {
        let expected = match self.next_step() {
            StandardStep::Lookup(kind) => kind,
            _ => {
                return false;
            },
        };
        if answer.lookup() != expected {
            return false;
        }
        let mut records = records_of_answer(helper, self.domain.as_str(), answer);
        let ghost before = self.results@;
        let ghost added = records@;
        self.results.append(&mut records);
        assert(record_views(self.results@) =~= record_views(before) + record_views(added));
        self.stage = self.stage + 1;
        true
    }

    /// Takes in the outcome of the source that is awaited. A source that
    /// failed for good contributes nothing and fails nothing. The names it
    /// found are resolved next, in order; without any, the next stage
    /// follows at once.
    ///
    /// Hands back whether a source was awaited; where none was, nothing
    /// changes.
    pub fn on_discovery(&mut self, outcome: Result<Vec<String>, EnumerationError>) -> (r: bool)
        ensures
            r == old(self).awaits_discovery(),
            r ==> {
                &&& final(self).domain == old(self).domain
                &&& final(self).results == old(self).results
                &&& match outcome {
                    Ok(names) => if names@.len() > 0 {
                        &&& final(self).stage == old(self).stage
                        &&& final(self).awaits_resolution()
                        &&& final(self).candidates@ == names@
                        &&& final(self).next_candidate == 0
                    } else {
                        final(self).stage == old(self).stage + 1 && !final(self).resolving
                    },
                    Err(_) => final(self).stage == old(self).stage + 1 && !final(self).resolving,
                }
            },
            !r ==> *final(self) == *old(self),
    {
        if self.stage < DIRECT_LOOKUPS || self.stage >= DIRECT_LOOKUPS + SOURCES {
            return false;
        }
        if self.resolving && self.next_candidate < self.candidates.len() {
            return false;
        }
        match outcome {
            Ok(names) => {
                if names.len() > 0 {
                    self.candidates = names;
                    self.next_candidate = 0;
                    self.resolving = true;
                } else {
                    self.resolving = false;
                    self.stage = self.stage + 1;
                }
            },
            Err(_) => {
                self.resolving = false;
                self.stage = self.stage + 1;
            },
        }
        true
    }

    /// Takes in the addresses of the candidate that is being resolved, adds
    /// their records, and moves on to the next candidate, or to the next
    /// stage after the last.
    ///
    /// Hands back whether a candidate was being resolved; where none was,
    /// nothing changes.
    pub fn on_resolved(
        &mut self,
        helper: &DnsHelper,
        a: Result<Vec<Ipv4Address>, DnsError>,
        aaaa: Result<Vec<Ipv6Address>, DnsError>,
    ) -> (r: bool)
        ensures
            r == old(self).awaits_resolution(),
            r ==> {
                &&& final(self).domain == old(self).domain
                &&& final(self).candidates == old(self).candidates
                &&& record_views(final(self).results@) == record_views(old(self).results@)
                    + ip_records(old(self).candidates@[old(self).next_candidate as int]@, a, aaaa)
                &&& if old(self).next_candidate + 1 < old(self).candidates@.len() {
                    &&& final(self).stage == old(self).stage
                    &&& final(self).awaits_resolution()
                    &&& final(self).next_candidate == old(self).next_candidate + 1
                } else {
                    final(self).stage == old(self).stage + 1 && !final(self).resolving
                }
            },
            !r ==> *final(self) == *old(self),
    {
        if self.stage < DIRECT_LOOKUPS || self.stage >= DIRECT_LOOKUPS + SOURCES {
            return false;
        }
        let total = self.candidates.len();
        let at = self.next_candidate;
        if !self.resolving || at >= total {
            return false;
        }
        let resolved = helper.get_ip(self.candidates[at].as_str(), a, aaaa);
        match resolved {
            Ok(mut records) => {
                let ghost before = self.results@;
                let ghost added = records@;
                self.results.append(&mut records);
                assert(record_views(self.results@) =~= record_views(before) + record_views(added));
            },
            Err(_) => {},
        }
        if at + 1 < total {
            self.next_candidate = at + 1;
        } else {
            self.resolving = false;
            self.stage = self.stage + 1;
        }
        true
    }

    /// The records gathered.
    pub fn finish(self) -> (r: Vec<DnsRecord>)
        ensures
            r@ == self.results@,
    {
        self.results
    }
}

} // verus!
