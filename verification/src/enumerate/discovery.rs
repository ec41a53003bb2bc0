//! Passive discovery as a state machine: which page of a source to fetch
//! next, what a fetched page adds, and when to try a failed source again.
//!
//! Fetching and waiting happen outside this library. The caller asks for
//! the next address, fetches it, reports what came back, waits as told,
//! and goes on until no address is left.

use vstd::prelude::*;
use vstd::string::*;
use crate::enumerate::{EnumerationError, EnumerationErrorView};
use crate::enumerate::bing::{
    BING_PAGES,
    bing_page_candidates,
    bing_page_url,
    bing_url,
    collect_bing_page,
};
use crate::enumerate::crt_sh::{
    collect_crtsh_page,
    crtsh_page_candidates,
    crtsh_page_url,
    crtsh_url,
};
use crate::enumerate::html::all_subdomains;
use crate::enumerate::yandex::{
    YANDEX_PAGES,
    collect_yandex_page,
    yandex_page_candidates,
    yandex_page_url,
    yandex_url,
};
use crate::utils::order::{sorted_unique, strictly_ascending};
use crate::utils::text::text_views;

verus! {

/// A passive source of candidate names.
#[derive(Debug, Clone, Copy, PartialEq, Eq, Structural)]
pub enum Source {
    /// The certificate-transparency log.
    CrtSh,
    /// The first search engine.
    Bing,
    /// The second search engine.
    Yandex,
}

/// What came back for one page.
#[derive(Debug, Clone)]
pub enum PageOutcome {
    /// The request or the reading of the response failed.
    Failed(EnumerationError),
    /// The source answered with a status that is no success.
    Refused,
    /// The page, as text.
    Body(String),
}

/// The state of one discovery run against one source.
#[derive(Debug, Clone)]
pub struct Discovery {
    pub source: Source,
    pub domain: String,
    /// How many pages have been dealt with.
    pub page: usize,
    /// The candidates found so far, in the order in which they were found.
    pub candidates: Vec<String>,
}

impl Source {
    /// How many pages a run asks this source for.
    pub open spec fn page_count(self) -> nat {
        match self {
            Source::CrtSh => 1,
            Source::Bing => BING_PAGES as nat,
            Source::Yandex => YANDEX_PAGES as nat,
        }
    }

    /// The address of page `page` of this source for `domain`.
    pub open spec fn url(self, domain: Seq<char>, page: nat) -> Seq<char> {
        match self {
            Source::CrtSh => crtsh_url(domain),
            Source::Bing => bing_url(domain, page),
            Source::Yandex => yandex_url(domain, page),
        }
    }

    /// The seconds to wait after a page of this source before the next
    /// request: the search engines are asked at most once a second.
    pub open spec fn pause(self) -> u64 {
        match self {
            Source::CrtSh => 0,
            Source::Bing => 1,
            Source::Yandex => 1,
        }
    }

    /// The candidates that a page of this source holds, or the failure to
    /// read it.
    pub open spec fn page_candidates(self, body: Seq<char>, domain: Seq<char>) -> Result<
        Seq<Seq<char>>,
        EnumerationErrorView,
    > {
        match self {
            Source::CrtSh => crtsh_page_candidates(body, domain),
            Source::Bing => Ok(bing_page_candidates(body, domain)),
            Source::Yandex => Ok(yandex_page_candidates(body, domain)),
        }
    }

    /// Whether a response with a status that is no success counts as
    /// refused: the search engines are held to their status, the
    /// certificate log is read whatever its status.
    pub open spec fn needs_success(self) -> bool {
        self != Source::CrtSh
    }

    /// Whether a response of this source is to be read, given whether its
    /// status is a success; else the page is refused.
    pub fn accepts_status(&self, success: bool) -> (r: bool)
        ensures
            r == (success || !self.needs_success()),
    {
        match self {
            Source::CrtSh => true,
            Source::Bing => success,
            Source::Yandex => success,
        }
    }

    /// How many pages a run asks this source for.
    pub fn pages(&self) -> (r: usize)
        ensures
            r == self.page_count(),
    {
        match self {
            Source::CrtSh => 1,
            Source::Bing => BING_PAGES,
            Source::Yandex => YANDEX_PAGES,
        }
    }
}

/// The abstract state of a run: the pages dealt with and the candidates
/// found.
pub struct DiscoveryView {
    pub source: Source,
    pub domain: Seq<char>,
    pub page: nat,
    pub candidates: Seq<Seq<char>>,
}

impl View for Discovery {
    type V = DiscoveryView;

    open spec fn view(&self) -> DiscoveryView {
        DiscoveryView {
            source: self.source,
            domain: self.domain@,
            page: self.page as nat,
            candidates: text_views(self.candidates@),
        }
    }
}

impl DiscoveryView {
    /// Whether a page is still to be fetched.
    pub open spec fn pending(self) -> bool {
        self.page < self.source.page_count()
    }

    /// The state after `outcome` came back for the pending page, and the
    /// seconds to wait before the next request; or the error that ends the
    /// run.
    ///
    /// A failed request ends the run. A refused page is skipped. A page
    /// that was read adds its candidates. With no page pending nothing
    /// changes.
    pub open spec fn step(self, outcome: PageOutcome) -> Result<
        (DiscoveryView, u64),
        EnumerationErrorView,
    > {
        if !self.pending() {
            Ok((self, 0))
        } else {
            match outcome {
                PageOutcome::Failed(e) => Err(e@),
                PageOutcome::Refused => Ok(
                    (DiscoveryView { page: self.page + 1, ..self }, self.source.pause()),
                ),
                PageOutcome::Body(body) => match self.source.page_candidates(
                    body@,
                    self.domain,
                ) {
                    Ok(found) => Ok(
                        (
                            DiscoveryView {
                                page: self.page + 1,
                                candidates: self.candidates + found,
                                ..self
                            },
                            self.source.pause(),
                        ),
                    ),
                    Err(e) => Err(e),
                },
            }
        }
    }
}

impl Discovery {
    /// A run against `source` for `domain` that has fetched nothing yet.
    pub fn new(source: Source, domain: &str) -> (r: Self)
        ensures
            r@ == (DiscoveryView { source, domain: domain@, page: 0, candidates: Seq::empty() }),
    {
        let r = Discovery {
            source,
            domain: String::from_str(domain),
            page: 0,
            candidates: Vec::new(),
        };
        assert(text_views(r.candidates@) =~= Seq::empty());
        r
    }

    /// The address to fetch next; `None` once every page is dealt with.
    pub fn next_url(&self) -> (r: Option<String>)
        ensures
            match r {
                Some(url) => self@.pending() && url@ == self.source.url(
                    self.domain@,
                    self.page as nat,
                ),
                None => !self@.pending(),
            },
    {
        if self.page >= self.source.pages() {
            return None;
        }
        let domain = self.domain.as_str();
        Some(
            match self.source {
                Source::CrtSh => crtsh_page_url(domain),
                Source::Bing => bing_page_url(domain, self.page),
                Source::Yandex => yandex_page_url(domain, self.page),
            },
        )
    }

    /// Takes in what came back for the pending page and says how many
    /// seconds to wait before the next request. An error ends the run: the
    /// state is then left as it was.
    pub fn record(&mut self, outcome: PageOutcome) -> (r: Result<u64, EnumerationError>)
        ensures
            match r {
                Ok(pause) => old(self)@.step(outcome) == Ok::<
                    (DiscoveryView, u64),
                    EnumerationErrorView,
                >((final(self)@, pause)),
                Err(e) => old(self)@.step(outcome) == Err::<
                    (DiscoveryView, u64),
                    EnumerationErrorView,
                >(e@) && final(self)@ == old(self)@,
            },
            all_subdomains(old(self)@.candidates, old(self)@.domain) ==> all_subdomains(
                final(self)@.candidates,
                final(self)@.domain,
            ),
    {
        if self.page >= self.source.pages() {
            return Ok(0);
        }
        let pause: u64 = match self.source {
            Source::CrtSh => 0,
            Source::Bing => 1,
            Source::Yandex => 1,
        };
        match outcome {
            PageOutcome::Failed(e) => Err(e),
            PageOutcome::Refused => {
                self.page = self.page + 1;
                Ok(pause)
            },
            PageOutcome::Body(body) => {
                match self.source {
                    Source::CrtSh => {
                        match collect_crtsh_page(
                            &mut self.candidates,
                            body.as_str(),
                            self.domain.as_str(),
                        ) {
                            Ok(()) => {},
                            Err(e) => {
                                return Err(e);
                            },
                        }
                    },
                    Source::Bing => {
                        collect_bing_page(
                            &mut self.candidates,
                            body.as_str(),
                            self.domain.as_str(),
                        );
                    },
                    Source::Yandex => {
                        collect_yandex_page(
                            &mut self.candidates,
                            body.as_str(),
                            self.domain.as_str(),
                        );
                    },
                }
                self.page = self.page + 1;
                Ok(pause)
            },
        }
    }

    /// The candidates of the run: sorted, each name once.
    pub fn finish(self) -> (r: Vec<String>)
        ensures
            strictly_ascending(text_views(r@)),
            text_views(r@).to_set() == self@.candidates.to_set(),
            all_subdomains(self@.candidates, self@.domain) ==> all_subdomains(
                text_views(r@),
                self@.domain,
            ),
    {
        let ghost found = text_views(self.candidates@);
        let ghost domain = self.domain@;
        let r = sorted_unique(self.candidates);
        proof {
            if all_subdomains(found, domain) {
                assert forall|i: int| 0 <= i < text_views(r@).len() implies
                    crate::enumerate::subdomain::is_subdomain_of(
                    #[trigger] text_views(r@)[i],
                    domain,
                ) by {
                    let x = text_views(r@)[i];
                    assert(text_views(r@).contains(x));
                    assert(text_views(r@).to_set().contains(x));
                    assert(found.to_set().contains(x));
                    assert(found.contains(x));
                    let k = choose|k: int| 0 <= k < found.len() && found[k] == x;
                    assert(crate::enumerate::subdomain::is_subdomain_of(found[k], domain));
                }
            }
        }
        r
    }
}

} // verus!
