//! What a result page holds: the elements that a CSS selector picks from
//! an HTML document, and the subdomains among their links.

use vstd::prelude::*;
use vstd::string::*;
use crate::enumerate::subdomain::{
    extract_subdomain_from_url,
    extracted,
    is_subdomain_of,
    url_host_of,
};
use crate::utils::text::{slice_views, text_views};

verus! {

/// For each element that `selector` picks from the HTML document `body`,
/// in the order in which the HTML library hands the elements out, the
/// value of its attribute `attribute`, if it has one. `None` where
/// `selector` is no valid CSS selector.
pub uninterp spec fn selected_attributes(
    body: Seq<char>,
    selector: Seq<char>,
    attribute: Seq<char>,
) -> Option<Seq<Option<Seq<char>>>>;

/// For each element that `selector` picks from the HTML document `body`,
/// in the order in which the HTML library hands the elements out, its
/// first descendant text node, if it has one. `None` where `selector` is
/// no valid CSS selector.
pub uninterp spec fn selected_texts(body: Seq<char>, selector: Seq<char>) -> Option<
    Seq<Option<Seq<char>>>,
>;

/// The texts of a list of optional strings.
pub open spec fn optional_views(values: Seq<Option<String>>) -> Seq<Option<Seq<char>>> {
    values.map_values(
        |v: Option<String>|
            match v {
                Some(s) => Some(s@),
                None => None,
            },
    )
}

/// `r` is the selection `expected`, up to views.
pub open spec fn is_selection(
    r: Option<Vec<Option<String>>>,
    expected: Option<Seq<Option<Seq<char>>>>,
) -> bool {
    match r {
        Some(values) => expected == Some(optional_views(values@)),
        None => expected is None,
    }
}

/// Parses the selector with `scraper::Selector::parse` and the document
/// with `scraper::Html::parse_document`, walks `Html::select` and reads
/// each element's attribute with `Element::attr`.
#[verifier::external_body]
fn select_attribute(body: &str, selector: &str, attribute: &str) -> (r: Option<
    Vec<Option<String>>,
>)
    ensures
        is_selection(r, selected_attributes(body@, selector@, attribute@)),
{
    let parsed = match scraper::Selector::parse(selector) {
        Ok(parsed) => parsed,
        Err(_) => return None,
    };
    let document = scraper::Html::parse_document(body);
    let mut values = Vec::new();
    for element in document.select(&parsed) {
        values.push(
            match element.value().attr(attribute) {
                Some(v) => Some(v.to_string()),
                None => None,
            },
        );
    }
    Some(values)
}

/// Parses the selector with `scraper::Selector::parse` and the document
/// with `scraper::Html::parse_document`, walks `Html::select` and reads
/// the first item of each element's `ElementRef::text`.
#[verifier::external_body]
fn select_text(body: &str, selector: &str) -> (r: Option<Vec<Option<String>>>)
    ensures
        is_selection(r, selected_texts(body@, selector@)),
{
    let parsed = match scraper::Selector::parse(selector) {
        Ok(parsed) => parsed,
        Err(_) => return None,
    };
    let document = scraper::Html::parse_document(body);
    let mut values = Vec::new();
    for element in document.select(&parsed) {
        values.push(
            match element.text().next() {
                Some(v) => Some(v.to_string()),
                None => None,
            },
        );
    }
    Some(values)
}

/// The link targets of the elements that `selector` picks from `body`.
pub(crate) fn select_links(body: &str, selector: &str) -> (r: Option<Vec<Option<String>>>)
    ensures
        is_selection(r, selected_attributes(body@, selector@, "href"@)),
{
    select_attribute(body, selector, "href")
}

/// The first text of each element that `selector` picks from `body`.
pub(crate) fn select_first_texts(body: &str, selector: &str) -> (r: Option<Vec<Option<String>>>)
    ensures
        is_selection(r, selected_texts(body@, selector@)),
{
    select_text(body, selector)
}

/// The subdomains of `domain` among the first `n` link targets: each
/// target that is present and points to one gives it, in order.
pub open spec fn link_candidates(links: Seq<Option<Seq<char>>>, domain: Seq<char>, n: int) -> Seq<
    Seq<char>,
>
    decreases n,
{
    if n <= 0 {
        Seq::empty()
    } else {
        let found = match links[n - 1] {
            Some(url) => extracted(url, domain, url_host_of(url)),
            None => None,
        };
        match found {
            Some(host) => link_candidates(links, domain, n - 1).push(host),
            None => link_candidates(links, domain, n - 1),
        }
    }
}

/// Every text of `names` is a proper subdomain of `domain`.
pub open spec fn all_subdomains(names: Seq<Seq<char>>, domain: Seq<char>) -> bool {
    forall|i: int| 0 <= i < names.len() ==> is_subdomain_of(#[trigger] names[i], domain)
}

/// Appends to `out` the subdomains of `domain` among `links`.
pub fn collect_link_candidates(out: &mut Vec<String>, links: &Vec<Option<String>>, domain: &str)
    ensures
        text_views(final(out)@) == text_views(old(out)@) + link_candidates(
            optional_views(links@),
            domain@,
            links@.len() as int,
        ),
        all_subdomains(text_views(old(out)@), domain@) ==> all_subdomains(
            text_views(final(out)@),
            domain@,
        ),
{
    let ghost views = optional_views(links@);
    let ghost start = text_views(out@);
    let mut i: usize = 0;
    assert(text_views(out@) =~= start + link_candidates(views, domain@, 0));
    while i < links.len()
        invariant
            i <= links.len(),
            views == optional_views(links@),
            start == text_views(old(out)@),
            text_views(out@) == start + link_candidates(views, domain@, i as int),
            all_subdomains(start, domain@) ==> all_subdomains(text_views(out@), domain@),
        decreases links.len() - i,
    {
        match &links[i] {
            Some(url) => {
                assert(views[i as int] == Some(url@));
                match extract_subdomain_from_url(url.as_str(), domain) {
                    Some(host) => {
                        let ghost before = out@;
                        out.push(host);
                        assert(text_views(out@) =~= text_views(before).push(host@));
                        assert(text_views(out@) =~= start + link_candidates(
                            views,
                            domain@,
                            i as int + 1,
                        ));
                    },
                    None => {},
                }
            },
            None => {
                assert(views[i as int] is None);
            },
        }
        i += 1;
    }
}

/// The selection that decides a page: that of the first of the first `n`
/// selectors that is valid and picks at least one element. `None` where
/// none of them does.
pub open spec fn first_selection(body: Seq<char>, selectors: Seq<Seq<char>>, n: int) -> Option<
    Seq<Option<Seq<char>>>,
>
    decreases n,
{
    if n <= 0 {
        None
    } else {
        match first_selection(body, selectors, n - 1) {
            Some(links) => Some(links),
            None => match selected_attributes(body, selectors[n - 1], "href"@) {
                Some(links) => if links.len() > 0 {
                    Some(links)
                } else {
                    None
                },
                None => None,
            },
        }
    }
}

/// Tries the selectors in order and hands back the link targets of the
/// first that picks anything.
pub fn select_first_links(body: &str, selectors: &Vec<&'static str>) -> (r: Option<
    Vec<Option<String>>,
>)
    ensures
        is_selection(
            r,
            first_selection(body@, slice_views(selectors@), selectors@.len() as int),
        ),
{
    let ghost views = slice_views(selectors@);
    let mut i: usize = 0;
    while i < selectors.len()
        invariant
            i <= selectors.len(),
            views == slice_views(selectors@),
            first_selection(body@, views, i as int) is None,
        decreases selectors.len() - i,
    {
        assert(views[i as int] == selectors@[i as int]@);
        match select_links(body, selectors[i]) {
            Some(links) => {
                if links.len() > 0 {
                    proof {
                        lemma_first_selection_stays(body@, views, i as int + 1, views.len() as int);
                    }
                    return Some(links);
                }
            },
            None => {},
        }
        i += 1;
    }
    None
}

/// Once a selector has decided, later selectors change nothing.
proof fn lemma_first_selection_stays(
    body: Seq<char>,
    selectors: Seq<Seq<char>>,
    n: int,
    m: int,
)
    requires
        first_selection(body, selectors, n) is Some,
        n <= m,
    ensures
        first_selection(body, selectors, m) == first_selection(body, selectors, n),
    decreases m - n,
{
    if n < m {
        lemma_first_selection_stays(body, selectors, n, m - 1);
    }
}

} // verus!
