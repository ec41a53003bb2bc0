//! Bing search enumeration: the result pages to ask for, and the
//! candidates that one page holds.

use vstd::prelude::*;
use vstd::string::*;
use crate::enumerate::html::{
    all_subdomains,
    collect_link_candidates,
    first_selection,
    link_candidates,
    select_first_links,
    select_links,
    selected_attributes,
};
use crate::utils::text::{decimal, decimal_string_wide, slice_views, text_views};

verus! {

/// How many result pages are asked for.
pub const BING_PAGES: usize = 15;

/// How many results a page holds: the offset grows by this from page to
/// page.
pub const BING_PAGE_SIZE: usize = 10;

/// The selectors that are tried on a result page, in order.
pub open spec fn bing_selectors() -> Seq<Seq<char>> {
    seq![
        "li.b_algo h2 a"@,
        "ol#b_results li.b_algo h2 a"@,
        "ol#b_results li.b_algo div.b_title a"@,
        "ol#b_results li.b_algo h3 a"@,
    ]
}

/// The selector that is used where none of the others picks anything:
/// every link to an `http` address.
pub open spec fn bing_fallback_selector() -> Seq<char> {
    "a[href*='http']"@
}

/// The address of result page `page` (0 is the first) for `domain`; the
/// offset of the first result counts from 1.
pub open spec fn bing_url(domain: Seq<char>, page: nat) -> Seq<char> {
    "https://www.bing.com/search?q=domain%3A"@ + domain + "&qs=n&first="@ + decimal(
        1 + BING_PAGE_SIZE as nat * page,
    )
}

/// The candidates of one result page: the subdomains among the links of
/// the first selector that picks anything, or among all `http` links where
/// none does.
pub open spec fn bing_page_candidates(body: Seq<char>, domain: Seq<char>) -> Seq<Seq<char>> {
    match first_selection(body, bing_selectors(), bing_selectors().len() as int) {
        Some(links) => link_candidates(links, domain, links.len() as int),
        None => match selected_attributes(body, bing_fallback_selector(), "href"@) {
            Some(links) => link_candidates(links, domain, links.len() as int),
            None => Seq::empty(),
        },
    }
}

/// The address of result page `page` for `domain`.
pub fn bing_page_url(domain: &str, page: usize) -> (r: String)
    ensures
        r@ == bing_url(domain@, page as nat),
{
    let mut url = String::from_str("https://www.bing.com/search?q=domain%3A");
    url.append(domain);
    url.append("&qs=n&first=");
    url.append(decimal_string_wide(1 + (BING_PAGE_SIZE as u128) * (page as u128)).as_str());
    url
}

/// Appends the candidates of one result page to `out`.
pub fn collect_bing_page(out: &mut Vec<String>, body: &str, domain: &str)
    ensures
        text_views(final(out)@) == text_views(old(out)@) + bing_page_candidates(body@, domain@),
        all_subdomains(text_views(old(out)@), domain@) ==> all_subdomains(
            text_views(final(out)@),
            domain@,
        ),
{
    let selectors: Vec<&'static str> = vec![
        "li.b_algo h2 a",
        "ol#b_results li.b_algo h2 a",
        "ol#b_results li.b_algo div.b_title a",
        "ol#b_results li.b_algo h3 a",
    ];
    assert(slice_views(selectors@) =~= bing_selectors());
    match select_first_links(body, &selectors) {
        Some(links) => {
            collect_link_candidates(out, &links, domain);
        },
        None => {
            match select_links(body, "a[href*='http']") {
                Some(links) => {
                    collect_link_candidates(out, &links, domain);
                },
                None => {
                    assert(text_views(out@) =~= text_views(old(out)@) + Seq::empty());
                },
            }
        },
    }
}

} // verus!
