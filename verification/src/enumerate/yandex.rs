//! Yandex search enumeration: the result pages to ask for, and the
//! candidates that one page holds.

use vstd::prelude::*;
use vstd::string::*;
use crate::enumerate::html::{
    all_subdomains,
    collect_link_candidates,
    first_selection,
    link_candidates,
    select_first_links,
};
use crate::utils::text::{decimal, decimal_string, slice_views, text_views};

verus! {

/// How many result pages are asked for.
pub const YANDEX_PAGES: usize = 10;

/// The selectors that are tried on a result page, in order.
pub open spec fn yandex_selectors() -> Seq<Seq<char>> {
    seq!["a[href^='http']"@, ".Link"@, ".link"@, ".serp-item__link"@]
}

/// The address of result page `page` (0 is the first) for `domain`.
pub open spec fn yandex_url(domain: Seq<char>, page: nat) -> Seq<char> {
    "https://yandex.com/search/?text=site:"@ + domain + "&p="@ + decimal(page)
}

/// The candidates of one result page: the subdomains among the links of
/// the first selector that picks anything; none where no selector does.
pub open spec fn yandex_page_candidates(body: Seq<char>, domain: Seq<char>) -> Seq<Seq<char>> {
    match first_selection(body, yandex_selectors(), yandex_selectors().len() as int) {
        Some(links) => link_candidates(links, domain, links.len() as int),
        None => Seq::empty(),
    }
}

/// The address of result page `page` for `domain`.
pub fn yandex_page_url(domain: &str, page: usize) -> (r: String)
    ensures
        r@ == yandex_url(domain@, page as nat),
{
    let mut url = String::from_str("https://yandex.com/search/?text=site:");
    url.append(domain);
    url.append("&p=");
    url.append(decimal_string(page as u64).as_str());
    url
}

/// Appends the candidates of one result page to `out`.
pub fn collect_yandex_page(out: &mut Vec<String>, body: &str, domain: &str)
    ensures
        text_views(final(out)@) == text_views(old(out)@) + yandex_page_candidates(
            body@,
            domain@,
        ),
        all_subdomains(text_views(old(out)@), domain@) ==> all_subdomains(
            text_views(final(out)@),
            domain@,
        ),
{
    let selectors: Vec<&'static str> = vec![
        "a[href^='http']",
        ".Link",
        ".link",
        ".serp-item__link",
    ];
    assert(slice_views(selectors@) =~= yandex_selectors());
    match select_first_links(body, &selectors) {
        Some(links) => {
            collect_link_candidates(out, &links, domain);
        },
        None => {
            assert(text_views(out@) =~= text_views(old(out)@) + Seq::empty());
        },
    }
}

} // verus!
