//! Certificate Transparency log scraping from crt.sh: the page to ask for,
//! and the candidates that it holds.

use vstd::prelude::*;
use vstd::string::*;
use crate::enumerate::{EnumerationError, EnumerationErrorView};
use crate::enumerate::html::{all_subdomains, optional_views, select_first_texts, selected_texts};
use crate::enumerate::subdomain::{chars_are_subdomain, is_subdomain_of};
use crate::utils::text::{chars_of, chars_start_with, text_views, trimmed};

verus! {

/// The selector of the table cells that hold the names of a certificate.
pub open spec fn crtsh_selector() -> Seq<char> {
    "table tr td table tr td:nth-child(5)"@
}

/// The address of the page that lists the certificates of `domain` and of
/// the names below it.
pub open spec fn crtsh_url(domain: Seq<char>) -> Seq<char> {
    "https://crt.sh/?q=%."@ + domain
}

/// Whether the name of a certificate counts: trimmed, it must be a proper
/// subdomain of `domain` and no wildcard.
pub open spec fn is_certificate_candidate(name: Seq<char>, domain: Seq<char>) -> bool {
    is_subdomain_of(name, domain) && !"*."@.is_prefix_of(name)
}

/// The candidates among the first `n` cell texts: each text that is
/// present and, trimmed, counts, gives its trimmed form, in order.
pub open spec fn certificate_candidates(
    texts: Seq<Option<Seq<char>>>,
    domain: Seq<char>,
    n: int,
) -> Seq<Seq<char>>
    decreases n,
{
    if n <= 0 {
        Seq::empty()
    } else {
        match texts[n - 1] {
            Some(text) => if is_certificate_candidate(trimmed(text), domain) {
                certificate_candidates(texts, domain, n - 1).push(trimmed(text))
            } else {
                certificate_candidates(texts, domain, n - 1)
            },
            None => certificate_candidates(texts, domain, n - 1),
        }
    }
}

/// The candidates of the page, or the failure to read it.
pub open spec fn crtsh_page_candidates(body: Seq<char>, domain: Seq<char>) -> Result<
    Seq<Seq<char>>,
    EnumerationErrorView,
> {
    match selected_texts(body, crtsh_selector()) {
        Some(texts) => Ok(certificate_candidates(texts, domain, texts.len() as int)),
        None => Err(EnumerationErrorView::Parse("Failed to parse CSS selector"@)),
    }
}

/// The address of the page for `domain`.
pub fn crtsh_page_url(domain: &str) -> (r: String)
    ensures
        r@ == crtsh_url(domain@),
{
    String::from_str("https://crt.sh/?q=%.").concat(domain)
}

/// Appends the candidates of the page to `out`; on failure `out` stays as
/// it is.
pub fn collect_crtsh_page(out: &mut Vec<String>, body: &str, domain: &str) -> (r: Result<
    (),
    EnumerationError,
>)
    ensures
        match r {
            Ok(()) => crtsh_page_candidates(body@, domain@) matches Ok(found) && text_views(
                final(out)@,
            ) == text_views(old(out)@) + found,
            Err(e) => crtsh_page_candidates(body@, domain@) == Err::<
                Seq<Seq<char>>,
                EnumerationErrorView,
            >(e@) && final(out)@ == old(out)@,
        },
        all_subdomains(text_views(old(out)@), domain@) ==> all_subdomains(
            text_views(final(out)@),
            domain@,
        ),
{
    let texts = match select_first_texts(body, "table tr td table tr td:nth-child(5)") {
        Some(texts) => texts,
        None => {
            return Err(EnumerationError::Parse(String::from_str("Failed to parse CSS selector")));
        },
    };
    let ghost views = optional_views(texts@);
    let ghost start = text_views(out@);
    let target = chars_of(domain);
    let wildcard = chars_of("*.");
    let mut i: usize = 0;
    assert(text_views(out@) =~= start + certificate_candidates(views, domain@, 0));
    while i < texts.len()
        invariant
            i <= texts.len(),
            views == optional_views(texts@),
            target@ == domain@,
            wildcard@ == "*."@,
            text_views(out@) == start + certificate_candidates(views, domain@, i as int),
            all_subdomains(start, domain@) ==> all_subdomains(text_views(out@), domain@),
        decreases texts.len() - i,
    {
        match &texts[i] {
            Some(text) => {
                assert(views[i as int] == Some(text@));
                let name = text.as_str().trim();
                let chars = chars_of(name);
                if chars_are_subdomain(&chars, &target) && !chars_start_with(&chars, &wildcard) {
                    let ghost before = out@;
                    out.push(String::from_str(name));
                    assert(text_views(out@) =~= text_views(before).push(trimmed(text@)));
                    assert(text_views(out@) =~= start + certificate_candidates(
                        views,
                        domain@,
                        i as int + 1,
                    ));
                }
            },
            None => {
                assert(views[i as int] is None);
            },
        }
        i += 1;
    }
    Ok(())
}

} // verus!
