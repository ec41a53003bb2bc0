//! The candidate filter of the passive sources: which host of a URL counts
//! as a subdomain of the target domain.

use vstd::prelude::*;
use vstd::string::*;
use crate::utils::text::{chars_end_with, chars_of, chars_start_with, string_of_chars};

verus! {

/// `host` is a proper subdomain of `domain`: it ends with the domain, is
/// longer than it, and the character before the domain suffix is a dot.
/// So `notexample.com` is no subdomain of `example.com`, and neither is
/// `example.com` itself.
pub open spec fn is_subdomain_of(host: Seq<char>, domain: Seq<char>) -> bool {
    &&& host.len() > domain.len()
    &&& domain.is_suffix_of(host)
    &&& host[host.len() - domain.len() - 1] == '.'
}

/// The host that a URL parser finds in `url`; `None` where the text is no
/// URL or the URL has no host.
pub uninterp spec fn url_host_of(url: Seq<char>) -> Option<Seq<char>>;

/// Parses a URL through `url::Url::parse` and reads its host through
/// `Url::host_str`.
#[verifier::external_body]
fn url_host(url: &str) -> (r: Option<String>)
    ensures
        match r {
            Some(h) => url_host_of(url@) == Some(h@),
            None => url_host_of(url@) is None,
        },
{
    match url::Url::parse(url) {
        Ok(parsed) => match parsed.host_str() {
            Some(h) => Some(h.to_string()),
            None => None,
        },
        Err(_) => None,
    }
}

/// Whether `c` ends the host of a link: the path, the query and the
/// fragment begin with these.
pub open spec fn ends_host(c: char) -> bool {
    c == '/' || c == '?' || c == '#'
}

/// The position of the first character of `s` that ends a host, or the
/// length of `s` where it has none.
pub open spec fn host_end(s: Seq<char>) -> int
    decreases s.len(),
{
    if s.len() == 0 {
        0
    } else if ends_host(s.first()) {
        0
    } else {
        1 + host_end(s.drop_first())
    }
}

/// A position that ends the host, with none before it, is the host's end.
proof fn lemma_host_end_is(s: Seq<char>, at: int)
    requires
        0 <= at <= s.len(),
        at < s.len() ==> ends_host(s[at]),
        forall|i: int| 0 <= i < at ==> !ends_host(s[i]),
    ensures
        host_end(s) == at,
    decreases s.len(),
{
    if at > 0 {
        let rest = s.drop_first();
        assert(!ends_host(s[0]));
        assert forall|i: int| 0 <= i < at - 1 implies !ends_host(rest[i]) by {
            assert(rest[i] == s[i + 1]);
        }
        if at < s.len() {
            assert(rest[at - 1] == s[at]);
        }
        lemma_host_end_is(rest, at - 1);
    }
}

/// The host read from `url` by hand: what follows the scheme `http://` or
/// `https://` (the whole text where it has neither), up to the first `/`,
/// `?` or `#`.
pub open spec fn manual_host(url: Seq<char>) -> Seq<char> {
    let rest = if "http://"@.is_prefix_of(url) {
        url.skip("http://"@.len() as int)
    } else if "https://"@.is_prefix_of(url) {
        url.skip("https://"@.len() as int)
    } else {
        url
    };
    rest.take(host_end(rest))
}

/// The subdomain of `domain` that the link `url` points to, where
/// `parsed_host` is the host that the URL parser found.
///
/// Only links that begin with `http` count. A candidate is always the host
/// of the link: where the parser finds a host, that host decides, and it
/// is taken exactly if it is a proper subdomain. Only where the parser
/// finds none is the host read by hand, and taken if it is one.
pub open spec fn extracted(url: Seq<char>, domain: Seq<char>, parsed_host: Option<Seq<char>>)
    -> Option<Seq<char>> {
    if !"http"@.is_prefix_of(url) {
        None
    } else {
        let host = match parsed_host {
            Some(h) => h,
            None => manual_host(url),
        };
        if is_subdomain_of(host, domain) {
            Some(host)
        } else {
            None
        }
    }
}

/// `r` is the text `expected`, or both are none.
pub open spec fn is_text(r: Option<String>, expected: Option<Seq<char>>) -> bool {
    match r {
        Some(s) => expected == Some(s@),
        None => expected is None,
    }
}

/// Whether `host` is a proper subdomain of `domain`.
pub fn chars_are_subdomain(host: &Vec<char>, domain: &Vec<char>) -> (r: bool)
    ensures
        r == is_subdomain_of(host@, domain@),
{
    host.len() > domain.len() && chars_end_with(host, domain) && host[host.len() - domain.len()
        - 1] == '.'
}

/// The part of `chars` from position `from` up to the first character
/// after it that ends a host.
fn host_from(chars: &Vec<char>, from: usize) -> (r: Vec<char>)
    requires
        from <= chars.len(),
    ensures
        r@ == chars@.skip(from as int).take(host_end(chars@.skip(from as int))),
{
    let ghost rest = chars@.skip(from as int);
    let mut out: Vec<char> = Vec::new();
    let mut i: usize = from;
    while i < chars.len() && chars[i] != '/' && chars[i] != '?' && chars[i] != '#'
        invariant
            from <= i <= chars.len(),
            rest == chars@.skip(from as int),
            out@ == rest.take(i - from),
            forall|k: int| 0 <= k < i - from ==> !ends_host(rest[k]),
        decreases chars.len() - i,
    {
        out.push(chars[i]);
        assert(out@ =~= rest.take(i - from + 1));
        i += 1;
    }
    proof {
        if i < chars.len() {
            assert(rest[i - from] == chars@[i as int]);
        }
        lemma_host_end_is(rest, i - from);
    }
    out
}

/// The subdomain of `domain` that the link `url` points to, given the host
/// that the URL parser found in it.
pub fn select_subdomain(url: &str, domain: &str, parsed_host: Option<String>) -> (r: Option<
    String,
>)
    ensures
        is_text(
            r,
            extracted(
                url@,
                domain@,
                match parsed_host {
                    Some(h) => Some(h@),
                    None => None,
                },
            ),
        ),
        r matches Some(h) ==> is_subdomain_of(h@, domain@),
        r matches Some(h) ==> (match parsed_host {
            Some(p) => p@ == h@,
            None => h@ == manual_host(url@),
        }),
{
    let link = chars_of(url);
    let target = chars_of(domain);
    if !chars_start_with(&link, &chars_of("http")) {
        return None;
    }
    match parsed_host {
        Some(host) => {
            if chars_are_subdomain(&chars_of(host.as_str()), &target) {
                Some(host)
            } else {
                None
            }
        },
        None => {
            let plain = chars_of("http://");
            let secure = chars_of("https://");
            let hostname = if chars_start_with(&link, &plain) {
                host_from(&link, plain.len())
            } else if chars_start_with(&link, &secure) {
                host_from(&link, secure.len())
            } else {
                assert(link@.skip(0) =~= link@);
                host_from(&link, 0)
            };
            if chars_are_subdomain(&hostname, &target) {
                Some(string_of_chars(&hostname))
            } else {
                None
            }
        },
    }
}

/// Extract subdomain from a URL: the host of the link, where the link
/// begins with `http` and its host is a proper subdomain of `domain`.
pub fn extract_subdomain_from_url(url: &str, domain: &str) -> (r: Option<String>)
    ensures
        is_text(r, extracted(url@, domain@, url_host_of(url@))),
        r matches Some(h) ==> is_subdomain_of(h@, domain@),
        r matches Some(h) ==> url_host_of(url@) is None || url_host_of(url@) == Some(h@),
{
    if !chars_start_with(&chars_of(url), &chars_of("http")) {
        return None;
    }
    let host = url_host(url);
    select_subdomain(url, domain, host)
}

} // verus!
