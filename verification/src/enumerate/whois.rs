//! WHOIS: the query to send, and what is read from a response.
//!
//! The connection to the WHOIS server is made outside this library.

use vstd::prelude::*;
use vstd::string::*;
use crate::dns::address::IpAddress;
use crate::enumerate::html::optional_views;
use crate::utils::text::{slice_views, text_views, trimmed};

verus! {

/// For each match of the regular expression `pattern` in `text`, in order,
/// the texts of its capture groups: first the whole match, which is group
/// 0, then the groups of the pattern. A group that took no part in the
/// match has none. `None` where `pattern` is no valid regular expression.
pub uninterp spec fn all_groups(pattern: Seq<char>, text: Seq<char>) -> Option<
    Seq<Seq<Option<Seq<char>>>>,
>;

/// The texts of the groups of a list of matches.
pub open spec fn match_views(matches: Seq<Vec<Option<String>>>) -> Seq<Seq<Option<Seq<char>>>> {
    matches.map_values(|groups: Vec<Option<String>>| optional_views(groups@))
}

/// Compiles the pattern with `regex::Regex::new`, walks
/// `Regex::captures_iter` over the text and reads the groups of each match
/// from `Captures::iter`.
#[verifier::external_body]
fn capture_groups(pattern: &str, text: &str) -> (r: Option<Vec<Vec<Option<String>>>>)
    ensures
        match r {
            Some(matches) => all_groups(pattern@, text@) == Some(match_views(matches@)),
            None => all_groups(pattern@, text@) is None,
        },
{
    let re = match regex::Regex::new(pattern) {
        Ok(re) => re,
        Err(_) => return None,
    };
    let mut found = Vec::new();
    for captures in re.captures_iter(text) {
        let mut groups = Vec::new();
        for group in captures.iter() {
            groups.push(group.map(|m| m.as_str().to_string()));
        }
        found.push(groups);
    }
    Some(found)
}

/// The first group of the pattern in the first match of `pattern` in
/// `text`, which is group 1 of that match; `None` where the pattern is
/// invalid, nothing matches, or the group took no part.
pub open spec fn first_group(pattern: Seq<char>, text: Seq<char>) -> Option<Seq<char>> {
    match all_groups(pattern, text) {
        Some(matches) => if matches.len() > 0 && matches[0].len() > 1 {
            matches[0][1]
        } else {
            None
        },
        None => None,
    }
}

/// The first group of the first match among the first `n` patterns that
/// have one, the patterns tried in order.
pub open spec fn first_group_of(patterns: Seq<Seq<char>>, text: Seq<char>, n: int) -> Option<
    Seq<char>,
>
    decreases n,
{
    if n <= 0 {
        None
    } else {
        match first_group_of(patterns, text, n - 1) {
            Some(found) => Some(found),
            None => first_group(patterns[n - 1], text),
        }
    }
}

/// Once a pattern has matched, later patterns change nothing.
proof fn lemma_first_group_stays(patterns: Seq<Seq<char>>, text: Seq<char>, n: int, m: int)
    requires
        first_group_of(patterns, text, n) is Some,
        n <= m,
    ensures
        first_group_of(patterns, text, m) == first_group_of(patterns, text, n),
    decreases m - n,
{
    if n < m {
        lemma_first_group_stays(patterns, text, n, m - 1);
    }
}

/// The first group of the first match of `pattern` in `text`.
pub fn find_first_group(pattern: &str, text: &str) -> (r: Option<String>)
    ensures
        match r {
            Some(found) => first_group(pattern@, text@) == Some(found@),
            None => first_group(pattern@, text@) is None,
        },
{
    match capture_groups(pattern, text) {
        Some(matches) => {
            if matches.len() > 0 && matches[0].len() > 1 {
                assert(match_views(matches@)[0] == optional_views(matches@[0]@));
                assert(optional_views(matches@[0]@)[1] == (match matches@[0]@[1] {
                    Some(s) => Some(s@),
                    None => None,
                }));
                match &matches[0][1] {
                    Some(found) => Some(found.clone()),
                    None => None,
                }
            } else {
                None
            }
        },
        None => None,
    }
}

/// Tries the patterns in order and hands back the first group of the
/// first that matches.
pub fn find_first_group_of(patterns: &Vec<&'static str>, text: &str) -> (r: Option<String>)
    ensures
        match r {
            Some(found) => first_group_of(
                slice_views(patterns@),
                text@,
                patterns@.len() as int,
            ) == Some(found@),
            None => first_group_of(slice_views(patterns@), text@, patterns@.len() as int)
                is None,
        },
{
    let ghost views = slice_views(patterns@);
    let mut i: usize = 0;
    while i < patterns.len()
        invariant
            i <= patterns.len(),
            views == slice_views(patterns@),
            first_group_of(views, text@, i as int) is None,
        decreases patterns.len() - i,
    {
        assert(views[i as int] == patterns@[i as int]@);
        match find_first_group(patterns[i], text) {
            Some(found) => {
                proof {
                    lemma_first_group_stays(views, text@, i as int + 1, views.len() as int);
                }
                return Some(found);
            },
            None => {},
        }
        i += 1;
    }
    None
}

/// The WHOIS server that a lookup starts at.
pub open spec fn whois_server() -> Seq<char> {
    "whois.arin.net"@
}

/// Determine the appropriate WHOIS server for an IP address: every lookup
/// starts at the same registry, which refers to the others.
pub fn get_whois_server(_ip: IpAddress) -> (r: &'static str)
    ensures
        r@ == whois_server(),
{
    "whois.arin.net"
}

/// The query for an address: its text and a line end.
pub fn whois_query(ip: IpAddress) -> (r: String)
    ensures
        r@ == ip.text() + "\r\n"@,
{
    ip.to_text().concat("\r\n")
}

/// The first `n` lines of a response, each followed by a line feed.
pub open spec fn joined_lines(lines: Seq<Seq<char>>, n: int) -> Seq<char>
    decreases n,
{
    if n <= 0 {
        Seq::empty()
    } else {
        joined_lines(lines, n - 1) + lines[n - 1] + "\n"@
    }
}

/// The text of a response, given its lines.
pub fn join_response_lines(lines: &Vec<String>) -> (r: String)
    ensures
        r@ == joined_lines(text_views(lines@), lines@.len() as int),
{
    let ghost views = text_views(lines@);
    let mut out = String::new();
    let mut i: usize = 0;
    while i < lines.len()
        invariant
            i <= lines.len(),
            views == text_views(lines@),
            out@ == joined_lines(views, i as int),
        decreases lines.len() - i,
    {
        assert(views[i as int] == lines@[i as int]@);
        out.append(lines[i].as_str());
        out.append("\n");
        i += 1;
    }
    out
}

/// The patterns that name a referral server, in the order in which they
/// are tried.
pub open spec fn referral_patterns() -> Seq<Seq<char>> {
    seq!["ReferralServer:\\s*whois://([^\\s]+)"@, "WhoisServer:\\s*([^\\s]+)"@, "refer:\\s*([^\\s]+)"@]
}

/// The patterns that name the organization, in the order in which they are
/// tried.
pub open spec fn orgname_patterns() -> Seq<Seq<char>> {
    seq![
        "OrgName:\\s*(.+)"@,
        "Organization:\\s*(.+)"@,
        "owner:\\s*(.+)"@,
        "organisation:\\s*(.+)"@,
        "org-name:\\s*(.+)"@,
    ]
}

/// The patterns that name the organization's handle, in the order in which
/// they are tried.
pub open spec fn handle_patterns() -> Seq<Seq<char>> {
    seq!["OrgId:\\s*(.+)"@, "handle:\\s*(.+)"@, "org-handle:\\s*(.+)"@]
}

/// The pattern of a network range: `NetRange:`, the first address, a dash,
/// the last address.
pub open spec fn netrange_pattern() -> Seq<char> {
    "NetRange:\\s*([^\\s]+)\\s*-\\s*([^\\s]+)"@
}

/// The pattern of a CIDR block: `CIDR:` and the block.
pub open spec fn cidr_pattern() -> Seq<char> {
    "CIDR:\\s*([^\\s]+)"@
}

/// The text that stands for a value that the response does not hold.
pub open spec fn not_found() -> Seq<char> {
    "Not Found"@
}

/// The value of the first of `patterns` that matches in `data`, trimmed;
/// `Not Found` where none matches.
pub open spec fn labelled_value(patterns: Seq<Seq<char>>, data: Seq<char>) -> Seq<char> {
    match first_group_of(patterns, data, patterns.len() as int) {
        Some(value) => trimmed(value),
        None => not_found(),
    }
}

/// Extract referral server from WHOIS response
pub fn extract_referral_server(data: &str) -> (r: Option<String>)
    ensures
        match r {
            Some(server) => first_group_of(
                referral_patterns(),
                data@,
                referral_patterns().len() as int,
            ) == Some(server@),
            None => first_group_of(referral_patterns(), data@, referral_patterns().len() as int)
                is None,
        },
{
    let patterns: Vec<&'static str> = vec![
        "ReferralServer:\\s*whois://([^\\s]+)",
        "WhoisServer:\\s*([^\\s]+)",
        "refer:\\s*([^\\s]+)",
    ];
    assert(slice_views(patterns@) =~= referral_patterns());
    find_first_group_of(&patterns, data)
}

/// Extract organization name from WHOIS data
pub fn get_whois_orgname(data: &str) -> (r: String)
    ensures
        r@ == labelled_value(orgname_patterns(), data@),
{
    let patterns: Vec<&'static str> = vec![
        "OrgName:\\s*(.+)",
        "Organization:\\s*(.+)",
        "owner:\\s*(.+)",
        "organisation:\\s*(.+)",
        "org-name:\\s*(.+)",
    ];
    assert(slice_views(patterns@) =~= orgname_patterns());
    match find_first_group_of(&patterns, data) {
        Some(value) => String::from_str(value.as_str().trim()),
        None => String::from_str("Not Found"),
    }
}

/// Extract organization handle from WHOIS data
pub fn get_whois_org_handle(data: &str) -> (r: String)
    ensures
        r@ == labelled_value(handle_patterns(), data@),
{
    let patterns: Vec<&'static str> = vec!["OrgId:\\s*(.+)", "handle:\\s*(.+)", "org-handle:\\s*(.+)"];
    assert(slice_views(patterns@) =~= handle_patterns());
    match find_first_group_of(&patterns, data) {
        Some(value) => String::from_str(value.as_str().trim()),
        None => String::from_str("Not Found"),
    }
}

/// The ranges of the first `n` matches of the range pattern: a match gives
/// its two bounds, which are its groups 1 and 2; one that lacks a bound
/// gives nothing.
pub open spec fn range_pairs(matches: Seq<Seq<Option<Seq<char>>>>, n: int) -> Seq<
    (Seq<char>, Seq<char>),
>
    decreases n,
{
    if n <= 0 {
        Seq::empty()
    } else {
        let groups = matches[n - 1];
        if groups.len() >= 3 && groups[1] is Some && groups[2] is Some {
            range_pairs(matches, n - 1).push((groups[1]->0, groups[2]->0))
        } else {
            range_pairs(matches, n - 1)
        }
    }
}

/// The ranges of the first `n` matches of the block pattern: a match gives
/// its block, which is its group 1, as both bounds; one that lacks the
/// block gives nothing.
pub open spec fn block_pairs(matches: Seq<Seq<Option<Seq<char>>>>, n: int) -> Seq<
    (Seq<char>, Seq<char>),
>
    decreases n,
{
    if n <= 0 {
        Seq::empty()
    } else {
        let groups = matches[n - 1];
        if groups.len() >= 2 && groups[1] is Some {
            block_pairs(matches, n - 1).push((groups[1]->0, groups[1]->0))
        } else {
            block_pairs(matches, n - 1)
        }
    }
}

/// The networks that a response names: first its ranges, then its blocks.
pub open spec fn whois_nets(data: Seq<char>) -> Seq<(Seq<char>, Seq<char>)> {
    (match all_groups(netrange_pattern(), data) {
        Some(matches) => range_pairs(matches, matches.len() as int),
        None => Seq::empty(),
    }) + (match all_groups(cidr_pattern(), data) {
        Some(matches) => block_pairs(matches, matches.len() as int),
        None => Seq::empty(),
    })
}

/// The texts of a list of pairs.
pub open spec fn pair_views(pairs: Seq<(String, String)>) -> Seq<(Seq<char>, Seq<char>)> {
    pairs.map_values(|p: (String, String)| (p.0@, p.1@))
}

/// Parse network ranges from WHOIS data
pub fn parse_whois_nets(data: &str) -> (r: Vec<(String, String)>)
    ensures
        pair_views(r@) == whois_nets(data@),
{
    let mut nets: Vec<(String, String)> = Vec::new();
    assert(pair_views(nets@) =~= Seq::empty());
    match capture_groups("NetRange:\\s*([^\\s]+)\\s*-\\s*([^\\s]+)", data) {
        Some(matches) => {
            let ghost views = match_views(matches@);
            let mut i: usize = 0;
            assert(pair_views(nets@) =~= range_pairs(views, 0));
            while i < matches.len()
                invariant
                    i <= matches.len(),
                    views == match_views(matches@),
                    pair_views(nets@) == range_pairs(views, i as int),
                decreases matches.len() - i,
            {
                let groups = &matches[i];
                assert(views[i as int] == optional_views(groups@));
                if groups.len() >= 3 {
                    assert(optional_views(groups@)[1] == (match groups@[1] {
                        Some(s) => Some(s@),
                        None => None,
                    }));
                    assert(optional_views(groups@)[2] == (match groups@[2] {
                        Some(s) => Some(s@),
                        None => None,
                    }));
                    match (&groups[1], &groups[2]) {
                        (Some(start), Some(end)) => {
                            let ghost before = nets@;
                            nets.push((start.clone(), end.clone()));
                            assert(pair_views(nets@) =~= pair_views(before).push(
                                (start@, end@),
                            ));
                        },
                        _ => {},
                    }
                }
                i += 1;
            }
        },
        None => {},
    }
    let ghost ranges = pair_views(nets@);
    match capture_groups("CIDR:\\s*([^\\s]+)", data) {
        Some(matches) => {
            let ghost views = match_views(matches@);
            let mut i: usize = 0;
            assert(pair_views(nets@) =~= ranges + block_pairs(views, 0));
            while i < matches.len()
                invariant
                    i <= matches.len(),
                    views == match_views(matches@),
                    pair_views(nets@) == ranges + block_pairs(views, i as int),
                decreases matches.len() - i,
            {
                let groups = &matches[i];
                assert(views[i as int] == optional_views(groups@));
                if groups.len() >= 2 {
                    assert(optional_views(groups@)[1] == (match groups@[1] {
                        Some(s) => Some(s@),
                        None => None,
                    }));
                    match &groups[1] {
                        Some(block) => {
                            let ghost before = nets@;
                            nets.push((block.clone(), block.clone()));
                            assert(pair_views(nets@) =~= pair_views(before).push(
                                (block@, block@),
                            ));
                            assert(pair_views(nets@) =~= ranges + block_pairs(
                                views,
                                i as int + 1,
                            ));
                        },
                        None => {},
                    }
                }
                i += 1;
            }
        },
        None => {
            assert(pair_views(nets@) =~= ranges + Seq::empty());
        },
    }
    nets
}

/// The text that separates a response from the response of the server it
/// refers to.
pub open spec fn referral_separator() -> Seq<char> {
    "\n--- Referral Server Response ---\n"@
}

/// A response with the response of the referral server after it.
pub fn with_referral(response: String, referral_response: &str) -> (r: String)
    ensures
        r@ == response@ + referral_separator() + referral_response@,
{
    let mut out = response;
    out.append("\n--- Referral Server Response ---\n");
    out.append(referral_response);
    out
}

} // verus!
