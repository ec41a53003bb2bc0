//! The enumeration engine: which technique runs for the given arguments,
//! and the steps of each technique.
//!
//! Lookups, page fetches and zone transfers are network operations and
//! happen outside this library. Each technique is a state machine: the
//! caller asks for the next step, performs it, and reports what came back.

use vstd::prelude::*;
use vstd::string::*;
use crate::DnsReconError;
use crate::cli::{
    Args,
    CliErrorView,
    EnumType,
    default_wordlist,
    first_invalid,
    validate_args,
    validation,
};
use crate::cli::wordlist_or_default;
use crate::dns::address::{IpAddress, address_of, parse_address};
use crate::dns::resolver::{DnsHelper, udp_tcp_entries};
use crate::utils::text::{split_by, split_text, text_views, trimmed};

pub mod reverse;
pub mod standard;
pub mod zone_walk;

verus! {

/// The technique to run, with what it needs.
#[derive(Debug, Clone)]
pub enum Technique {
    /// Direct lookups, passive sources, and the resolution of what they
    /// find.
    Standard { domain: String },
    /// The wordlist against the domain, under the concurrency budget.
    BruteForce { domain: String, wordlist: String, concurrency: usize },
    /// Zone transfers from the domain's nameservers.
    ZoneWalk { domain: String },
    /// Reverse lookups over the range.
    Reverse { range: String },
    /// The arguments are valid but lack what the selected technique works
    /// on: nothing runs and the result is empty.
    Nothing,
}

/// Where the results go.
#[derive(Debug, Clone)]
pub struct Outputs {
    pub json_file: Option<String>,
    pub xml_file: Option<String>,
    pub sqlite_file: Option<String>,
    /// Whether the results are printed: they are where no file is named.
    pub stdout: bool,
}

/// What a run does: the resolver to use, the technique, the outputs.
#[derive(Debug, Clone)]
pub struct Plan {
    pub helper: DnsHelper,
    pub technique: Technique,
    pub outputs: Outputs,
}

/// The addresses of the first `n` pieces of a nameserver list, each piece
/// trimmed; `None` where one of them is no address.
pub open spec fn nameserver_addresses(pieces: Seq<Seq<char>>, n: int) -> Option<Seq<IpAddress>>
    decreases n,
{
    if n <= 0 {
        Some(Seq::empty())
    } else {
        match (nameserver_addresses(pieces, n - 1), address_of(trimmed(pieces[n - 1]))) {
            (Some(before), Some(ip)) => Some(before.push(ip)),
            _ => None,
        }
    }
}

/// Whether the technique of `t` is the one that `args` select: each
/// technique runs on the domain, but the reverse lookup, which runs on the
/// range; without that, nothing runs.
pub open spec fn selects(args: Args, t: Technique) -> bool {
    match args.enum_type {
        EnumType::Standard => match args.domain {
            Some(d) => t matches Technique::Standard { domain } && domain@ == d@,
            None => t is Nothing,
        },
        EnumType::BruteForce => match args.domain {
            Some(d) => t matches Technique::BruteForce { domain, wordlist, concurrency }
                && domain@ == d@ && concurrency == args.concurrency && wordlist@ == (
            match args.dict {
                Some(path) => path@,
                None => default_wordlist(),
            }),
            None => t is Nothing,
        },
        EnumType::ZoneWalk => match args.domain {
            Some(d) => t matches Technique::ZoneWalk { domain } && domain@ == d@,
            None => t is Nothing,
        },
        EnumType::Reverse => match args.range {
            Some(r) => t matches Technique::Reverse { range } && range@ == r@,
            None => t is Nothing,
        },
    }
}

/// Whether `outputs` are the ones that `args` name.
pub open spec fn names_outputs(args: Args, outputs: Outputs) -> bool {
    &&& option_text(outputs.json_file) == option_text(args.json_file)
    &&& option_text(outputs.xml_file) == option_text(args.xml_file)
    &&& option_text(outputs.sqlite_file) == option_text(args.sqlite_file)
    &&& outputs.stdout == (args.json_file is None && args.xml_file is None && args.sqlite_file
        is None)
}

/// The text of an optional string.
pub open spec fn option_text(s: Option<String>) -> Option<Seq<char>> {
    match s {
        Some(t) => Some(t@),
        None => None,
    }
}

/// Whether `helper` is the resolver that `args` ask for: the nameservers
/// of the list, each asked over UDP on the UDP port and over TCP on the
/// TCP port of the arguments, or the defaults where no list is given.
pub open spec fn configures(args: Args, helper: DnsHelper) -> bool {
    match args.nameservers {
        Some(list) => {
            let pieces = split_by(list@, ',');
            &&& !helper.use_defaults
            &&& nameserver_addresses(pieces, pieces.len() as int) matches Some(servers)
                && helper.name_servers@ == udp_tcp_entries(servers, args.tcp_port, args.udp_port)
        },
        None => helper.use_defaults && helper.name_servers@.len() == 0,
    }
}

/// A copy of an optional string.
fn copy_option(s: &Option<String>) -> (r: Option<String>)
    ensures
        option_text(r) == option_text(*s),
{
    match s {
        Some(t) => Some(t.clone()),
        None => None,
    }
}

/// The addresses of a comma-separated nameserver list; `None` where a
/// piece, trimmed, is no address.
pub fn parse_nameservers(list: &str) -> (r: Option<Vec<IpAddress>>)
    ensures
        match r {
            Some(servers) => nameserver_addresses(
                split_by(list@, ','),
                split_by(list@, ',').len() as int,
            ) == Some(servers@),
            None => nameserver_addresses(
                split_by(list@, ','),
                split_by(list@, ',').len() as int,
            ) is None,
        },
{
    let pieces = split_text(list, ',');
    let ghost views = split_by(list@, ',');
    let mut servers: Vec<IpAddress> = Vec::new();
    let mut i: usize = 0;
    while i < pieces.len()
        invariant
            i <= pieces.len(),
            text_views(pieces@) == views,
            views == split_by(list@, ','),
            nameserver_addresses(views, i as int) == Some(servers@),
        decreases pieces.len() - i,
    {
        assert(views[i as int] == pieces@[i as int]@);
        let piece = pieces[i].as_str().trim();
        match parse_address(piece) {
            Some(ip) => {
                servers.push(ip);
            },
            None => {
                proof {
                    assert(nameserver_addresses(views, i as int + 1) is None);
                    lemma_nameservers_stay_invalid(views, i as int + 1, views.len() as int);
                }
                return None;
            },
        }
        i += 1;
    }
    assert(views.len() == pieces@.len());
    Some(servers)
}

/// Once a piece is no address, looking at more pieces changes nothing.
proof fn lemma_nameservers_stay_invalid(pieces: Seq<Seq<char>>, n: int, m: int)
    requires
        nameserver_addresses(pieces, n) is None,
        n <= m,
    ensures
        nameserver_addresses(pieces, m) is None,
    decreases m - n,
{
    if n < m {
        lemma_nameservers_stay_invalid(pieces, n, m - 1);
    }
}

/// A nameserver list passes validation exactly if each of its pieces has
/// an address.
pub proof fn lemma_valid_nameservers(pieces: Seq<Seq<char>>, n: int)
    ensures
        first_invalid(pieces, n) is None <==> nameserver_addresses(pieces, n) is Some,
    decreases n,
{
    if n > 0 {
        lemma_valid_nameservers(pieces, n - 1);
    }
}

/// A place where the wordlist may lie, and whether a file is there.
#[derive(Debug, Clone)]
pub struct PathProbe {
    pub path: String,
    pub exists: bool,
}

/// The first of the first `n` probed places where a file is.
pub open spec fn first_existing(probes: Seq<PathProbe>, n: int) -> Option<Seq<char>>
    decreases n,
{
    if n <= 0 {
        None
    } else {
        match first_existing(probes, n - 1) {
            Some(path) => Some(path),
            None => if probes[n - 1].exists {
                Some(probes[n - 1].path@)
            } else {
                None
            },
        }
    }
}

/// Once a place with a file is found, later places change nothing.
proof fn lemma_first_existing_stays(probes: Seq<PathProbe>, n: int, m: int)
    requires
        first_existing(probes, n) is Some,
        n <= m,
    ensures
        first_existing(probes, m) == first_existing(probes, n),
    decreases m - n,
{
    if n < m {
        lemma_first_existing_stays(probes, n, m - 1);
    }
}

/// Resolve the wordlist path: an absolute path is taken as it is; a
/// relative one is looked for in the probed places, in order, and taken as
/// it is where none of them holds a file.
pub fn resolve_wordlist_path(wordlist_path: &str, is_absolute: bool, probes: &Vec<PathProbe>) -> (r:
    String)
    ensures
        r@ == (if is_absolute {
            wordlist_path@
        } else {
            match first_existing(probes@, probes@.len() as int) {
                Some(path) => path,
                None => wordlist_path@,
            }
        }),
{
    if is_absolute {
        return String::from_str(wordlist_path);
    }
    let mut i: usize = 0;
    while i < probes.len()
        invariant
            i <= probes.len(),
            !is_absolute,
            first_existing(probes@, i as int) is None,
        decreases probes.len() - i,
    {
        if probes[i].exists {
            proof {
                assert(first_existing(probes@, i as int + 1) == Some(probes@[i as int].path@));
                lemma_first_existing_stays(probes@, i as int + 1, probes@.len() as int);
            }
            return probes[i].path.clone();
        }
        i += 1;
    }
    String::from_str(wordlist_path)
}

/// Decides what a run does for `args`.
///
/// Arguments that fail validation are refused with the validation's
/// error, before anything else is looked at. Then the resolver is set up,
/// the technique selected, and the outputs named.
pub fn prepare(args: &Args) -> (r: Result<Plan, DnsReconError>)
    ensures
        match r {
            Ok(plan) => {
                &&& validation(*args) is Ok
                &&& configures(*args, plan.helper)
                &&& selects(*args, plan.technique)
                &&& names_outputs(*args, plan.outputs)
            },
            Err(DnsReconError::Cli(e)) => validation(*args) == Err::<(), CliErrorView>(e@),
            Err(_) => false,
        },
{
    match validate_args(args) {
        Ok(()) => {},
        Err(e) => {
            return Err(DnsReconError::Cli(e));
        },
    }
    let domain = match &args.domain {
        Some(d) => d.clone(),
        None => String::new(),
    };
    let helper = match &args.nameservers {
        Some(list) => match parse_nameservers(list.as_str()) {
            Some(servers) => match DnsHelper::with_nameservers_and_ports(
                domain,
                servers,
                args.tcp_port,
                args.udp_port,
            ) {
                Ok(helper) => helper,
                Err(e) => {
                    return Err(DnsReconError::Dns(e));
                },
            },
            None => {
                proof {
                    let pieces = split_by(list@, ',');
                    lemma_valid_nameservers(pieces, pieces.len() as int);
                }
                return Err(
                    DnsReconError::Other(
                        String::from_str("Invalid nameserver: invalid IP address syntax"),
                    ),
                );
            },
        },
        None => match DnsHelper::new(domain) {
            Ok(helper) => helper,
            Err(e) => {
                return Err(DnsReconError::Dns(e));
            },
        },
    };
    let technique = match args.enum_type {
        EnumType::Standard => match &args.domain {
            Some(d) => Technique::Standard { domain: d.clone() },
            None => Technique::Nothing,
        },
        EnumType::BruteForce => match &args.domain {
            Some(d) => Technique::BruteForce {
                domain: d.clone(),
                wordlist: wordlist_or_default(args),
                concurrency: args.concurrency,
            },
            None => Technique::Nothing,
        },
        EnumType::ZoneWalk => match &args.domain {
            Some(d) => Technique::ZoneWalk { domain: d.clone() },
            None => Technique::Nothing,
        },
        EnumType::Reverse => match &args.range {
            Some(r) => Technique::Reverse { range: r.clone() },
            None => Technique::Nothing,
        },
    };
    let outputs = Outputs {
        json_file: copy_option(&args.json_file),
        xml_file: copy_option(&args.xml_file),
        sqlite_file: copy_option(&args.sqlite_file),
        stdout: args.json_file.is_none() && args.xml_file.is_none() && args.sqlite_file.is_none(),
    };
    Ok(Plan { helper, technique, outputs })
}

} // verus!
