//! The command-line surface: the arguments as plain values, and their
//! validation.

use vstd::prelude::*;
use vstd::string::*;
use crate::dns::address::{address_of, parse_address};
use crate::utils::text::{
    lowercase,
    same_text,
    split_by,
    split_text,
    text_views,
    trimmed,
};

pub mod progress;

verus! {

/// CLI-related errors
#[derive(Debug, Clone)]
pub enum CliError {
    InvalidArgument(String),
    ParseError(String),
    Clap(String),
}

/// The mathematical value of a [`CliError`].
pub enum CliErrorView {
    InvalidArgument(Seq<char>),
    ParseError(Seq<char>),
    Clap(Seq<char>),
}

impl View for CliError {
    type V = CliErrorView;

    open spec fn view(&self) -> CliErrorView {
        match self {
            CliError::InvalidArgument(m) => CliErrorView::InvalidArgument(m@),
            CliError::ParseError(m) => CliErrorView::ParseError(m@),
            CliError::Clap(m) => CliErrorView::Clap(m@),
        }
    }
}

impl CliErrorView {
    /// The text of the error.
    pub open spec fn message(self) -> Seq<char> {
        match self {
            CliErrorView::InvalidArgument(m) => "Invalid argument: "@ + m,
            CliErrorView::ParseError(m) => "Argument parsing error: "@ + m,
            CliErrorView::Clap(m) => m,
        }
    }
}

impl CliError {
    /// The text of the error.
    pub fn message(&self) -> (r: String)
        ensures
            r@ == self@.message(),
    {
        match self {
            CliError::InvalidArgument(m) => String::from_str("Invalid argument: ").concat(
                m.as_str(),
            ),
            CliError::ParseError(m) => String::from_str("Argument parsing error: ").concat(
                m.as_str(),
            ),
            CliError::Clap(m) => m.clone(),
        }
    }
}

/// Types of enumeration that can be performed
#[derive(Debug, Clone, Copy, PartialEq, Eq, Structural)]
pub enum EnumType {
    /// Standard enumeration
    Standard,
    /// Brute force enumeration
    BruteForce,
    /// Zone walk enumeration
    ZoneWalk,
    /// Reverse DNS lookup
    Reverse,
}

/// Main arguments structure
#[derive(Debug, Clone)]
pub struct Args {
    /// Domain to enumerate
    pub domain: Option<String>,
    /// Type of enumeration to perform
    pub enum_type: EnumType,
    /// Output results to JSON file
    pub json_file: Option<String>,
    /// Output results to XML file
    pub xml_file: Option<String>,
    /// Output results to SQLite database
    pub sqlite_file: Option<String>,
    /// Wordlist for brute force enumeration
    pub dict: Option<String>,
    /// Be verbose
    pub verbose: u8,
    /// Number of concurrent lookups
    pub concurrency: usize,
    /// Nameservers to use for DNS queries, separated by commas
    pub nameservers: Option<String>,
    /// TCP port to use for DNS queries
    pub tcp_port: u16,
    /// UDP port to use for DNS queries
    pub udp_port: u16,
    /// Perform a reverse lookup of a given CIDR or IP range
    pub range: Option<String>,
    /// Perform a reverse lookup of a given CIDR or IP range from a file
    pub range_file: Option<String>,
    /// HTTP proxy to use for requests
    pub proxy: Option<String>,
}

/// The wordlist that brute force uses where none is given.
pub open spec fn default_wordlist() -> Seq<char> {
    "data/subdomains-top1mil-5000.txt"@
}

/// The enumeration type that a lower-case selector names.
pub open spec fn enum_type_named(lower: Seq<char>) -> Option<EnumType> {
    if lower == "std"@ || lower == "standard"@ {
        Some(EnumType::Standard)
    } else if lower == "brt"@ || lower == "bruteforce"@ {
        Some(EnumType::BruteForce)
    } else if lower == "zonewalk"@ {
        Some(EnumType::ZoneWalk)
    } else if lower == "reverse"@ {
        Some(EnumType::Reverse)
    } else {
        None
    }
}

/// Parse enumeration type from string: the selector is matched without
/// regard to case.
pub fn parse_enum_type(s: &str) -> (r: Result<EnumType, String>)
    ensures
        match r {
            Ok(t) => enum_type_named(lowercase(s@)) == Some(t),
            Err(m) => enum_type_named(lowercase(s@)) is None && m@
                == "Invalid enumeration type: "@ + s@,
        },
{
    let lower = s.to_lowercase();
    let l = lower.as_str();
    if same_text(l, "std") || same_text(l, "standard") {
        Ok(EnumType::Standard)
    } else if same_text(l, "brt") || same_text(l, "bruteforce") {
        Ok(EnumType::BruteForce)
    } else if same_text(l, "zonewalk") {
        Ok(EnumType::ZoneWalk)
    } else if same_text(l, "reverse") {
        Ok(EnumType::Reverse)
    } else {
        Err(String::from_str("Invalid enumeration type: ").concat(s))
    }
}

/// The index of the first of the first `n` pieces that, trimmed, is no IP
/// address; `None` where each of them is one.
pub open spec fn first_invalid(pieces: Seq<Seq<char>>, n: int) -> Option<int>
    decreases n,
{
    if n <= 0 {
        None
    } else {
        match first_invalid(pieces, n - 1) {
            Some(i) => Some(i),
            None => if address_of(trimmed(pieces[n - 1])) is None {
                Some(n - 1)
            } else {
                None
            },
        }
    }
}

/// The outcome of validating `args`: the first rule that fails decides.
///
/// 1. Every type but `Reverse` needs a domain, a range or a range file;
///    `Reverse` needs a range or a range file.
/// 2. No port may be 0.
/// 3. Each nameserver of the comma-separated list, trimmed, must be an IP
///    address.
pub open spec fn validation(args: Args) -> Result<(), CliErrorView> {
    let targetless = args.range is None && args.range_file is None;
    if args.enum_type != EnumType::Reverse && args.domain is None && targetless {
        Err(
            CliErrorView::InvalidArgument(
                "Domain, range, or range file must be specified for this enumeration type"@,
            ),
        )
    } else if args.enum_type == EnumType::Reverse && targetless {
        Err(
            CliErrorView::InvalidArgument(
                "Range or range file must be specified for reverse enumeration"@,
            ),
        )
    } else if args.tcp_port == 0 || args.udp_port == 0 {
        Err(CliErrorView::InvalidArgument("Port numbers must be between 1 and 65535"@))
    } else {
        match args.nameservers {
            Some(list) => {
                let pieces = split_by(list@, ',');
                match first_invalid(pieces, pieces.len() as int) {
                    Some(i) => Err(
                        CliErrorView::InvalidArgument(
                            "Invalid nameserver IP address: "@ + pieces[i],
                        ),
                    ),
                    None => Ok(()),
                }
            },
            None => Ok(()),
        }
    }
}

fn invalid_argument(message: &str) -> (r: Result<(), CliError>)
    ensures
        r matches Err(e) && e@ == CliErrorView::InvalidArgument(message@),
{
    Err(CliError::InvalidArgument(String::from_str(message)))
}

/// Validate command line arguments
pub fn validate_args(args: &Args) -> (r: Result<(), CliError>)
    ensures
        match r {
            Ok(()) => validation(*args) == Ok::<(), CliErrorView>(()),
            Err(e) => validation(*args) == Err::<(), CliErrorView>(e@),
        },
{
    let targetless = args.range.is_none() && args.range_file.is_none();
    match args.enum_type {
        EnumType::Standard | EnumType::BruteForce | EnumType::ZoneWalk => {
            if args.domain.is_none() && targetless {
                return invalid_argument(
                    "Domain, range, or range file must be specified for this enumeration type",
                );
            }
        },
        EnumType::Reverse => {
            if targetless {
                return invalid_argument(
                    "Range or range file must be specified for reverse enumeration",
                );
            }
        },
    }
    if args.tcp_port == 0 || args.udp_port == 0 {
        return invalid_argument("Port numbers must be between 1 and 65535");
    }
    match &args.nameservers {
        Some(list) => {
            let pieces = split_text(list.as_str(), ',');
            let ghost views = split_by(list@, ',');
            let mut i: usize = 0;
            while i < pieces.len()
                invariant
                    i <= pieces.len(),
                    text_views(pieces@) == views,
                    first_invalid(views, i as int) is None,
                    validation(*args) == (match first_invalid(views, views.len() as int) {
                        Some(k) => Err::<(), CliErrorView>(
                            CliErrorView::InvalidArgument(
                                "Invalid nameserver IP address: "@ + views[k],
                            ),
                        ),
                        None => Ok::<(), CliErrorView>(()),
                    }),
                decreases pieces.len() - i,
            {
                assert(views[i as int] == pieces@[i as int]@);
                let candidate = pieces[i].as_str().trim();
                if parse_address(candidate).is_none() {
                    assert(first_invalid(views, i as int + 1) == Some(i as int));
                    proof {
                        lemma_first_invalid_stays(views, i as int + 1, views.len() as int);
                    }
                    let e = CliError::InvalidArgument(
                        String::from_str("Invalid nameserver IP address: ").concat(
                            pieces[i].as_str(),
                        ),
                    );
                    return Err(e);
                }
                i += 1;
            }
            assert(views.len() == pieces@.len());
            Ok(())
        },
        None => Ok(()),
    }
}

/// Once a piece is found invalid, looking at more pieces changes nothing.
proof fn lemma_first_invalid_stays(pieces: Seq<Seq<char>>, n: int, m: int)
    requires
        first_invalid(pieces, n) is Some,
        n <= m,
    ensures
        first_invalid(pieces, m) == first_invalid(pieces, n),
    decreases m - n,
{
    if n < m {
        lemma_first_invalid_stays(pieces, n, m - 1);
    }
}

/// The wordlist to use for brute force: the one of the arguments, or the
/// default where they name none.
pub fn wordlist_or_default(args: &Args) -> (r: String)
    ensures
        r@ == (match args.dict {
            Some(path) => path@,
            None => default_wordlist(),
        }),
{
    match &args.dict {
        Some(path) => path.clone(),
        None => String::from_str("data/subdomains-top1mil-5000.txt"),
    }
}

} // verus!
