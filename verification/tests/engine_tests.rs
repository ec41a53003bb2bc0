use dnsrecon_rs::cli::{Args, CliError, EnumType};
use dnsrecon_rs::cli::progress::ProgressReporter;
use dnsrecon_rs::dns::address::{IpAddress, Ipv4Address, Ipv6Address};
use dnsrecon_rs::dns::answer::{WireData, WireRecord, WireType, WireValue};
use dnsrecon_rs::dns::record::{RecordData, RecordType};
use dnsrecon_rs::dns::resolver::{DnsHelper, MxAnswer, Protocol, SoaAnswer};
use dnsrecon_rs::dns::zone_transfer::TransferOutcome;
use dnsrecon_rs::dns::DnsError;
use dnsrecon_rs::engine::reverse::ReverseScan;
use dnsrecon_rs::engine::standard::{
    records_of_answer, DirectLookup, LookupAnswer, StandardEnumeration, StandardStep,
};
use dnsrecon_rs::engine::zone_walk::{collect_nameservers, ZoneWalk};
use dnsrecon_rs::engine::{parse_nameservers, prepare, resolve_wordlist_path, PathProbe, Technique};
use dnsrecon_rs::enumerate::discovery::Source;
use dnsrecon_rs::enumerate::EnumerationError;
use dnsrecon_rs::DnsReconError;
use std::cell::RefCell;

fn args(enum_type: EnumType) -> Args {
    Args {
        domain: Some("example.com".to_string()),
        enum_type,
        json_file: None,
        xml_file: None,
        sqlite_file: None,
        dict: None,
        verbose: 0,
        concurrency: 10,
        nameservers: None,
        tcp_port: 53,
        udp_port: 53,
        range: None,
        range_file: None,
        proxy: None,
    }
}

fn helper() -> DnsHelper {
    DnsHelper::new(String::new()).unwrap()
}

fn v4(last: u8) -> Ipv4Address {
    Ipv4Address::new(192, 0, 2, last)
}

#[test]
fn prepare_selects_the_technique() {
    let plan = prepare(&args(EnumType::Standard)).unwrap();
    assert!(matches!(&plan.technique, Technique::Standard { domain } if domain == "example.com"));
    assert!(plan.helper.use_defaults);
    assert!(plan.outputs.stdout);

    let plan = prepare(&args(EnumType::ZoneWalk)).unwrap();
    assert!(matches!(&plan.technique, Technique::ZoneWalk { domain } if domain == "example.com"));

    let mut brute = args(EnumType::BruteForce);
    brute.concurrency = 25;
    match prepare(&brute).unwrap().technique {
        Technique::BruteForce { domain, wordlist, concurrency } => {
            assert_eq!(domain, "example.com");
            assert_eq!(wordlist, "data/subdomains-top1mil-5000.txt");
            assert_eq!(concurrency, 25);
        }
        other => panic!("unexpected technique {:?}", other),
    }
    brute.dict = Some("/tmp/words.txt".to_string());
    assert!(matches!(prepare(&brute).unwrap().technique, Technique::BruteForce { wordlist, .. } if wordlist == "/tmp/words.txt"));

    let mut reverse = args(EnumType::Reverse);
    reverse.range = Some("192.0.2.0/30".to_string());
    assert!(matches!(prepare(&reverse).unwrap().technique, Technique::Reverse { range } if range == "192.0.2.0/30"));
}

#[test]
fn prepare_runs_nothing_without_what_the_technique_works_on() {
    let mut standard = args(EnumType::Standard);
    standard.domain = None;
    standard.range = Some("192.0.2.0/30".to_string());
    assert!(matches!(prepare(&standard).unwrap().technique, Technique::Nothing));
    let mut reverse = args(EnumType::Reverse);
    reverse.range_file = Some("ranges.txt".to_string());
    assert!(matches!(prepare(&reverse).unwrap().technique, Technique::Nothing));
}

#[test]
fn prepare_refuses_invalid_arguments_first() {
    let mut a = args(EnumType::Reverse);
    match prepare(&a) {
        Err(DnsReconError::Cli(CliError::InvalidArgument(m))) => {
            assert_eq!(m, "Range or range file must be specified for reverse enumeration")
        }
        other => panic!("unexpected outcome {:?}", other),
    }
    a = args(EnumType::Standard);
    a.nameservers = Some("8.8.8.8,example.com".to_string());
    match prepare(&a) {
        Err(e) => assert_eq!(
            e.message(),
            "CLI error: Invalid argument: Invalid nameserver IP address: example.com"
        ),
        Ok(plan) => panic!("unexpected plan {:?}", plan),
    }
}

#[test]
fn prepare_sets_up_the_resolver_and_the_outputs() {
    let mut a = args(EnumType::Standard);
    a.nameservers = Some(" 8.8.8.8 ,2001:4860:4860::8888".to_string());
    a.xml_file = Some("out.xml".to_string());
    let plan = prepare(&a).unwrap();
    assert!(!plan.helper.use_defaults);
    let first = IpAddress::V4(Ipv4Address::new(8, 8, 8, 8));
    let second = IpAddress::V6(Ipv6Address::new(0x2001, 0x4860, 0x4860, 0, 0, 0, 0, 0x8888));
    let summary: Vec<(IpAddress, u16, Protocol)> =
        plan.helper.name_servers.iter().map(|e| (e.address, e.port, e.protocol)).collect();
    assert_eq!(
        summary,
        vec![
            (first, 53, Protocol::Udp),
            (first, 53, Protocol::Tcp),
            (second, 53, Protocol::Udp),
            (second, 53, Protocol::Tcp),
        ]
    );
    a.tcp_port = 5353;
    a.udp_port = 5354;
    let ported = prepare(&a).unwrap();
    let summary: Vec<(u16, Protocol)> =
        ported.helper.name_servers.iter().map(|e| (e.port, e.protocol)).collect();
    assert_eq!(
        summary,
        vec![(5354, Protocol::Udp), (5353, Protocol::Tcp), (5354, Protocol::Udp), (5353, Protocol::Tcp)]
    );
    assert!(!plan.outputs.stdout);
    assert_eq!(plan.outputs.xml_file, Some("out.xml".to_string()));
    assert_eq!(plan.outputs.json_file, None);
    assert_eq!(plan.outputs.sqlite_file, None);
    assert_eq!(parse_nameservers("1.1.1.1"), Some(vec![IpAddress::V4(Ipv4Address::new(1, 1, 1, 1))]));
    assert_eq!(parse_nameservers("1.1.1.1,,2.2.2.2"), None);
}

#[test]
fn wordlist_path_resolution() {
    let probes = vec![
        PathProbe { path: "/opt/tool/data/words.txt".to_string(), exists: false },
        PathProbe { path: "/opt/data/words.txt".to_string(), exists: true },
        PathProbe { path: "/data/words.txt".to_string(), exists: true },
    ];
    assert_eq!(resolve_wordlist_path("data/words.txt", false, &probes), "/opt/data/words.txt");
    assert_eq!(resolve_wordlist_path("/abs/words.txt", true, &probes), "/abs/words.txt");
    assert_eq!(resolve_wordlist_path("data/words.txt", false, &probes[..1].to_vec()), "data/words.txt");
    assert_eq!(resolve_wordlist_path("data/words.txt", false, &Vec::new()), "data/words.txt");
}

fn caa(value: &str) -> Option<WireData> {
    Some(WireData {
        value: WireValue::Caa { flags: 0, tag: "issue".to_string(), value: value.to_string() },
        text: String::new(),
    })
}

#[test]
fn standard_technique_runs_its_steps_in_order() {
    let helper = helper();
    let mut run = StandardEnumeration::new("example.com");
    let mut lookups = Vec::new();
    let mut sources = Vec::new();
    let mut resolved = Vec::new();
    loop {
        match run.next_step() {
            StandardStep::Lookup(kind) => {
                lookups.push(kind);
                let answer = match kind {
                    DirectLookup::Ip => LookupAnswer::Ip { a: Ok(vec![v4(1)]), aaaa: Err(DnsError::Timeout) },
                    DirectLookup::Mx => LookupAnswer::Mx(Ok(vec![MxAnswer {
                        preference: 10,
                        exchange: "mail.example.com.".into(),
                    }])),
                    DirectLookup::Ns => LookupAnswer::Ns(Err(DnsError::Timeout)),
                    DirectLookup::Soa => LookupAnswer::Soa(Ok(Vec::<SoaAnswer>::new())),
                    DirectLookup::Txt => LookupAnswer::Txt(Ok(vec![
                        vec![b"v=spf1 -all".to_vec()],
                        vec![b"hello".to_vec()],
                    ])),
                    DirectLookup::Caa => LookupAnswer::Caa(Err(DnsError::Resolution(
                        "no record found for example.com".into(),
                    ))),
                };
                assert!(run.on_lookup(&helper, answer));
            }
            StandardStep::Discover { source, max_retries } => {
                assert_eq!(max_retries, 3);
                sources.push(source);
                let outcome = match source {
                    Source::CrtSh => Ok(vec!["a.example.com".to_string(), "b.example.com".to_string()]),
                    Source::Bing => Err(EnumerationError::Timeout),
                    Source::Yandex => Ok(Vec::new()),
                };
                assert!(run.on_discovery(outcome));
            }
            StandardStep::Resolve(name) => {
                let last = 10 + resolved.len() as u8;
                resolved.push(name);
                assert!(run.on_resolved(&helper, Ok(vec![v4(last)]), Ok(Vec::new())));
            }
            StandardStep::Done => break,
        }
    }
    assert_eq!(
        lookups,
        vec![
            DirectLookup::Ip,
            DirectLookup::Mx,
            DirectLookup::Ns,
            DirectLookup::Soa,
            DirectLookup::Txt,
            DirectLookup::Caa,
        ]
    );
    assert_eq!(sources, vec![Source::CrtSh, Source::Bing, Source::Yandex]);
    assert_eq!(resolved, vec!["a.example.com", "b.example.com"]);
    let records = run.finish();
    let summary: Vec<(RecordType, &str)> =
        records.iter().map(|r| (r.record_type(), r.name())).collect();
    assert_eq!(
        summary,
        vec![
            (RecordType::A, "example.com"),
            (RecordType::Mx, "example.com"),
            (RecordType::Txt, "example.com"),
            (RecordType::Txt, "example.com"),
            (RecordType::Spf, "example.com"),
            (RecordType::A, "a.example.com"),
            (RecordType::A, "b.example.com"),
        ]
    );
    assert!(records.iter().all(|r| r.is_well_formed()));
}

#[test]
fn standard_steps_ignore_what_is_not_awaited() {
    let helper = helper();
    let mut run = StandardEnumeration::new("example.com");
    assert!(!run.on_discovery(Ok(vec!["x.example.com".to_string()])));
    assert!(!run.on_resolved(&helper, Ok(vec![v4(1)]), Ok(Vec::new())));
    assert!(!run.on_lookup(&helper, LookupAnswer::Mx(Ok(Vec::new()))));
    assert_eq!(run.stage, 0);
    assert!(run.results.is_empty());
    assert!(run.on_lookup(&helper, LookupAnswer::Ip { a: Ok(Vec::new()), aaaa: Ok(Vec::new()) }));
    assert_eq!(run.stage, 1);
    assert!(matches!(run.next_step(), StandardStep::Lookup(DirectLookup::Mx)));
}

#[test]
fn the_failures_of_a_lookup_are_told_but_absence_is_none() {
    let told = |answer: LookupAnswer| -> Vec<String> {
        answer.failures().iter().map(|e| e.message()).collect()
    };
    assert!(told(LookupAnswer::Mx(Ok(Vec::new()))).is_empty());
    assert_eq!(told(LookupAnswer::Mx(Err(DnsError::Timeout))), vec!["DNS query timeout"]);
    assert_eq!(
        told(LookupAnswer::Ns(Err(DnsError::Resolution("servfail".into())))),
        vec!["DNS resolution error: servfail"]
    );
    assert_eq!(told(LookupAnswer::Soa(Err(DnsError::Io("down".into())))), vec!["IO error: down"]);
    assert_eq!(told(LookupAnswer::Txt(Err(DnsError::Timeout))), vec!["DNS query timeout"]);
    assert_eq!(
        told(LookupAnswer::Ip { a: Err(DnsError::Timeout), aaaa: Err(DnsError::Io("x".into())) }),
        vec!["DNS query timeout", "IO error: x"]
    );
    assert_eq!(
        told(LookupAnswer::Ip { a: Ok(Vec::new()), aaaa: Err(DnsError::Timeout) }),
        vec!["DNS query timeout"]
    );
    assert!(told(LookupAnswer::Caa(Ok(Vec::new()))).is_empty());
    assert!(told(LookupAnswer::Caa(Err(DnsError::Resolution("no record found for x".into()))))
        .is_empty());
    assert_eq!(told(LookupAnswer::Caa(Err(DnsError::Timeout))), vec!["DNS query timeout"]);
}

#[test]
fn a_failed_caa_lookup_contributes_nothing() {
    let none = records_of_answer(&helper(), "example.com", LookupAnswer::Caa(Err(DnsError::Timeout)));
    assert!(none.is_empty());
    let some =
        records_of_answer(&helper(), "example.com", LookupAnswer::Caa(Ok(vec![caa("ca.example")])));
    assert_eq!(some.len(), 1);
    assert_eq!(some[0].record_type(), RecordType::Caa);
    assert!(matches!(some[0].data(), RecordData::Caa { flags: 0, tag, value } if tag == "issue" && value == "ca.example"));
    let failed = records_of_answer(&helper(), "example.com", LookupAnswer::Txt(Err(DnsError::Timeout)));
    assert!(failed.is_empty());
}

fn transfer_of(name: &str) -> TransferOutcome {
    TransferOutcome::Answers(vec![WireRecord {
        name: name.to_string(),
        record_type: WireType::A,
        data: Some(WireData { value: WireValue::A(v4(9)), text: String::new() }),
    }])
}

#[test]
fn zone_walk_keeps_the_ns_records_and_tolerates_failed_transfers() {
    let lookup = Ok(vec!["ns1.example.com.".to_string(), "ns2.example.com.".to_string(), "ns3.example.com.".to_string()]);
    let mut walk = ZoneWalk::start(&helper(), "example.com", lookup).unwrap();
    assert_eq!(walk.results.len(), 3);
    assert_eq!(walk.next_nameserver(), Some("ns1.example.com".to_string()));
    let failure = walk.on_transfer(&TransferOutcome::ConnectFailed("refused".into()));
    assert_eq!(
        failure.unwrap().message(),
        "Zone transfer failed: Failed to connect to nameserver: refused"
    );
    assert_eq!(walk.results.len(), 3);
    assert_eq!(walk.next_nameserver(), Some("ns2.example.com".to_string()));
    assert!(walk.on_transfer(&transfer_of("host.example.com.")).is_none());
    assert_eq!(walk.next_nameserver(), Some("ns3.example.com".to_string()));
    assert!(walk.on_transfer(&TransferOutcome::QueryFailed("denied".into())).is_some());
    assert_eq!(walk.next_nameserver(), None);
    assert!(walk.on_transfer(&transfer_of("late.example.com.")).is_none());
    let records = walk.finish();
    let summary: Vec<(RecordType, &str)> = records.iter().map(|r| (r.record_type(), r.name())).collect();
    assert_eq!(
        summary,
        vec![
            (RecordType::Ns, "example.com"),
            (RecordType::Ns, "example.com"),
            (RecordType::Ns, "example.com"),
            (RecordType::A, "host.example.com"),
        ]
    );
}

#[test]
fn zone_walk_fails_without_nameservers() {
    let result = ZoneWalk::start(&helper(), "example.com", Err(DnsError::Resolution("servfail".into())));
    match result {
        Err(e) => assert_eq!(e.message(), "DNS error: DNS resolution error: servfail"),
        Ok(walk) => panic!("unexpected walk {:?}", walk),
    }
    let empty = ZoneWalk::start(&helper(), "example.com", Ok(Vec::new())).unwrap();
    assert_eq!(empty.next_nameserver(), None);
    assert!(empty.finish().is_empty());
}

#[test]
fn nameservers_are_read_from_the_ns_records_only() {
    let h = helper();
    let mut records = h.get_ns("e.com", Ok(vec!["ns1.e.com.".into()])).unwrap();
    records.extend(h.get_a("e.com", Ok(vec![v4(1)])).unwrap());
    records.extend(h.get_ns("e.com", Ok(vec!["ns2.e.com".into()])).unwrap());
    assert_eq!(collect_nameservers(&records), vec!["ns1.e.com", "ns2.e.com"]);
}

struct Capture {
    lines: RefCell<Vec<String>>,
}

impl ProgressReporter for Capture {
    fn update(&self, message: &str) {
        self.lines.borrow_mut().push(message.to_string());
    }

    fn finish(&self, _message: &str) {}

    fn error(&self, _message: &str) {}
}

#[test]
fn reverse_scan_looks_up_each_address_and_tolerates_failures() {
    let capture = Capture { lines: RefCell::new(Vec::new()) };
    let mut scan = ReverseScan::start("192.0.2.0-192.0.2.2").unwrap();
    let mut asked = Vec::new();
    while let Some(ip) = scan.next_address() {
        scan.report_progress(&capture);
        asked.push(ip.to_text());
        let lookup = match asked.len() {
            1 => Ok(vec!["zero.example.com.".to_string()]),
            2 => Err(DnsError::Timeout),
            _ => Ok(vec!["two.example.com.".to_string(), "alias.example.com.".to_string()]),
        };
        let failure = scan.on_lookup(&helper(), lookup);
        assert_eq!(failure.is_some(), asked.len() == 2);
    }
    assert_eq!(asked, vec!["192.0.2.0", "192.0.2.1", "192.0.2.2"]);
    assert!(scan.on_lookup(&helper(), Ok(vec!["late.".to_string()])).is_none());
    assert_eq!(
        *capture.lines.borrow(),
        vec!["Processed 0/3 IP addresses, found 0 PTR records"]
    );
    let records = scan.finish();
    let summary: Vec<(&str, String)> = records
        .iter()
        .map(|r| match r.data() {
            RecordData::Ptr(t) => (r.name(), t.clone()),
            _ => panic!("Expected PTR record data"),
        })
        .collect();
    assert_eq!(
        summary,
        vec![
            ("192.0.2.0", "zero.example.com".to_string()),
            ("192.0.2.2", "two.example.com".to_string()),
            ("192.0.2.2", "alias.example.com".to_string()),
        ]
    );
}

#[test]
fn reverse_scan_refuses_a_bad_range() {
    match ReverseScan::start("192.0.2.0-") {
        Err(DnsReconError::Other(m)) => {
            assert_eq!(m, "Failed to process range: invalid IP address syntax")
        }
        other => panic!("unexpected outcome {:?}", other),
    }
    match ReverseScan::start("10.0.0.0/99") {
        Err(e) => assert_eq!(
            e.message(),
            "Other error: Failed to process range: invalid address: 10.0.0.0/99"
        ),
        Ok(scan) => panic!("unexpected scan {:?}", scan),
    }
    let single = ReverseScan::start("2001:db8::1").unwrap();
    assert_eq!(single.addresses.len(), 1);
}
