use dnsrecon_rs::cli::progress::{
    report_scan_progress, scan_progress_message, ProgressReporter, SilentProgressReporter,
    SimpleProgressReporter, TimedProgressReporter,
};
use dnsrecon_rs::cli::{parse_enum_type, validate_args, wordlist_or_default, Args, CliError, EnumType};
use std::cell::RefCell;

fn args(enum_type: EnumType) -> Args {
    Args {
        domain: Some("example.com".to_string()),
        enum_type,
        json_file: None,
        xml_file: None,
        sqlite_file: None,
        dict: None,
        verbose: 0,
        concurrency: 10,
        nameservers: None,
        tcp_port: 53,
        udp_port: 53,
        range: None,
        range_file: None,
        proxy: None,
    }
}

fn invalid(result: Result<(), CliError>) -> String {
    match result {
        Err(CliError::InvalidArgument(m)) => m,
        other => panic!("expected an invalid argument, got {:?}", other),
    }
}

#[test]
fn enum_types_are_named_without_regard_to_case() {
    assert_eq!(parse_enum_type("std"), Ok(EnumType::Standard));
    assert_eq!(parse_enum_type("standard"), Ok(EnumType::Standard));
    assert_eq!(parse_enum_type("STD"), Ok(EnumType::Standard));
    assert_eq!(parse_enum_type("brt"), Ok(EnumType::BruteForce));
    assert_eq!(parse_enum_type("bruteforce"), Ok(EnumType::BruteForce));
    assert_eq!(parse_enum_type("BruteForce"), Ok(EnumType::BruteForce));
    assert_eq!(parse_enum_type("zonewalk"), Ok(EnumType::ZoneWalk));
    assert_eq!(parse_enum_type("Reverse"), Ok(EnumType::Reverse));
    assert_eq!(parse_enum_type("axfr"), Err("Invalid enumeration type: axfr".to_string()));
    assert_eq!(parse_enum_type(""), Err("Invalid enumeration type: ".to_string()));
    assert_eq!(parse_enum_type(" std"), Err("Invalid enumeration type:  std".to_string()));
}

#[test]
fn valid_arguments_pass() {
    for enum_type in [EnumType::Standard, EnumType::BruteForce, EnumType::ZoneWalk] {
        assert!(validate_args(&args(enum_type)).is_ok());
    }
    let mut reverse = args(EnumType::Reverse);
    reverse.range = Some("192.0.2.0/24".to_string());
    assert!(validate_args(&reverse).is_ok());
    let mut by_file = args(EnumType::Reverse);
    by_file.domain = None;
    by_file.range_file = Some("ranges.txt".to_string());
    assert!(validate_args(&by_file).is_ok());
}

#[test]
fn a_target_is_required() {
    for enum_type in [EnumType::Standard, EnumType::BruteForce, EnumType::ZoneWalk] {
        let mut a = args(enum_type);
        a.domain = None;
        assert_eq!(
            invalid(validate_args(&a)),
            "Domain, range, or range file must be specified for this enumeration type"
        );
        a.range = Some("192.0.2.0/30".to_string());
        assert!(validate_args(&a).is_ok());
    }
    assert_eq!(
        invalid(validate_args(&args(EnumType::Reverse))),
        "Range or range file must be specified for reverse enumeration"
    );
}

#[test]
fn ports_must_not_be_zero() {
    let mut a = args(EnumType::Standard);
    a.tcp_port = 0;
    assert_eq!(invalid(validate_args(&a)), "Port numbers must be between 1 and 65535");
    a.tcp_port = 65535;
    a.udp_port = 0;
    assert_eq!(invalid(validate_args(&a)), "Port numbers must be between 1 and 65535");
    // The target is checked before the ports.
    a.domain = None;
    assert_eq!(
        invalid(validate_args(&a)),
        "Domain, range, or range file must be specified for this enumeration type"
    );
}

#[test]
fn nameservers_must_be_addresses() {
    let mut a = args(EnumType::Standard);
    a.nameservers = Some("8.8.8.8, 2001:4860:4860::8888 ,1.1.1.1".to_string());
    assert!(validate_args(&a).is_ok());
    a.nameservers = Some("8.8.8.8, dns.google,also bad".to_string());
    assert_eq!(invalid(validate_args(&a)), "Invalid nameserver IP address:  dns.google");
    a.nameservers = Some("8.8.8.8,".to_string());
    assert_eq!(invalid(validate_args(&a)), "Invalid nameserver IP address: ");
    a.nameservers = Some(String::new());
    assert_eq!(invalid(validate_args(&a)), "Invalid nameserver IP address: ");
}

#[test]
fn the_wordlist_has_a_default() {
    let mut a = args(EnumType::BruteForce);
    assert!(validate_args(&a).is_ok());
    assert_eq!(wordlist_or_default(&a), "data/subdomains-top1mil-5000.txt");
    a.dict = Some("words.txt".to_string());
    assert_eq!(wordlist_or_default(&a), "words.txt");
}

#[test]
fn cli_error_messages() {
    assert_eq!(CliError::InvalidArgument("x".into()).message(), "Invalid argument: x");
    assert_eq!(CliError::ParseError("x".into()).message(), "Argument parsing error: x");
    assert_eq!(CliError::Clap("error: unexpected argument".into()).message(), "error: unexpected argument");
}

struct Capture {
    lines: RefCell<Vec<String>>,
}

impl ProgressReporter for Capture {
    fn update(&self, message: &str) {
        self.lines.borrow_mut().push(format!("update {}", message));
    }

    fn finish(&self, message: &str) {
        self.lines.borrow_mut().push(format!("finish {}", message));
    }

    fn error(&self, message: &str) {
        self.lines.borrow_mut().push(format!("error {}", message));
    }
}

#[test]
fn scan_progress_is_reported_every_hundred_addresses() {
    let capture = Capture { lines: RefCell::new(Vec::new()) };
    assert!(report_scan_progress(&capture, 0, 256, 0));
    assert!(!report_scan_progress(&capture, 1, 256, 0));
    assert!(!report_scan_progress(&capture, 99, 256, 3));
    assert!(report_scan_progress(&capture, 100, 256, 3));
    assert!(report_scan_progress(&capture, 200, 256, 17));
    assert_eq!(
        *capture.lines.borrow(),
        vec![
            "update Processed 0/256 IP addresses, found 0 PTR records",
            "update Processed 100/256 IP addresses, found 3 PTR records",
            "update Processed 200/256 IP addresses, found 17 PTR records",
        ]
    );
    assert_eq!(scan_progress_message(5, 6, 7), "Processed 5/6 IP addresses, found 7 PTR records");
}

#[test]
fn reporters_mark_their_lines_and_measure_time() {
    let simple = SimpleProgressReporter::new();
    assert_eq!(simple.update_line("working"), "[*] working");
    assert_eq!(simple.finish_line("done"), "[+] done");
    assert_eq!(simple.error_line("failed"), "[!] failed");
    let first = simple.elapsed();
    let second = simple.elapsed();
    assert!(first <= second);
    let timed = TimedProgressReporter::default();
    let first = timed.elapsed();
    let second = timed.elapsed();
    assert!(first <= second);
    assert!(SimpleProgressReporter::default().elapsed() <= simple.elapsed() + second);
}

#[test]
fn the_silent_reporter_still_says_when_a_report_is_due() {
    let silent = SilentProgressReporter;
    silent.update("nothing");
    silent.finish("nothing");
    silent.error("nothing");
    assert!(report_scan_progress(&silent, 300, 1000, 1));
    assert!(!report_scan_progress(&silent, 301, 1000, 1));
}
