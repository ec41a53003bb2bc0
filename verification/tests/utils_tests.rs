use dnsrecon_rs::utils::generate_testname;
use dnsrecon_rs::utils::order::{chars_before, sorted_unique};
use dnsrecon_rs::utils::testname_from;
use dnsrecon_rs::utils::text::{
    chars_of, contains, contains_char, decimal_string, ends_with, same_text, split_text,
    starts_with, strip_trailing_dots,
};
use dnsrecon_rs::utils::validation::{
    is_valid_cidr, is_valid_domain, is_valid_ip, is_valid_ipv4, is_valid_ipv6, label_is_valid,
};

fn strings(words: &[&str]) -> Vec<String> {
    words.iter().map(|w| w.to_string()).collect()
}

#[test]
fn decimal_strings() {
    assert_eq!(decimal_string(0), "0");
    assert_eq!(decimal_string(7), "7");
    assert_eq!(decimal_string(10), "10");
    assert_eq!(decimal_string(2023010101), "2023010101");
    assert_eq!(decimal_string(u64::MAX), "18446744073709551615");
}

#[test]
fn prefixes_suffixes_and_occurrences() {
    assert!(starts_with("v=spf1 -all", "v=spf1"));
    assert!(starts_with("abc", ""));
    assert!(!starts_with("ab", "abc"));
    assert!(ends_with("www.example.com", "example.com"));
    assert!(ends_with("x", ""));
    assert!(!ends_with("example.com", "www.example.com"));
    assert!(contains("query: no record found for x", "no record found"));
    assert!(contains("abc", ""));
    assert!(contains("", ""));
    assert!(!contains("", "a"));
    assert!(!contains("no records found", "no record found"));
    assert!(contains_char("a/b", '/'));
    assert!(!contains_char("a-b", '/'));
    assert!(same_text("héllo", "héllo"));
    assert!(!same_text("hello", "hellO"));
    assert!(!same_text("hello", "hell"));
}

#[test]
fn trailing_dots_and_splits() {
    assert_eq!(strip_trailing_dots("example.com."), "example.com");
    assert_eq!(strip_trailing_dots("example.com"), "example.com");
    assert_eq!(strip_trailing_dots("a.b..."), "a.b");
    assert_eq!(strip_trailing_dots("..."), "");
    assert_eq!(strip_trailing_dots(""), "");
    assert_eq!(split_text("a,b,,c", ','), strings(&["a", "b", "", "c"]));
    assert_eq!(split_text("", ','), strings(&[""]));
    assert_eq!(split_text(",", ','), strings(&["", ""]));
    assert_eq!(split_text("no separator", ','), strings(&["no separator"]));
    assert_eq!(chars_of("aé"), vec!['a', 'é']);
}

#[test]
fn names_are_sorted_and_unique() {
    assert_eq!(
        sorted_unique(strings(&["b.e.com", "a.e.com", "b.e.com", "A.e.com", "a.e.com", "a.e.co"])),
        strings(&["A.e.com", "a.e.co", "a.e.com", "b.e.com"])
    );
    assert!(sorted_unique(Vec::new()).is_empty());
    let mut expected = strings(&["é", "z", "", "a", "ab", "é"]);
    expected.sort();
    expected.dedup();
    assert_eq!(sorted_unique(strings(&["é", "z", "", "a", "ab", "é"])), expected);
    assert!(chars_before(&chars_of("a"), &chars_of("ab")));
    assert!(chars_before(&chars_of("Z"), &chars_of("a")));
    assert!(!chars_before(&chars_of("a"), &chars_of("a")));
    assert!(!chars_before(&chars_of("b"), &chars_of("ab")));
}

#[test]
fn domain_names() {
    assert!(is_valid_domain("example.com"));
    assert!(is_valid_domain("a"));
    assert!(is_valid_domain("xn--bcher-kva.example"));
    assert!(is_valid_domain("a-b.c-d.e"));
    assert!(is_valid_domain("123.45"));
    assert!(!is_valid_domain(""));
    assert!(!is_valid_domain("example.com."));
    assert!(!is_valid_domain(".example.com"));
    assert!(!is_valid_domain("exa mple.com"));
    assert!(!is_valid_domain("-a.com"));
    assert!(!is_valid_domain("a-.com"));
    assert!(!is_valid_domain("a..com"));
    assert!(!is_valid_domain("a_b.com"));
    assert!(!is_valid_domain("bücher.example"));
    assert!(!is_valid_domain("example.com\n"));
    let label63 = "a".repeat(63);
    let label64 = "a".repeat(64);
    assert!(label_is_valid(&label63));
    assert!(!label_is_valid(&label64));
    assert!(is_valid_domain(&format!("{}.com", label63)));
    assert!(!is_valid_domain(&format!("{}.com", label64)));
    let long253 = format!("{}.{}.{}.{}", label63, label63, label63, "a".repeat(61));
    assert_eq!(long253.len(), 253);
    assert!(is_valid_domain(&long253));
    let long254 = format!("{}.{}.{}.{}", label63, label63, label63, "a".repeat(62));
    assert!(!is_valid_domain(&long254));
}

#[test]
fn addresses_and_blocks() {
    assert!(is_valid_ip("192.0.2.1"));
    assert!(is_valid_ip("::1"));
    assert!(!is_valid_ip("192.0.2"));
    assert!(!is_valid_ip("example.com"));
    assert!(is_valid_ipv4("10.0.0.1"));
    assert!(!is_valid_ipv4("::1"));
    assert!(!is_valid_ipv4("010.0.0.1"));
    assert!(is_valid_ipv6("2001:db8::1"));
    assert!(is_valid_ipv6("::ffff:192.0.2.1"));
    assert!(!is_valid_ipv6("10.0.0.1"));
    assert!(is_valid_cidr("10.0.0.0/8"));
    assert!(is_valid_cidr("10.0.0.1"));
    assert!(is_valid_cidr("2001:db8::/32"));
    assert!(!is_valid_cidr("10.0.0.0/33"));
    assert!(!is_valid_cidr("10.0.0.0/"));
    assert!(!is_valid_cidr("nonsense"));
}

#[test]
fn random_test_names() {
    let name = generate_testname(12, "example.com");
    assert_eq!(name.len(), 12 + 1 + "example.com".len());
    assert!(name.ends_with(".example.com"));
    assert!(name[..12].chars().all(|c| c.is_ascii_alphanumeric()));
    assert_eq!(generate_testname(0, "example.com"), ".example.com");
    assert_ne!(generate_testname(32, "e.com"), generate_testname(32, "e.com"));
    assert_eq!(testname_from("abc", "example.com"), "abc.example.com");
}
