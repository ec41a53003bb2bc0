use dnsrecon_rs::dns::address::{parse_address, IpAddress, Ipv4Address, Ipv6Address};
use dnsrecon_rs::utils::cidr::{
    expand_between, expand_block, expand_cidr, expand_range, process_range, NetworkBlock,
    RangeError,
};

fn v4(a: u8, b: u8, c: u8, d: u8) -> IpAddress {
    IpAddress::V4(Ipv4Address::new(a, b, c, d))
}

#[test]
fn expand_range_yields_the_four_addresses_in_ascending_order() {
    let ips = expand_range("192.0.2.0-192.0.2.3").unwrap();
    assert_eq!(ips, vec![v4(192, 0, 2, 0), v4(192, 0, 2, 1), v4(192, 0, 2, 2), v4(192, 0, 2, 3)]);
}

#[test]
fn expand_range_texts_match_the_expected_list() {
    let ips = expand_range("192.0.2.0-192.0.2.3").unwrap();
    let texts: Vec<String> = ips.iter().map(|ip| ip.to_text()).collect();
    assert_eq!(texts, vec!["192.0.2.0", "192.0.2.1", "192.0.2.2", "192.0.2.3"]);
}

#[test]
fn expand_range_of_one_address() {
    assert_eq!(expand_range("10.0.0.7-10.0.0.7").unwrap(), vec![v4(10, 0, 0, 7)]);
}

#[test]
fn expand_range_with_start_above_end_is_empty() {
    assert_eq!(expand_range("10.0.0.9-10.0.0.7").unwrap(), Vec::<IpAddress>::new());
}

#[test]
fn expand_range_reaches_the_highest_address() {
    let ips = expand_range("255.255.255.254-255.255.255.255").unwrap();
    assert_eq!(ips, vec![v4(255, 255, 255, 254), v4(255, 255, 255, 255)]);
}

#[test]
fn expand_range_crosses_octet_boundaries() {
    let ips = expand_range("10.0.0.254-10.0.1.1").unwrap();
    assert_eq!(ips, vec![v4(10, 0, 0, 254), v4(10, 0, 0, 255), v4(10, 0, 1, 0), v4(10, 0, 1, 1)]);
}

#[test]
fn expand_range_of_ipv6_gives_the_two_bounds_only() {
    let ips = expand_range("2001:db8::1-2001:db8::ff").unwrap();
    assert_eq!(
        ips,
        vec![
            IpAddress::V6(Ipv6Address::new(0x2001, 0xdb8, 0, 0, 0, 0, 0, 1)),
            IpAddress::V6(Ipv6Address::new(0x2001, 0xdb8, 0, 0, 0, 0, 0, 0xff)),
        ]
    );
}

#[test]
fn expand_range_of_mixed_families_gives_the_two_bounds_only() {
    let ips = expand_range("192.0.2.1-2001:db8::1").unwrap();
    assert_eq!(ips.len(), 2);
    assert_eq!(ips[0], v4(192, 0, 2, 1));
}

#[test]
fn expand_range_rejects_wrong_part_counts() {
    assert!(matches!(expand_range("192.0.2.0"), Err(RangeError::Format)));
    assert!(matches!(expand_range("192.0.2.0-192.0.2.1-192.0.2.2"), Err(RangeError::Format)));
    assert_eq!(expand_range("1.2.3.4").unwrap_err().message(), "Invalid range format");
}

#[test]
fn expand_range_rejects_bad_addresses() {
    assert!(matches!(expand_range("192.0.2.0-nonsense"), Err(RangeError::Address)));
    assert!(matches!(expand_range("-192.0.2.0"), Err(RangeError::Address)));
    assert!(matches!(expand_range("192.0.2.0 - 192.0.2.3"), Err(RangeError::Address)));
    assert_eq!(expand_range("a-b").unwrap_err().message(), "invalid IP address syntax");
}

#[test]
fn expand_cidr_lists_the_block_from_network_to_broadcast() {
    let ips = expand_cidr("192.0.2.5/30").unwrap();
    assert_eq!(ips, vec![v4(192, 0, 2, 4), v4(192, 0, 2, 5), v4(192, 0, 2, 6), v4(192, 0, 2, 7)]);
    assert_eq!(expand_cidr("10.1.2.3/32").unwrap(), vec![v4(10, 1, 2, 3)]);
    assert_eq!(expand_cidr("10.1.2.3").unwrap(), vec![v4(10, 1, 2, 3)]);
    assert_eq!(expand_cidr("10.1.0.0/24").unwrap().len(), 256);
}

#[test]
fn expand_cidr_accepts_a_netmask() {
    let ips = expand_cidr("192.0.2.0/255.255.255.252").unwrap();
    assert_eq!(ips.len(), 4);
    assert_eq!(ips[3], v4(192, 0, 2, 3));
}

#[test]
fn expand_cidr_of_ipv6_block() {
    let ips = expand_cidr("2001:db8::/126").unwrap();
    assert_eq!(ips.len(), 4);
    assert_eq!(ips[0], IpAddress::V6(Ipv6Address::new(0x2001, 0xdb8, 0, 0, 0, 0, 0, 0)));
    assert_eq!(ips[3], IpAddress::V6(Ipv6Address::new(0x2001, 0xdb8, 0, 0, 0, 0, 0, 3)));
}

#[test]
fn expand_cidr_rejects_what_is_no_block() {
    let err = expand_cidr("192.0.2.0/33").unwrap_err();
    assert!(matches!(err, RangeError::Network(_)));
    assert_eq!(err.message(), "invalid address: 192.0.2.0/33");
    assert!(expand_cidr("nonsense/8").is_err());
    assert!(expand_cidr("1.2.3.4/5/6").is_err());
}

#[test]
fn expand_cidr_refuses_blocks_beyond_a_list() {
    assert!(matches!(expand_cidr("::/0"), Err(RangeError::TooLarge)));
    assert_eq!(expand_cidr("::/0").unwrap_err().message(), "range too large");
}

#[test]
fn expand_block_masks_the_host_bits() {
    let block = NetworkBlock { address: v4(172, 16, 5, 77), prefix: 31 };
    assert_eq!(expand_block(block).unwrap(), vec![v4(172, 16, 5, 76), v4(172, 16, 5, 77)]);
    let whole = NetworkBlock { address: v4(1, 2, 3, 4), prefix: 40 };
    assert_eq!(expand_block(whole).unwrap(), vec![v4(1, 2, 3, 4)]);
}

#[test]
fn expand_between_counts_up_by_number() {
    let ips = expand_between(v4(0, 0, 0, 255), v4(0, 0, 1, 1)).unwrap();
    assert_eq!(ips, vec![v4(0, 0, 0, 255), v4(0, 0, 1, 0), v4(0, 0, 1, 1)]);
}

#[test]
fn process_range_takes_the_three_forms() {
    assert_eq!(process_range("192.0.2.0").unwrap(), vec![v4(192, 0, 2, 0)]);
    assert_eq!(process_range("192.0.2.0-192.0.2.1").unwrap().len(), 2);
    assert_eq!(process_range("192.0.2.0/31").unwrap().len(), 2);
    assert_eq!(
        process_range("::1").unwrap(),
        vec![IpAddress::V6(Ipv6Address::new(0, 0, 0, 0, 0, 0, 0, 1))]
    );
    assert!(matches!(process_range("example.com"), Err(RangeError::Address)));
    assert!(matches!(process_range(""), Err(RangeError::Address)));
    // A slash decides before a dash does.
    assert!(matches!(process_range("192.0.2.0-192.0.2.1/31"), Err(RangeError::Network(_))));
}

#[test]
fn parse_address_reads_both_families() {
    assert_eq!(parse_address("8.8.8.8"), Some(v4(8, 8, 8, 8)));
    assert_eq!(
        parse_address("2001:db8::1"),
        Some(IpAddress::V6(Ipv6Address::new(0x2001, 0xdb8, 0, 0, 0, 0, 0, 1)))
    );
    assert_eq!(parse_address("8.8.8"), None);
    assert_eq!(parse_address(" 8.8.8.8"), None);
    assert_eq!(parse_address("256.1.1.1"), None);
    assert_eq!(parse_address(""), None);
}
