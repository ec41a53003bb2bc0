use dnsrecon_rs::dns::address::{Ipv4Address, Ipv6Address};
use dnsrecon_rs::dns::answer::{WireData, WireRecord, WireType, WireValue};
use dnsrecon_rs::dns::record::{RecordData, RecordType};
use dnsrecon_rs::dns::zone_transfer::{
    check_zone_name, convert_record, convert_answers, zone_transfer, TransferOutcome,
};
use dnsrecon_rs::dns::DnsError;

fn wire(name: &str, record_type: WireType, value: WireValue) -> WireRecord {
    WireRecord {
        name: name.to_string(),
        record_type,
        data: Some(WireData { value, text: "GENERIC".to_string() }),
    }
}

#[test]
fn convert_a_record_strips_the_root_dot_of_the_name() {
    let record = wire("www.example.com.", WireType::A, WireValue::A(Ipv4Address::new(192, 0, 2, 1)));
    let made = convert_record(&record).unwrap();
    assert_eq!(made.name(), "www.example.com");
    assert_eq!(made.record_type(), RecordType::A);
    assert!(matches!(made.data(), RecordData::A(ip) if *ip == Ipv4Address::new(192, 0, 2, 1)));
    assert_eq!(made.ttl(), None);
}

#[test]
fn convert_each_known_type() {
    let six = Ipv6Address::new(0x2001, 0xdb8, 0, 0, 0, 0, 0, 1);
    let made = convert_record(&wire("e.com.", WireType::Aaaa, WireValue::Aaaa(six))).unwrap();
    assert!(matches!(made.data(), RecordData::Aaaa(ip) if *ip == six));

    let made = convert_record(&wire(
        "e.com.",
        WireType::Mx,
        WireValue::Mx { preference: 5, exchange: "mx.e.com.".into() },
    ))
    .unwrap();
    assert!(matches!(made.data(), RecordData::Mx { preference: 5, exchange } if exchange == "mx.e.com"));

    let made = convert_record(&wire("e.com.", WireType::Ns, WireValue::Ns("ns.e.com.".into()))).unwrap();
    assert!(matches!(made.data(), RecordData::Ns(n) if n == "ns.e.com"));

    let made = convert_record(&wire(
        "e.com.",
        WireType::Txt,
        WireValue::Txt(vec![b"hello ".to_vec(), b"world".to_vec()]),
    ))
    .unwrap();
    assert!(matches!(made.data(), RecordData::Txt(t) if t == "hello world"));

    let made = convert_record(&wire("1.2.0.192.in-addr.arpa.", WireType::Ptr, WireValue::Ptr("h.e.com.".into()))).unwrap();
    assert_eq!(made.name(), "1.2.0.192.in-addr.arpa");
    assert!(matches!(made.data(), RecordData::Ptr(t) if t == "h.e.com"));

    let made = convert_record(&wire("w.e.com.", WireType::Cname, WireValue::Cname("e.com.".into()))).unwrap();
    assert!(matches!(made.data(), RecordData::Cname(t) if t == "e.com"));

    let made = convert_record(&wire(
        "e.com.",
        WireType::Soa,
        WireValue::Soa {
            mname: "ns.e.com.".into(),
            rname: "admin.e.com.".into(),
            serial: 7,
            refresh: -5,
            retry: 6,
            expire: 7,
            minimum: 8,
        },
    ))
    .unwrap();
    match made.into_parts().2 {
        RecordData::Soa { mname, rname, serial, refresh, retry, expire, minimum } => {
            assert_eq!(mname, "ns.e.com");
            assert_eq!(rname, "admin.e.com");
            assert_eq!((serial, refresh, retry, expire, minimum), (7, 0, 6, 7, 8));
        }
        _ => panic!("Expected SOA record data"),
    }
}

#[test]
fn convert_srv_and_caa_records() {
    let made = convert_record(&wire(
        "_sip._tcp.e.com.",
        WireType::Srv,
        WireValue::Srv { priority: 1, weight: 2, port: 5060, target: "sip.e.com.".into() },
    ))
    .unwrap();
    assert_eq!(made.name(), "_sip._tcp.e.com");
    assert_eq!(made.record_type(), RecordType::Srv);
    assert!(matches!(made.data(), RecordData::Srv { priority: 1, weight: 2, port: 5060, target } if target == "sip.e.com"));

    let made = convert_record(&wire(
        "e.com.",
        WireType::Caa,
        WireValue::Caa { flags: 128, tag: "issuewild".into(), value: ";".into() },
    ))
    .unwrap();
    assert_eq!(made.record_type(), RecordType::Caa);
    assert!(matches!(made.data(), RecordData::Caa { flags: 128, tag, value } if tag == "issuewild" && value == ";"));
}

#[test]
fn convert_unknown_type_degrades_to_generic_text() {
    let made = convert_record(&wire("e.com.", WireType::Other, WireValue::Other)).unwrap();
    assert_eq!(made.record_type(), RecordType::Txt);
    assert!(matches!(made.data(), RecordData::Txt(t) if t == "GENERIC"));
    // The payload may be of a known shape: the announced type decides.
    let made =
        convert_record(&wire("e.com.", WireType::Other, WireValue::A(Ipv4Address::new(1, 2, 3, 4))))
            .unwrap();
    assert!(matches!(made.data(), RecordData::Txt(t) if t == "GENERIC"));
}

#[test]
fn convert_rejects_mismatched_or_missing_payloads() {
    let cases = [
        (WireType::A, "Invalid A record"),
        (WireType::Aaaa, "Invalid AAAA record"),
        (WireType::Mx, "Invalid MX record"),
        (WireType::Ns, "Invalid NS record"),
        (WireType::Txt, "Invalid TXT record"),
        (WireType::Ptr, "Invalid PTR record"),
        (WireType::Cname, "Invalid CNAME record"),
        (WireType::Soa, "Invalid SOA record"),
        (WireType::Srv, "Invalid SRV record"),
        (WireType::Caa, "Invalid CAA record"),
    ];
    for (record_type, message) in cases {
        let mismatched = wire("e.com.", record_type, WireValue::Other);
        match convert_record(&mismatched) {
            Err(DnsError::InvalidRecord(m)) => assert_eq!(m, message),
            other => panic!("expected an invalid record, got {:?}", other),
        }
        let missing = WireRecord { name: "e.com.".into(), record_type, data: None };
        match convert_record(&missing) {
            Err(DnsError::InvalidRecord(m)) => assert_eq!(m, message),
            other => panic!("expected an invalid record, got {:?}", other),
        }
    }
    let missing = WireRecord { name: "e.com.".into(), record_type: WireType::Other, data: None };
    match convert_record(&missing) {
        Err(DnsError::InvalidRecord(m)) => assert_eq!(m, "Record has no data"),
        other => panic!("expected an invalid record, got {:?}", other),
    }
}

#[test]
fn convert_answers_leaves_out_what_has_no_record() {
    let answers = vec![
        wire("a.e.com.", WireType::A, WireValue::A(Ipv4Address::new(192, 0, 2, 1))),
        wire("bad.e.com.", WireType::A, WireValue::Ns("x".into())),
        WireRecord { name: "none.e.com.".into(), record_type: WireType::Other, data: None },
        wire("b.e.com.", WireType::Ns, WireValue::Ns("ns.e.com.".into())),
    ];
    let records = convert_answers(&answers);
    let names: Vec<&str> = records.iter().map(|r| r.name()).collect();
    assert_eq!(names, vec!["a.e.com", "b.e.com"]);
    assert!(records.iter().all(|r| r.is_well_formed()));
}

#[test]
fn zone_transfer_maps_each_failure() {
    let refused = zone_transfer("example.com", &TransferOutcome::InvalidNameserver("invalid socket address syntax".into()));
    assert_eq!(
        refused.unwrap_err().message(),
        "Invalid DNS record: Invalid nameserver address: invalid socket address syntax"
    );
    let unreachable = zone_transfer("example.com", &TransferOutcome::ConnectFailed("refused".into()));
    assert_eq!(
        unreachable.unwrap_err().message(),
        "Zone transfer failed: Failed to connect to nameserver: refused"
    );
    let denied = zone_transfer("example.com", &TransferOutcome::QueryFailed("not permitted".into()));
    assert_eq!(denied.unwrap_err().message(), "Zone transfer failed: AXFR query failed: not permitted");
}

#[test]
fn zone_transfer_converts_the_answers() {
    let answers = vec![wire("a.example.com.", WireType::A, WireValue::A(Ipv4Address::new(192, 0, 2, 1)))];
    let records = zone_transfer("example.com", &TransferOutcome::Answers(answers)).unwrap();
    assert_eq!(records.len(), 1);
    assert_eq!(records[0].name(), "a.example.com");
}

#[test]
fn zone_transfer_checks_the_domain_before_the_outcome() {
    let long_label = "a".repeat(64);
    let domain = format!("{}.example.com", long_label);
    assert!(check_zone_name("example.com").is_ok());
    assert!(check_zone_name("example.com.").is_ok());
    let err = check_zone_name(&domain).unwrap_err();
    assert!(matches!(&err, DnsError::InvalidRecord(m) if m.starts_with("Invalid domain name: ")));
    let result = zone_transfer(&domain, &TransferOutcome::Answers(Vec::new()));
    assert!(matches!(result, Err(DnsError::InvalidRecord(m)) if m.starts_with("Invalid domain name: ")));
}
