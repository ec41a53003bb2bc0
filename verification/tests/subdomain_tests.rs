use dnsrecon_rs::enumerate::subdomain::{extract_subdomain_from_url, select_subdomain};

#[test]
fn extract_subdomain_takes_a_proper_subdomain() {
    assert_eq!(
        extract_subdomain_from_url("http://sub.example.com/x", "example.com"),
        Some("sub.example.com".to_string())
    );
}

#[test]
fn extract_subdomain_refuses_a_name_that_only_ends_alike() {
    assert_eq!(extract_subdomain_from_url("http://notexample.com/x", "example.com"), None);
}

#[test]
fn extract_subdomain_refuses_the_domain_itself() {
    assert_eq!(extract_subdomain_from_url("http://example.com/x", "example.com"), None);
}

#[test]
fn extract_subdomain_needs_an_http_link() {
    assert_eq!(extract_subdomain_from_url("ftp://sub.example.com/x", "example.com"), None);
    assert_eq!(extract_subdomain_from_url("sub.example.com", "example.com"), None);
    assert_eq!(extract_subdomain_from_url("", "example.com"), None);
}

#[test]
fn extract_subdomain_reads_https_and_deep_names() {
    assert_eq!(
        extract_subdomain_from_url("https://a.b.example.com", "example.com"),
        Some("a.b.example.com".to_string())
    );
    assert_eq!(
        extract_subdomain_from_url("https://a.b.example.com:8443/p?q=1", "example.com"),
        Some("a.b.example.com".to_string())
    );
}

#[test]
fn extract_subdomain_lowercases_through_the_url_parser() {
    assert_eq!(
        extract_subdomain_from_url("http://SUB.Example.COM/x", "example.com"),
        Some("sub.example.com".to_string())
    );
}

#[test]
fn extract_subdomain_falls_back_to_the_text_of_the_link() {
    // No URL: the scheme is neither `http://` nor `https://`, but the text begins with `http`.
    assert_eq!(
        extract_subdomain_from_url("httpx.example.com/path", "example.com"),
        Some("httpx.example.com".to_string())
    );
}

#[test]
fn select_subdomain_prefers_the_parsed_host() {
    assert_eq!(
        select_subdomain(
            "http://ignored.example.com/x",
            "example.com",
            Some("parsed.example.com".to_string())
        ),
        Some("parsed.example.com".to_string())
    );
    assert_eq!(
        select_subdomain("http://manual.example.com/x", "example.com", None),
        Some("manual.example.com".to_string())
    );
    // Where the parser finds a host, that host decides: nothing is read by hand.
    assert_eq!(
        select_subdomain(
            "http://manual.example.com/x",
            "example.com",
            Some("elsewhere.org".to_string())
        ),
        None
    );
    assert_eq!(
        select_subdomain("http://example.com/x", "example.com", Some("example.com".to_string())),
        None
    );
    assert_eq!(select_subdomain("gopher://a.example.com", "example.com", None), None);
}

#[test]
fn extract_subdomain_never_takes_query_text_for_a_host() {
    assert_eq!(extract_subdomain_from_url("http://evil.com?u=a.example.com", "example.com"), None);
    assert_eq!(extract_subdomain_from_url("http://evil.com/#a.example.com", "example.com"), None);
    assert_eq!(extract_subdomain_from_url("https://evil.com#a.example.com", "example.com"), None);
    assert_eq!(
        extract_subdomain_from_url("http://evil.com/redirect?to=http://a.example.com", "example.com"),
        None
    );
    assert_eq!(
        extract_subdomain_from_url("http://a.example.com?u=evil.com", "example.com"),
        Some("a.example.com".to_string())
    );
}

#[test]
fn the_host_read_by_hand_ends_at_the_path_the_query_or_the_fragment() {
    assert_eq!(
        select_subdomain("http://a.example.com?q=1", "example.com", None),
        Some("a.example.com".to_string())
    );
    assert_eq!(
        select_subdomain("https://b.example.com#top", "example.com", None),
        Some("b.example.com".to_string())
    );
    assert_eq!(
        select_subdomain("httpc.example.com/x?y#z", "example.com", None),
        Some("httpc.example.com".to_string())
    );
    assert_eq!(select_subdomain("http://evil.com?u=a.example.com", "example.com", None), None);
    assert_eq!(select_subdomain("http://evil.com#a.example.com", "example.com", None), None);
}

#[test]
fn select_subdomain_with_an_empty_domain_needs_a_trailing_dot() {
    assert_eq!(select_subdomain("http://host./x", "", None), Some("host.".to_string()));
    assert_eq!(select_subdomain("http://host/x", "", None), None);
}
