use dnsrecon_rs::enumerate::bing::{bing_page_url, collect_bing_page, BING_PAGES};
use dnsrecon_rs::enumerate::crt_sh::{collect_crtsh_page, crtsh_page_url};
use dnsrecon_rs::enumerate::discovery::{Discovery, PageOutcome, Source};
use dnsrecon_rs::enumerate::html::{collect_link_candidates, select_first_links};
use dnsrecon_rs::enumerate::retry::{backoff_delay, RetryDecision, RetryState};
use dnsrecon_rs::enumerate::yandex::{collect_yandex_page, yandex_page_url, YANDEX_PAGES};
use dnsrecon_rs::enumerate::EnumerationError;

const BING_PAGE: &str = r#"<html><body><ol id="b_results">
<li class="b_algo"><h2><a href="https://www.example.com/welcome">Welcome</a></h2></li>
<li class="b_algo"><h2><a href="https://notexample.com/">Other</a></h2></li>
<li class="b_algo"><h2><a href="http://mail.example.com">Mail</a></h2></li>
<li class="b_algo"><h2><a>No link</a></h2></li>
<li class="b_algo"><h2><a href="https://www.example.com/again">Again</a></h2></li>
</ol><a href="http://footer.example.com/">footer</a></body></html>"#;

const PLAIN_PAGE: &str = r#"<html><body>
<a href="http://one.example.com/">one</a>
<a href="/relative">relative</a>
<a class="Link" href="https://two.example.com/x">two</a>
</body></html>"#;

const CRT_PAGE: &str = r#"<html><body><table><tr><td><table>
<tr><th>id</th><th>logged</th><th>before</th><th>after</th><th>name</th><th>issuer</th></tr>
<tr><td>1</td><td>d</td><td>d</td><td>d</td><td> www.example.com </td><td>ca</td></tr>
<tr><td>2</td><td>d</td><td>d</td><td>d</td><td>*.example.com</td><td>ca</td></tr>
<tr><td>3</td><td>d</td><td>d</td><td>d</td><td>example.com</td><td>ca</td></tr>
<tr><td>4</td><td>d</td><td>d</td><td>d</td><td>notexample.com</td><td>ca</td></tr>
<tr><td>5</td><td>d</td><td>d</td><td>d</td><td>api.example.com<br>alt.example.com</td><td>ca</td></tr>
<tr><td>6</td><td>d</td><td>d</td><td>d</td><td></td><td>ca</td></tr>
<tr><td>7</td><td>d</td><td>d</td><td>d</td><td>www.example.com</td><td>ca</td></tr>
</table></td></tr></table></body></html>"#;

#[test]
fn select_first_links_reads_the_href_of_each_element() {
    let links = select_first_links(BING_PAGE, &vec!["li.b_algo h2 a"]).unwrap();
    assert_eq!(
        links,
        vec![
            Some("https://www.example.com/welcome".to_string()),
            Some("https://notexample.com/".to_string()),
            Some("http://mail.example.com".to_string()),
            None,
            Some("https://www.example.com/again".to_string()),
        ]
    );
    assert_eq!(select_first_links(BING_PAGE, &vec!["div.nothing"]), None);
    assert_eq!(select_first_links(BING_PAGE, &vec!["li..["]), None);
}

#[test]
fn crtsh_page_reads_the_first_text_of_each_cell() {
    let page = "<table><tr><td><table><tr><td>1</td><td>2</td><td>3</td><td>4</td>\
                <td>one.example.com<b>two.example.com</b></td></tr><tr><td>1</td><td>2</td>\
                <td>3</td><td>4</td><td><i>three.example.com</i>four.example.com</td></tr>\
                </table></td></tr></table>";
    let mut out = Vec::new();
    collect_crtsh_page(&mut out, page, "example.com").unwrap();
    assert_eq!(out, vec!["one.example.com", "three.example.com"]);
}

#[test]
fn select_first_links_takes_the_first_selector_that_picks_anything() {
    let selectors = vec!["div.nothing", "][", "li.b_algo h2 a", "a"];
    assert_eq!(select_first_links(BING_PAGE, &selectors).unwrap().len(), 5);
    assert_eq!(select_first_links(BING_PAGE, &vec!["div.nothing", "span"]), None);
    assert_eq!(select_first_links(BING_PAGE, &Vec::new()), None);
}

#[test]
fn link_candidates_are_the_proper_subdomains_in_order() {
    let links = vec![
        Some("https://b.example.com/".to_string()),
        None,
        Some("https://example.com/".to_string()),
        Some("mailto:x@a.example.com".to_string()),
        Some("http://a.example.com/".to_string()),
    ];
    let mut out = vec!["kept".to_string()];
    collect_link_candidates(&mut out, &links, "example.com");
    assert_eq!(out, vec!["kept", "b.example.com", "a.example.com"]);
}

#[test]
fn bing_page_takes_the_result_links() {
    let mut out = Vec::new();
    collect_bing_page(&mut out, BING_PAGE, "example.com");
    assert_eq!(out, vec!["www.example.com", "mail.example.com", "www.example.com"]);
}

#[test]
fn bing_page_falls_back_to_all_http_links() {
    let mut out = Vec::new();
    collect_bing_page(&mut out, PLAIN_PAGE, "example.com");
    assert_eq!(out, vec!["one.example.com", "two.example.com"]);
    let mut none = Vec::new();
    collect_bing_page(&mut none, "<html></html>", "example.com");
    assert!(none.is_empty());
}

#[test]
fn yandex_page_takes_the_first_selector_that_picks_anything() {
    let mut out = Vec::new();
    collect_yandex_page(&mut out, PLAIN_PAGE, "example.com");
    assert_eq!(out, vec!["one.example.com", "two.example.com"]);
    let mut by_class = Vec::new();
    collect_yandex_page(
        &mut by_class,
        r#"<a class="link" href="ftp://x.example.com">x</a><a class="Link" href="https://y.example.com">y</a>"#,
        "example.com",
    );
    assert_eq!(by_class, vec!["y.example.com"]);
}

#[test]
fn crtsh_page_takes_the_names_of_the_fifth_column() {
    let mut out = Vec::new();
    collect_crtsh_page(&mut out, CRT_PAGE, "example.com").unwrap();
    assert_eq!(out, vec!["www.example.com", "api.example.com", "www.example.com"]);
}

#[test]
fn page_urls() {
    assert_eq!(crtsh_page_url("example.com"), "https://crt.sh/?q=%.example.com");
    assert_eq!(
        bing_page_url("example.com", 0),
        "https://www.bing.com/search?q=domain%3Aexample.com&qs=n&first=1"
    );
    assert_eq!(
        bing_page_url("example.com", 14),
        "https://www.bing.com/search?q=domain%3Aexample.com&qs=n&first=141"
    );
    assert_eq!(yandex_page_url("example.com", 9), "https://yandex.com/search/?text=site:example.com&p=9");
    assert_eq!(BING_PAGES, 15);
    assert_eq!(YANDEX_PAGES, 10);
}

#[test]
fn discovery_walks_the_pages_and_sorts_what_it_found() {
    let mut run = Discovery::new(Source::Yandex, "example.com");
    let mut fetched = Vec::new();
    let mut pauses = Vec::new();
    while let Some(url) = run.next_url() {
        let page = fetched.len();
        fetched.push(url);
        let outcome = match page {
            0 => PageOutcome::Body(PLAIN_PAGE.to_string()),
            1 => PageOutcome::Refused,
            2 => PageOutcome::Body(r#"<a href="http://alpha.example.com/">a</a>"#.to_string()),
            3 => PageOutcome::Body(PLAIN_PAGE.to_string()),
            _ => PageOutcome::Body(String::new()),
        };
        pauses.push(run.record(outcome).unwrap());
    }
    assert_eq!(fetched.len(), 10);
    assert_eq!(fetched[3], "https://yandex.com/search/?text=site:example.com&p=3");
    assert_eq!(pauses, vec![1; 10]);
    assert_eq!(run.page, 10);
    // Recording with no page pending changes nothing.
    assert_eq!(run.record(PageOutcome::Refused).unwrap(), 0);
    assert_eq!(run.page, 10);
    assert_eq!(run.finish(), vec!["alpha.example.com", "one.example.com", "two.example.com"]);
}

#[test]
fn discovery_fails_on_a_transport_error_and_keeps_its_state() {
    let mut run = Discovery::new(Source::Bing, "example.com");
    assert_eq!(run.record(PageOutcome::Body(BING_PAGE.to_string())).unwrap(), 1);
    let before = run.candidates.clone();
    let err = run.record(PageOutcome::Failed(EnumerationError::Http("connection reset".into()))).unwrap_err();
    assert_eq!(err.message(), "HTTP error: connection reset");
    assert_eq!(run.page, 1);
    assert_eq!(run.candidates, before);
}

#[test]
fn discovery_of_the_certificate_log_has_one_page_and_no_pause() {
    let mut run = Discovery::new(Source::CrtSh, "example.com");
    assert_eq!(run.next_url(), Some("https://crt.sh/?q=%.example.com".to_string()));
    assert_eq!(run.record(PageOutcome::Body(CRT_PAGE.to_string())).unwrap(), 0);
    assert_eq!(run.next_url(), None);
    assert_eq!(run.finish(), vec!["api.example.com", "www.example.com"]);
}

#[test]
fn only_the_search_engines_are_held_to_their_status() {
    assert!(Source::CrtSh.accepts_status(false));
    assert!(Source::CrtSh.accepts_status(true));
    assert!(!Source::Bing.accepts_status(false));
    assert!(Source::Bing.accepts_status(true));
    assert!(!Source::Yandex.accepts_status(false));
    assert!(Source::Yandex.accepts_status(true));
    assert_eq!(Source::CrtSh.pages(), 1);
    assert_eq!(Source::Bing.pages(), 15);
    assert_eq!(Source::Yandex.pages(), 10);
}

#[test]
fn retry_returns_the_success_after_two_failures() {
    // A source that fails twice and then succeeds, with three retries allowed.
    let mut state = RetryState::new(3);
    let mut invocations = 0;
    let mut delays = Vec::new();
    let result: Result<Vec<String>, EnumerationError> = loop {
        invocations += 1;
        let outcome = if invocations <= 2 {
            Err(EnumerationError::Timeout)
        } else {
            Ok(vec!["www.example.com".to_string()])
        };
        match outcome {
            Ok(found) => break Ok(found),
            Err(e) => match state.on_failure() {
                RetryDecision::RetryAfter(seconds) => delays.push(seconds),
                RetryDecision::GiveUp => break Err(e),
            },
        }
    };
    assert_eq!(result.unwrap(), vec!["www.example.com".to_string()]);
    assert_eq!(invocations, 3);
    assert_eq!(delays, vec![2, 4]);
    assert!(delays[0] < delays[1]);
}

#[test]
fn retry_gives_up_once_the_budget_is_spent() {
    let mut state = RetryState::new(2);
    assert_eq!(state.on_failure(), RetryDecision::RetryAfter(2));
    assert_eq!(state.on_failure(), RetryDecision::RetryAfter(4));
    assert_eq!(state.on_failure(), RetryDecision::GiveUp);
    assert_eq!(state.on_failure(), RetryDecision::GiveUp);
    assert_eq!(state, RetryState { retries: 2, max_retries: 2 });
    let mut none = RetryState::new(0);
    assert_eq!(none.on_failure(), RetryDecision::GiveUp);
}

#[test]
fn backoff_doubles_and_saturates() {
    assert_eq!(backoff_delay(0), 1);
    assert_eq!(backoff_delay(1), 2);
    assert_eq!(backoff_delay(3), 8);
    assert_eq!(backoff_delay(10), 1024);
    assert_eq!(backoff_delay(63), 1u64 << 63);
    assert_eq!(backoff_delay(64), u64::MAX);
    assert_eq!(backoff_delay(u32::MAX), u64::MAX);
}

#[test]
fn enumeration_error_messages() {
    assert_eq!(EnumerationError::Http("h".into()).message(), "HTTP error: h");
    assert_eq!(EnumerationError::Io("i".into()).message(), "IO error: i");
    assert_eq!(EnumerationError::Network("n".into()).message(), "Network error: n");
    assert_eq!(EnumerationError::Parse("p".into()).message(), "Parse error: p");
    assert_eq!(EnumerationError::Timeout.message(), "Timeout error");
    assert_eq!(EnumerationError::Other("o".into()).message(), "Other enumeration error: o");
}
