use bandwidth_hero::headers::{filter_headers, is_listed, names_match, select_headers, Header};
use bandwidth_hero::proxy::outbound_headers;

fn pairs(headers: &[Header]) -> Vec<(String, String)> {
    headers
        .iter()
        .map(|h| {
            (
                String::from_utf8(h.name.clone()).unwrap(),
                String::from_utf8(h.value.clone()).unwrap(),
            )
        })
        .collect()
}

fn pair(name: &str, value: &str) -> (String, String) {
    (name.to_string(), value.to_string())
}

#[test]
fn filter_keeps_only_listed_names_in_order() {
    let source = vec![
        Header::text("accept", "*/*"),
        Header::text("cookie", "a=1"),
        Header::text("host", "relay.test"),
        Header::text("referer", "https://page.test/"),
        Header::text("cookie", "b=2"),
        Header::text("dnt", "1"),
    ];
    let kept = filter_headers(source, vec!["cookie", "dnt", "referer"]);
    assert_eq!(
        pairs(&kept),
        vec![
            pair("cookie", "a=1"),
            pair("referer", "https://page.test/"),
            pair("cookie", "b=2"),
            pair("dnt", "1"),
        ]
    );
}

#[test]
fn filter_of_nothing_is_nothing() {
    assert!(filter_headers(Vec::new(), vec!["cookie"]).is_empty());
    assert!(filter_headers(vec![Header::text("cookie", "a")], Vec::new()).is_empty());
}

#[test]
fn names_are_matched_without_case() {
    assert!(names_match(b"Cookie", b"cookie"));
    assert!(names_match(b"X-Forwarded-For", b"x-forwarded-for"));
    assert!(!names_match(b"cookie", b"cookies"));
    assert!(!names_match(b"cookie", b"cookif"));
    assert!(!names_match(b"@", b"`"));
    assert!(!names_match(b"[", b"{"));
    assert!(names_match(b"", b""));
}

#[test]
fn listed_checks_every_key() {
    let keys = vec!["cookie", "dnt", "referer"];
    assert!(is_listed(b"referer", &keys));
    assert!(is_listed(b"Dnt", &keys));
    assert!(!is_listed(b"authorization", &keys));
    assert!(!is_listed(b"cookie", &Vec::new()));
}

#[test]
fn select_copies_and_leaves_the_source() {
    let source = vec![Header::text("Cookie", "a=1"), Header::text("host", "h")];
    let kept = select_headers(&source, &vec!["cookie"]);
    assert_eq!(pairs(&kept), vec![pair("Cookie", "a=1")]);
    assert_eq!(source.len(), 2);
}

#[test]
fn header_new_copies_bytes() {
    let h = Header::new(b"x-test", &[0, 255, 7]);
    assert_eq!(h.name, b"x-test".to_vec());
    assert_eq!(h.value, vec![0, 255, 7]);
}

#[test]
fn outbound_without_inbound_headers() {
    let out = outbound_headers(&Vec::new());
    assert_eq!(
        pairs(&out),
        vec![pair("user-agent", "Bandwidth-Hero Compressor"), pair("via", "1.1 bandwidth-hero")]
    );
}

#[test]
fn outbound_passes_allowed_and_forwarded_and_drops_the_rest() {
    let inbound = vec![
        Header::text("host", "relay.test"),
        Header::text("x-forwarded-for", "10.0.0.1"),
        Header::text("cookie", "a=1"),
        Header::text("authorization", "Basic abc"),
        Header::text("user-agent", "Browser/1.0"),
        Header::text("dnt", "1"),
        Header::text("via", "1.0 other"),
        Header::text("referer", "https://page.test/"),
        Header::text("x-forwarded-for", "10.0.0.2"),
    ];
    let out = outbound_headers(&inbound);
    assert_eq!(
        pairs(&out),
        vec![
            pair("cookie", "a=1"),
            pair("dnt", "1"),
            pair("referer", "https://page.test/"),
            pair("user-agent", "Bandwidth-Hero Compressor"),
            pair("x-forwarded-for", "10.0.0.1"),
            pair("x-forwarded-for", "10.0.0.2"),
            pair("via", "1.1 bandwidth-hero"),
        ]
    );
}
