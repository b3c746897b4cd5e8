use rustnao::response::{parse_index, parse_similarity};
use rustnao::text::{decimal_text, find_char, has_prefix, parse_u32, percent_text_of, signed_decimal_text};
use rustnao::{Error, Handler, HandlerBuilder, JsonValue, ResponseHeader, ResultEntry, SearchResponse};

fn header(status: i32, short_limit: &str, long_limit: &str) -> ResponseHeader {
    ResponseHeader {
        status,
        message: "msg".to_string(),
        short_limit: short_limit.to_string(),
        long_limit: long_limit.to_string(),
        short_remaining: 3,
        long_remaining: 99,
    }
}

fn entry(similarity: &str, index_name: &str, urls: &[&str]) -> ResultEntry {
    ResultEntry {
        similarity: similarity.to_string(),
        thumbnail: "https://img/t.jpg".to_string(),
        index_name: index_name.to_string(),
        index_id: 7,
        ext_urls: urls.iter().map(|u| u.to_string()).collect(),
        title: Some("Title".to_string()),
        additional_fields: vec![("member_id".to_string(), JsonValue::Number("42".to_string()))],
    }
}

#[test]
fn decimal_texts() {
    assert_eq!(decimal_text(0), "0");
    assert_eq!(decimal_text(12345), "12345");
    assert_eq!(decimal_text(u64::MAX), "18446744073709551615");
    assert_eq!(signed_decimal_text(-42), "-42");
    assert_eq!(signed_decimal_text(i64::MIN), "-9223372036854775808");
    assert_eq!(percent_text_of(9345), "93.45");
    assert_eq!(percent_text_of(5), "0.05");
    assert_eq!(percent_text_of(10000), "100.00");
}

#[test]
fn unsigned_parsing() {
    assert_eq!(parse_u32("200"), Some(200));
    assert_eq!(parse_u32("0"), Some(0));
    assert_eq!(parse_u32("4294967295"), Some(u32::MAX));
    assert_eq!(parse_u32("4294967296"), None);
    assert_eq!(parse_u32(""), None);
    assert_eq!(parse_u32("12a"), None);
    assert_eq!(parse_u32("-1"), None);
}

#[test]
fn prefix_and_search() {
    assert!(has_prefix("https://x", "https://"));
    assert!(!has_prefix("http:/", "http://"));
    assert!(has_prefix("abc", ""));
    assert_eq!(find_char("Index #5: x", ':'), 8);
    assert_eq!(find_char("abc", ':'), 3);
}

#[test]
fn similarity_parsing() {
    assert_eq!(parse_similarity("93.45"), Some(9345));
    assert_eq!(parse_similarity("90"), Some(9000));
    assert_eq!(parse_similarity("93.456"), Some(9345));
    assert_eq!(parse_similarity("5.5"), Some(550));
    assert_eq!(parse_similarity("100.00"), Some(10000));
    assert_eq!(parse_similarity("abc"), None);
    assert_eq!(parse_similarity("1."), None);
    assert_eq!(parse_similarity(".5"), None);
    assert_eq!(parse_similarity(""), None);
}

#[test]
fn index_parsing() {
    assert_eq!(parse_index("Index #5: Pixiv Images - 1234.jpg"), Some(5));
    assert_eq!(parse_index("Index #37: MangaDex - a#b"), Some(37));
    assert_eq!(parse_index("Index #12"), Some(12));
    assert_eq!(parse_index("Index 5: x"), None);
    assert_eq!(parse_index("Index: #5"), None);
    assert_eq!(parse_index("Index #x5: y"), None);
}

#[test]
fn negative_status_is_an_error() {
    let mut h = HandlerBuilder::new().build();
    let r = h.process_response(SearchResponse { header: header(-2, "4", "100"), results: None }, None);
    match r {
        Err(Error::InvalidCode { code, message }) => {
            assert_eq!(code, -2);
            assert_eq!(message, "msg");
        }
        _ => panic!("expected an error code"),
    }
    assert_eq!(h.get_short_limit(), 12);
    assert_eq!(h.get_current_long_limit(), 200);
}

#[test]
fn limits_are_taken_from_the_reply() {
    let mut h = HandlerBuilder::new().build();
    let r = h.process_response(SearchResponse { header: header(0, "4", "100"), results: None }, None);
    assert_eq!(r.unwrap().len(), 0);
    assert_eq!(h.get_short_limit(), 4);
    assert_eq!(h.get_long_limit(), 100);
    assert_eq!(h.get_current_short_limit(), 3);
    assert_eq!(h.get_current_long_limit(), 99);
}

#[test]
fn malformed_limits_are_an_error() {
    let mut h = HandlerBuilder::new().build();
    let r = h.process_response(SearchResponse { header: header(0, "four", "100"), results: None }, None);
    assert!(matches!(r, Err(Error::InvalidResponse(_))));
    assert_eq!(h.get_short_limit(), 12);
    assert_eq!(h.get_current_short_limit(), 12);
}

#[test]
fn results_are_filtered_by_similarity() {
    let mut h = HandlerBuilder::new().min_similarity(5000).build();
    let entries = vec![
        entry("93.45", "Index #5: Pixiv Images - 1.jpg", &["https://pixiv/1"]),
        entry("49.99", "Index #9: Danbooru - 2.jpg", &["https://danbooru/2"]),
        entry("50.00", "Index #9: Danbooru - 3.jpg", &[]),
    ];
    let r = h
        .process_response(SearchResponse { header: header(0, "4", "100"), results: Some(entries) }, None)
        .unwrap();
    assert_eq!(r.len(), 2);
    assert_eq!(r[0].site, "Pixiv");
    assert_eq!(r[0].index, 5);
    assert_eq!(r[0].index_id, 7);
    assert_eq!(r[0].similarity, 9345);
    assert_eq!(r[0].ext_urls, vec!["https://pixiv/1".to_string()]);
    assert_eq!(r[0].title, Some("Title".to_string()));
    assert!(r[0].additional_fields.is_some());
    assert_eq!(r[1].site, "Danbooru");
    assert_eq!(r[1].similarity, 5000);
}

#[test]
fn search_threshold_overrides_handler() {
    let mut h = HandlerBuilder::new().min_similarity(9500).build();
    let entries = vec![
        entry("93.45", "Index #5: Pixiv Images - 1.jpg", &["u"]),
        entry("20", "Index #5: Pixiv Images - 1.jpg", &["u"]),
    ];
    let r = h
        .process_response(SearchResponse { header: header(0, "4", "100"), results: Some(entries) }, Some(9000))
        .unwrap();
    assert_eq!(r.len(), 1);
    assert_eq!(r[0].similarity, 9345);
}

#[test]
fn empty_filter_drops_results_without_links() {
    let mut h = HandlerBuilder::new().empty_filter_enabled(true).build();
    let entries = vec![
        entry("80", "Index #5: Pixiv Images - 1.jpg", &[]),
        entry("70", "Index #21: Anime - x", &["https://anidb/1"]),
    ];
    let r = h
        .process_response(SearchResponse { header: header(0, "4", "100"), results: Some(entries) }, None)
        .unwrap();
    assert_eq!(r.len(), 1);
    assert_eq!(r[0].site, "Anime");
}

#[test]
fn unknown_index_keeps_index_name() {
    let mut h = HandlerBuilder::new().build();
    let entries = vec![entry("80", "Index #99: Something - 1", &["u"])];
    let r = h
        .process_response(SearchResponse { header: header(0, "4", "100"), results: Some(entries) }, None)
        .unwrap();
    assert_eq!(r[0].site, "Index #99: Something - 1");
    assert_eq!(r[0].index, 99);
    assert!(r[0].additional_fields.is_none());
}

#[test]
fn malformed_similarity_is_an_error() {
    let mut h = HandlerBuilder::new().build();
    let entries = vec![entry("high", "Index #5: Pixiv", &["u"])];
    let r = h.process_response(SearchResponse { header: header(0, "4", "100"), results: Some(entries) }, None);
    assert!(matches!(r, Err(Error::InvalidResponse(_))));
    assert_eq!(h.get_short_limit(), 4);
}

#[test]
fn malformed_index_of_a_dropped_result_is_ignored() {
    let mut h = HandlerBuilder::new().min_similarity(9000).build();
    let entries = vec![entry("10", "no index", &["u"])];
    let r = h.process_response(SearchResponse { header: header(0, "4", "100"), results: Some(entries) }, None);
    assert_eq!(r.unwrap().len(), 0);
    let entries = vec![entry("95", "no index", &["u"])];
    let r = h.process_response(SearchResponse { header: header(0, "4", "100"), results: Some(entries) }, None);
    assert!(matches!(r, Err(Error::InvalidResponse(_))));
}

#[test]
fn handler_is_unchanged_by_an_empty_reply() {
    let mut h = Handler::new("k", None, None, None, None, None);
    let r = h.process_response(SearchResponse { header: header(1, "12", "200"), results: Some(vec![]) }, None);
    assert!(r.unwrap().is_empty());
    assert_eq!(h.get_long_limit(), 200);
}
