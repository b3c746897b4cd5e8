use rustnao::handler::API_URL;
use rustnao::mask::{generate_bitmask, mask_in_range};
use rustnao::sources::get_source;
use rustnao::{Error, Handler, HandlerBuilder};

fn pairs(h: &Handler, path: &str, num_results: Option<u32>) -> Vec<(String, String)> {
    h.query_pairs(path, num_results).unwrap()
}

fn pair(k: &str, v: &str) -> (String, String) {
    (k.to_string(), v.to_string())
}

#[test]
fn source_lookup() {
    let s = get_source(Handler::PIXIV).unwrap();
    assert_eq!(s.index, 5);
    assert_eq!(s.name, "Pixiv");
    assert_eq!(get_source(Handler::MANGADEX).unwrap().name, "MangaDex");
    assert_eq!(get_source(Handler::H_MAGAZINES).unwrap().name, "H-Magazines");
    assert!(get_source(1).is_none());
    assert!(get_source(17).is_none());
    assert!(get_source(999).is_none());
}

#[test]
fn source_constants() {
    assert_eq!(Handler::H_MISC, 18);
    assert_eq!(Handler::ANIME, 21);
    assert_eq!(Handler::DEVIANTART, 34);
}

#[test]
fn bitmask_below_eighteen() {
    assert_eq!(generate_bitmask(&vec![1, 2, 5]), 2 + 4 + 32);
    assert_eq!(generate_bitmask(&vec![]), 0);
    assert_eq!(generate_bitmask(&vec![0]), 1);
}

#[test]
fn bitmask_shifts_from_eighteen() {
    assert_eq!(generate_bitmask(&vec![18]), 1 << 17);
    assert_eq!(generate_bitmask(&vec![17]), 1 << 17);
    assert_eq!(generate_bitmask(&vec![37]), 1u64 << 36);
    assert_eq!(generate_bitmask(&vec![64]), 1u64 << 63);
}

#[test]
fn bitmask_repeated_index_cancels() {
    assert_eq!(generate_bitmask(&vec![5, 9, 5]), 1 << 9);
    assert_eq!(generate_bitmask(&vec![17, 18]), 0);
}

#[test]
fn mask_range_check() {
    assert!(mask_in_range(&vec![0, 37, 64]));
    assert!(!mask_in_range(&vec![5, 65]));
    assert!(mask_in_range(&vec![]));
}

#[test]
fn handler_new_defaults() {
    let h = Handler::new("key", Some(0), None, None, Some(999), Some(999));
    assert_eq!(h.get_short_limit(), 12);
    assert_eq!(h.get_long_limit(), 200);
    assert_eq!(h.get_current_short_limit(), 12);
    assert_eq!(h.get_current_long_limit(), 200);
    assert_eq!(h.get_min_similarity(), 0);
    assert!(!h.get_empty_filter());
}

#[test]
fn handler_setters() {
    let mut h = Handler::new("key", None, None, None, None, None);
    h.set_min_similarity(5050);
    h.set_empty_filter(true);
    assert_eq!(h.get_min_similarity(), 5050);
    assert!(h.get_empty_filter());
}

#[test]
fn builder_chain() {
    let h = HandlerBuilder::new()
        .api_key("your_api_key")
        .num_results(999)
        .db(999)
        .min_similarity(4550)
        .empty_filter_enabled(true)
        .build();
    assert_eq!(h.get_min_similarity(), 4550);
    assert!(h.get_empty_filter());
    assert_eq!(h.get_short_limit(), 12);
    assert_eq!(
        pairs(&h, "./tests/test.jpg", None),
        vec![
            pair("api_key", "your_api_key"),
            pair("output_type", "2"),
            pair("db", "999"),
            pair("testmode", "0"),
            pair("numres", "999"),
        ]
    );
}

#[test]
fn builder_defaults() {
    let h = HandlerBuilder::new().build();
    assert_eq!(h.get_min_similarity(), 0);
    assert!(!h.get_empty_filter());
    assert_eq!(
        pairs(&h, "image.png", None),
        vec![
            pair("api_key", ""),
            pair("output_type", "2"),
            pair("db", "999"),
            pair("testmode", "0"),
            pair("numres", "999"),
        ]
    );
}

#[test]
fn builder_testmode_and_masks() {
    let h = HandlerBuilder::new()
        .api_key("k")
        .testmode(true)
        .db_mask(vec![1, 2, 5])
        .db_mask_i(vec![18])
        .num_results(10)
        .build();
    assert_eq!(
        pairs(&h, "https://example.com/a.png", None),
        vec![
            pair("api_key", "k"),
            pair("output_type", "2"),
            pair("dbmask", "38"),
            pair("dbmaski", "131072"),
            pair("testmode", "1"),
            pair("numres", "10"),
            pair("url", "https://example.com/a.png"),
        ]
    );
}

#[test]
fn empty_mask_falls_back_to_all() {
    let h = Handler::new("k", None, Some(vec![]), Some(vec![]), None, None);
    assert_eq!(
        pairs(&h, "x.jpg", Some(5)),
        vec![
            pair("api_key", "k"),
            pair("output_type", "2"),
            pair("db", "999"),
            pair("testmode", "0"),
            pair("numres", "5"),
        ]
    );
}

#[test]
fn db_and_mask_together() {
    let h = Handler::new("k", Some(0), Some(vec![9]), None, Some(5), Some(-1));
    assert_eq!(
        pairs(&h, "http://a.b/c", None),
        vec![
            pair("api_key", "k"),
            pair("output_type", "2"),
            pair("db", "5"),
            pair("dbmask", "512"),
            pair("testmode", "0"),
            pair("numres", "-1"),
            pair("url", "http://a.b/c"),
        ]
    );
}

#[test]
fn mask_out_of_range_is_rejected() {
    let h = Handler::new("k", None, Some(vec![65]), None, None, None);
    assert!(matches!(h.query_pairs("x", None), Err(Error::InvalidParameter(_))));
    assert!(matches!(h.generate_url("x", None), Err(Error::InvalidParameter(_))));
}

#[test]
fn url_of_link_search() {
    let h = HandlerBuilder::new().api_key("your_api_key").num_results(999).db(999).build();
    let url = h.generate_url("https://i.imgur.com/W42kkKS.jpg", None).unwrap();
    assert_eq!(
        url,
        "https://saucenao.com/search.php?api_key=your_api_key&output_type=2&db=999&testmode=0&numres=999&url=https%3A%2F%2Fi.imgur.com%2FW42kkKS.jpg"
    );
    assert!(url.starts_with(API_URL));
}

#[test]
fn url_encodes_key() {
    let h = Handler::new("a b&c", None, None, None, None, None);
    let url = h.generate_url("file.png", Some(3)).unwrap();
    assert_eq!(
        url,
        "https://saucenao.com/search.php?api_key=a+b%26c&output_type=2&db=999&testmode=0&numres=3"
    );
}

#[test]
fn prepare_link_search() {
    let h = HandlerBuilder::new().api_key("k").build();
    let q = h.prepare_search("https://i.imgur.com/W42kkKS.jpg", Some(999), Some(10000)).unwrap();
    assert!(q.upload.is_none());
    assert!(q.url.ends_with("&numres=999&url=https%3A%2F%2Fi.imgur.com%2FW42kkKS.jpg"));
}

#[test]
fn prepare_file_search() {
    let h = HandlerBuilder::new().api_key("k").build();
    let q = h.prepare_search("./tests/test.jpg", None, None).unwrap();
    assert_eq!(q.upload, Some("./tests/test.jpg".to_string()));
    assert_eq!(
        q.url,
        "https://saucenao.com/search.php?api_key=k&output_type=2&db=999&testmode=0&numres=999"
    );
}

#[test]
fn prepare_rejects_too_many_results() {
    let h = HandlerBuilder::new().build();
    assert!(matches!(h.prepare_search("x.jpg", Some(1000), None), Err(Error::InvalidParameter(_))));
}

#[test]
fn prepare_rejects_similarity_over_hundred() {
    let h = HandlerBuilder::new().build();
    assert!(matches!(h.prepare_search("x.jpg", None, Some(10001)), Err(Error::InvalidParameter(_))));
}
