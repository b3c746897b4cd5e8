use rustnao::json::{to_compact_text, to_pretty_text};
use rustnao::{JsonValue, Sauce, ToJSON};

fn sample() -> Sauce {
    Sauce {
        ext_urls: vec!["https://a/1".to_string(), "https://b/2".to_string()],
        title: Some("He said \"hi\"".to_string()),
        site: "Pixiv".to_string(),
        index: 5,
        index_id: 123,
        similarity: 9345,
        thumbnail: "t".to_string(),
        additional_fields: Some(JsonValue::Object(vec![
            ("member_id".to_string(), JsonValue::Number("42".to_string())),
            ("tags".to_string(), JsonValue::Array(vec![])),
        ])),
    }
}

#[test]
fn compact_json_of_results() {
    let v = vec![sample()];
    assert_eq!(
        v.to_json().unwrap(),
        "[{\"ext_urls\":[\"https://a/1\",\"https://b/2\"],\"title\":\"He said \\\"hi\\\"\",\"site\":\"Pixiv\",\"index\":5,\"index_id\":123,\"similarity\":93.45,\"thumbnail\":\"t\",\"additional_fields\":{\"member_id\":42,\"tags\":[]}}]"
    );
}

#[test]
fn pretty_json_of_results() {
    let mut s = sample();
    s.title = None;
    s.ext_urls = vec!["u".to_string()];
    s.additional_fields = None;
    let v = vec![s];
    let expected = "[\n  {\n    \"ext_urls\": [\n      \"u\"\n    ],\n    \"title\": null,\n    \"site\": \"Pixiv\",\n    \"index\": 5,\n    \"index_id\": 123,\n    \"similarity\": 93.45,\n    \"thumbnail\": \"t\",\n    \"additional_fields\": null\n  }\n]";
    assert_eq!(v.to_json_pretty().unwrap(), expected);
}

#[test]
fn empty_result_list() {
    let v: Vec<Sauce> = Vec::new();
    assert_eq!(v.to_json().unwrap(), "[]");
    assert_eq!(v.to_json_pretty().unwrap(), "[]");
}

#[test]
fn json_values() {
    let v = JsonValue::Object(vec![
        ("a".to_string(), JsonValue::Bool(true)),
        ("b".to_string(), JsonValue::Null),
        ("c".to_string(), JsonValue::Array(vec![JsonValue::Str("x\ny".to_string()), JsonValue::Object(vec![])])),
    ]);
    assert_eq!(to_compact_text(&v), "{\"a\":true,\"b\":null,\"c\":[\"x\\ny\",{}]}");
    assert_eq!(
        to_pretty_text(&v),
        "{\n  \"a\": true,\n  \"b\": null,\n  \"c\": [\n    \"x\\ny\",\n    {}\n  ]\n}"
    );
}

#[test]
fn copy_keeps_text() {
    let v = JsonValue::Array(vec![JsonValue::Number("1.5".to_string()), JsonValue::Bool(false)]);
    assert_eq!(to_compact_text(&v.copy()), "[1.5,false]");
}
