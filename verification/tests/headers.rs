use std::collections::HashMap;

use demo_service::fields::TextMap;
use demo_service::headers::{collect_headers, log_headers};

fn header(name: &str, value: &[u8]) -> (String, Vec<u8>) {
    (name.to_string(), value.to_vec())
}

fn pair(key: &str, value: &str) -> (String, String) {
    (key.to_string(), value.to_string())
}

#[test]
fn first_header_of_a_name_wins() {
    let raw = vec![
        header("accept", b"text/html"),
        header("x-tag", b"one"),
        header("accept", b"application/json"),
        header("x-tag", b"two"),
        header("host", b"example.org"),
    ];
    let headers = collect_headers(&raw);
    assert_eq!(headers.len(), 3);
    assert_eq!(headers.get("accept").map(String::as_str), Some("text/html"));
    assert_eq!(headers.get("x-tag").map(String::as_str), Some("one"));
    assert_eq!(headers.get("host").map(String::as_str), Some("example.org"));
    assert_eq!(headers.get("cookie"), None);
    assert_eq!(
        headers.pairs(),
        &vec![pair("accept", "text/html"), pair("x-tag", "one"), pair("host", "example.org")]
    );
}

#[test]
fn header_names_are_compared_as_they_are() {
    let raw = vec![header("x-tag", b"one"), header("X-Tag", b"two")];
    let headers = collect_headers(&raw);
    assert_eq!(headers.len(), 2);
    assert_eq!(headers.get("X-Tag").map(String::as_str), Some("two"));
}

#[test]
fn header_values_that_are_not_utf8_are_decoded_with_replacements() {
    let raw = vec![header("x-raw", &[b'a', 0xff, b'b']), header("x-text", "gr\u{fc}n".as_bytes())];
    let headers = collect_headers(&raw);
    assert_eq!(headers.get("x-raw").map(String::as_str), Some("a\u{fffd}b"));
    assert_eq!(headers.get("x-text").map(String::as_str), Some("gr\u{fc}n"));
}

#[test]
fn no_headers_give_an_empty_map() {
    let log = log_headers(&Vec::new());
    assert_eq!(log.headers.len(), 0);
    assert_eq!(log.line.as_deref(), Some("{}"));
}

#[test]
fn log_line_is_a_json_object_of_the_headers() {
    let raw = vec![
        header("user-agent", b"curl/8.0"),
        header("accept", b"*/*"),
        header("accept", b"text/plain"),
        header("traceparent", b"00-4bf92f3577b34da6a3ce929d0e0e4736-00f067aa0ba902b7-01"),
    ];
    let log = log_headers(&raw);
    let line = log.line.expect("the map can be written");
    assert_eq!(
        line,
        "{\"accept\":\"*/*\",\"traceparent\":\"00-4bf92f3577b34da6a3ce929d0e0e4736-00f067aa0ba902b7-01\",\"user-agent\":\"curl/8.0\"}"
    );
    let read: HashMap<String, String> = serde_json::from_str(&line).unwrap();
    assert_eq!(read.len(), 3);
    for (name, value) in log.headers.pairs() {
        assert_eq!(read.get(name), Some(value));
    }
}

#[test]
fn log_line_escapes_what_json_cannot_hold() {
    let raw = vec![header("x-quote", b"say \"hi\"\\\t"), header("x-raw", &[0xc3, 0x28])];
    let log = log_headers(&raw);
    let line = log.line.expect("the map can be written");
    assert_eq!(line, "{\"x-quote\":\"say \\\"hi\\\"\\\\\\t\",\"x-raw\":\"\u{fffd}(\"}");
    let read: HashMap<String, String> = serde_json::from_str(&line).unwrap();
    assert_eq!(read.get("x-quote").map(String::as_str), Some("say \"hi\"\\\t"));
}

#[test]
fn text_map_keeps_what_came_first() {
    let mut map = TextMap::new();
    assert_eq!(map.len(), 0);
    assert!(!map.contains_key("a"));
    map.insert_if_absent("a".to_string(), "1".to_string());
    map.insert_if_absent("b".to_string(), "2".to_string());
    map.insert_if_absent("a".to_string(), "3".to_string());
    assert_eq!(map.len(), 2);
    assert!(map.contains_key("a"));
    assert!(map.contains_key("b"));
    assert!(!map.contains_key("c"));
    assert_eq!(map.get("a").map(String::as_str), Some("1"));
    assert_eq!(map.get("b").map(String::as_str), Some("2"));
    assert_eq!(map.get(""), None);
    assert_eq!(map.pairs(), &vec![pair("a", "1"), pair("b", "2")]);
}

#[test]
fn text_map_from_pairs_drops_later_pairs_of_a_key() {
    let map = TextMap::from_pairs(&vec![pair("k", "1"), pair("k", "2"), pair("", "3"), pair("j", "4")]);
    assert_eq!(map.pairs(), &vec![pair("k", "1"), pair("", "3"), pair("j", "4")]);
    assert_eq!(map.get("").map(String::as_str), Some("3"));
    assert_eq!(TextMap::from_pairs(&Vec::new()).len(), 0);
}

#[test]
fn text_map_from_json_reads_an_object_of_strings() {
    let map = TextMap::from_json(b"{\"b\":\"2\",\"a\":\"1\",\"e\":\"\\u00e9\"}").expect("an object of strings");
    assert_eq!(map.len(), 3);
    assert_eq!(map.get("a").map(String::as_str), Some("1"));
    assert_eq!(map.get("b").map(String::as_str), Some("2"));
    assert_eq!(map.get("e").map(String::as_str), Some("\u{e9}"));
    assert_eq!(TextMap::from_json(b"{}").map(|m| m.len()), Some(0));
}

#[test]
fn text_map_from_json_refuses_what_is_no_object_of_strings() {
    assert!(TextMap::from_json(b"").is_none());
    assert!(TextMap::from_json(b"null").is_none());
    assert!(TextMap::from_json(b"\"a\"").is_none());
    assert!(TextMap::from_json(b"{\"a\":1}").is_none());
    assert!(TextMap::from_json(b"{\"a\":\"1\"").is_none());
    assert!(TextMap::from_json(b"{\"a\":{\"b\":\"c\"}}").is_none());
}

#[test]
fn text_map_json_line_is_ordered_by_key() {
    let map = TextMap::from_pairs(&vec![pair("b", "2"), pair("a", "1"), pair("B", "3")]);
    assert_eq!(map.json_line().as_deref(), Some("{\"B\":\"3\",\"a\":\"1\",\"b\":\"2\"}"));
    let back = TextMap::from_json(map.json_line().unwrap().as_bytes()).unwrap();
    assert_eq!(back.len(), 3);
    assert_eq!(back.get("B").map(String::as_str), Some("3"));
}
