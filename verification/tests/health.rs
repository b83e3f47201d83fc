use demo_service::health::{health, short_hash, NO_COMMIT, SHORT_HASH_LENGTH};
use demo_service::response::{Body, Response};

fn text_of(reply: &Response) -> &str {
    match &reply.body {
        Body::Text(text) => text.as_str(),
        Body::Records(_) => panic!("a text body was expected"),
    }
}

#[test]
fn health_reports_name_version_and_short_hash() {
    let commit = "0123456789abcdef0123456789abcdef01234567";
    let reply = health("demo", "0.1.0", Some(commit));
    assert_eq!(reply.status, 200);
    assert_eq!(reply.content_type, None);
    assert_eq!(reply.x_app.as_deref(), Some("demo:0.1.0:0123456"));
    assert_eq!(text_of(&reply), commit);
}

#[test]
fn health_without_commit_has_an_empty_short_hash() {
    let reply = health("demo", "0.1.0", None);
    assert_eq!(reply.status, 200);
    assert_eq!(reply.x_app.as_deref(), Some("demo:0.1.0:"));
    assert_eq!(text_of(&reply), ":-(");
    assert_eq!(NO_COMMIT, ":-(");
}

#[test]
fn health_with_a_hash_of_fewer_than_seven_characters() {
    let reply = health("demo", "0.1.0", Some("abc123"));
    assert_eq!(reply.x_app.as_deref(), Some("demo:0.1.0:"));
    assert_eq!(text_of(&reply), "abc123");
}

#[test]
fn health_x_app_is_never_empty() {
    let reply = health("", "", None);
    assert_eq!(reply.x_app.as_deref(), Some("::"));
    assert_eq!(reply.status, 200);
}

#[test]
fn short_hash_takes_seven_characters() {
    assert_eq!(SHORT_HASH_LENGTH, 7);
    assert_eq!(short_hash("0123456789"), "0123456");
    assert_eq!(short_hash("01234567"), "0123456");
    assert_eq!(short_hash("0123456"), "0123456");
    assert_eq!(short_hash("012345"), "");
    assert_eq!(short_hash(""), "");
    assert_eq!(short_hash(":-("), "");
}

#[test]
fn short_hash_counts_characters_not_bytes() {
    assert_eq!(short_hash("\u{e9}\u{e9}\u{e9}"), "");
    assert_eq!(short_hash("\u{e9}bcdefgh"), "\u{e9}bcdefg");
}
