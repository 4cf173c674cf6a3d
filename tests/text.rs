use rurl::editor::parse_auth;
use rurl::model::AuthData;
use rurl::text::{split_pair, split_words, trim};

#[test]
fn trim_strips_both_ends() {
    assert_eq!(trim("  a b \t\n"), "a b");
    assert_eq!(trim("   "), "");
    assert_eq!(trim(""), "");
    assert_eq!(trim("\u{3000}x\u{a0}"), "x");
}

#[test]
fn split_pair_uses_the_first_separator() {
    assert_eq!(
        split_pair(" Content-Type : application/json ", ':'),
        Some(("Content-Type".to_string(), "application/json".to_string()))
    );
    assert_eq!(split_pair("url:http://x", ':'), Some(("url".to_string(), "http://x".to_string())));
    assert_eq!(split_pair("a=b=c", '='), Some(("a".to_string(), "b=c".to_string())));
    assert_eq!(split_pair("=", '='), Some((String::new(), String::new())));
    assert_eq!(split_pair("malformed-no-colon", ':'), None);
}

#[test]
fn split_words_drops_whitespace() {
    assert_eq!(split_words("  basic  user pass "), vec!["basic", "user", "pass"]);
    assert!(split_words(" \t ").is_empty());
}

#[test]
fn auth_commands_parse() {
    assert_eq!(
        parse_auth("basic alice s3cret"),
        AuthData::Basic { username: "alice".to_string(), password: "s3cret".to_string() }
    );
    assert_eq!(parse_auth(" bearer abc "), AuthData::Bearer { token: "abc".to_string() });
    assert_eq!(
        parse_auth("apikey X-Key 123 header"),
        AuthData::ApiKey { key: "X-Key".to_string(), value: "123".to_string(), in_header: true }
    );
    assert_eq!(
        parse_auth("apikey k v query"),
        AuthData::ApiKey { key: "k".to_string(), value: "v".to_string(), in_header: false }
    );
}

#[test]
fn other_auth_text_means_no_authentication() {
    assert_eq!(parse_auth("apikey k v cookie"), AuthData::NoAuth);
    assert_eq!(parse_auth("basic onlyuser"), AuthData::NoAuth);
    assert_eq!(parse_auth("Bearer x"), AuthData::NoAuth);
    assert_eq!(parse_auth(""), AuthData::NoAuth);
}
