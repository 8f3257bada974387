use rust_bytes::json::Json;
use rust_bytes::text::{contains, decimal_string, trim, chars_of, find_chars};
use rust_bytes::common::input_url;
use rust_bytes::startup::{consent_given, root_dir, config_path};

fn s(x: &str) -> String {
    x.to_string()
}

#[test]
fn contains_finds_substrings() {
    assert!(contains("{\"total\":3}", "total"));
    assert!(!contains("<html>ad</html>", "total"));
    assert!(contains("abc", ""));
    assert!(!contains("", "a"));
    assert!(contains("{\"data\":\"\"}", "\"\""));
}

#[test]
fn find_chars_gives_first_occurrence() {
    let hay = chars_of("abab");
    let needle = chars_of("ab");
    assert_eq!(find_chars(&hay, &needle), Some(0));
    assert_eq!(find_chars(&chars_of("xxab"), &needle), Some(2));
    assert_eq!(find_chars(&chars_of("a"), &needle), None);
}

#[test]
fn decimal_formats_like_display() {
    assert_eq!(decimal_string(0), "0");
    assert_eq!(decimal_string(7), "7");
    assert_eq!(decimal_string(10), "10");
    assert_eq!(decimal_string(1234567890), "1234567890");
    assert_eq!(decimal_string(u64::MAX), u64::MAX.to_string());
}

#[test]
fn trim_removes_unicode_white_space() {
    assert_eq!(trim("  abc \n"), "abc");
    assert_eq!(trim("\u{3000}是\r\n"), "是");
    assert_eq!(trim(" \t\n"), "");
    assert_eq!(trim("a b"), "a b");
    assert_eq!(trim(""), "");
    let odd = "\u{85}\u{a0}x\u{2028}";
    assert_eq!(trim(odd), odd.trim());
}

#[test]
fn law_trim_example() {
    let once = trim(" \u{2003}x y\u{205f} ");
    assert_eq!(once, "x y");
    assert_eq!(trim(&once), once);
}

#[test]
fn input_url_trims_the_line() {
    assert_eq!(input_url("https://live.douyin.com/926054037870\n"), "https://live.douyin.com/926054037870");
}

#[test]
fn consent_accepts_only_yes() {
    assert!(consent_given("是\n"));
    assert!(consent_given("  是  "));
    assert!(!consent_given("否\n"));
    assert!(!consent_given("是的"));
    assert!(!consent_given(""));
}

#[test]
fn root_dir_cuts_at_project_name() {
    assert_eq!(root_dir("/Users/song/Project/my/RustBytes/rust_bytes"), "/Users/song/Project/my/RustBytes/");
    assert_eq!(root_dir("/a/rust_bytes/target/debug/rust_bytes"), "/a/");
    assert_eq!(root_dir("/usr/local/bin/watcher"), "/usr/local/bin/watcher");
    assert_eq!(config_path("/a/rust_bytes/target/debug/rust_bytes"), "/a/config.json");
}

#[test]
fn law_root_dir_example() {
    let path = "/x/rust_bytes/y";
    let root = root_dir(path);
    assert!(path.starts_with(&format!("{}rust_bytes", root)));
}

fn object(members: Vec<(&str, Json)>) -> Json {
    Json::Object(members.into_iter().map(|(k, v)| (s(k), v)).collect())
}

#[test]
fn json_member_access() {
    let doc = object(vec![
        ("a", Json::PosInt(5)),
        ("b", Json::NegInt(-3)),
        ("c", Json::Str(s("hi"))),
        ("d", Json::Array(vec![Json::Null])),
        ("big", Json::PosInt(u64::MAX)),
        ("f", Json::Float(2.5f64.to_bits())),
        ("a", Json::PosInt(9)),
    ]);
    assert_eq!(doc.get("a").unwrap().as_i64(), Some(5));
    assert_eq!(doc.get("b").unwrap().as_i64(), Some(-3));
    assert_eq!(doc.get("b").unwrap().as_u64(), None);
    assert_eq!(doc.get("c").unwrap().as_str(), Some("hi"));
    assert_eq!(doc.get("c").unwrap().as_i64(), None);
    assert_eq!(doc.get("d").unwrap().as_array().unwrap().len(), 1);
    assert_eq!(doc.get("big").unwrap().as_i64(), None);
    assert_eq!(doc.get("big").unwrap().as_u64(), Some(u64::MAX));
    assert_eq!(doc.get("f").unwrap().as_u64(), None);
    assert!(doc.get("zzz").is_none());
    assert!(Json::Array(vec![]).get("a").is_none());
    assert!(Json::PosInt(1).as_array().is_none());
}
