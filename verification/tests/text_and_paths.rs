use reaboot::path::{is_absolute, parent, path_join, trim_trailing_separators};
use reaboot::text::{decimal, find, parse_u32, rfind_char, split_char, starts_with, strip_prefix_or_self};

#[test]
fn parse_u32_like_from_str() {
    assert_eq!(parse_u32("0"), Some(0));
    assert_eq!(parse_u32("42"), Some(42));
    assert_eq!(parse_u32("+7"), Some(7));
    assert_eq!(parse_u32("007"), Some(7));
    assert_eq!(parse_u32("4294967295"), Some(u32::MAX));
    assert_eq!(parse_u32("4294967296"), None);
    assert_eq!(parse_u32(""), None);
    assert_eq!(parse_u32("+"), None);
    assert_eq!(parse_u32("-1"), None);
    assert_eq!(parse_u32("1 "), None);
    assert_eq!(parse_u32("12a"), None);
    for s in ["0", "1", "+5", "99999", "4294967295", "x", "", "-0", "18446744073709551616"] {
        assert_eq!(parse_u32(s), s.parse::<u32>().ok(), "for {s:?}");
    }
}

#[test]
fn decimal_forms() {
    assert_eq!(decimal(0), "0");
    assert_eq!(decimal(7), "7");
    assert_eq!(decimal(10), "10");
    assert_eq!(decimal(1234567), "1234567");
    assert_eq!(parse_u32(&decimal(4294967295)), Some(4294967295));
}

#[test]
fn split_like_str_split() {
    for (s, c) in [("a|b|c", '|'), ("", '|'), ("|", '|'), ("a||b|", '|'), ("no separator", '|'), ("ä|ö", '|')] {
        let expected: Vec<String> = s.split(c).map(|x| x.to_string()).collect();
        assert_eq!(split_char(s, c), expected, "for {s:?}");
    }
}

#[test]
fn search_helpers() {
    assert_eq!(find("hello world", "o w"), Some(4));
    assert_eq!(find("hello", "x"), None);
    assert_eq!(find("hello", ""), Some(0));
    assert_eq!(rfind_char("a/b/c", '/'), Some(3));
    assert_eq!(rfind_char("abc", '/'), None);
    assert!(starts_with("reaper_reapack-x64.dll", "reaper_reapack"));
    assert!(!starts_with("reaper", "reaper_reapack"));
    assert_eq!(strip_prefix_or_self("v1.2", "v"), "1.2");
    assert_eq!(strip_prefix_or_self("1.2", "v"), "1.2");
}

#[test]
fn joining_paths() {
    assert_eq!(path_join("/home/user/REAPER", "reaper.ini"), "/home/user/REAPER/reaper.ini");
    assert_eq!(path_join("/home/user/REAPER/", "reaper.ini"), "/home/user/REAPER/reaper.ini");
    assert_eq!(path_join("", "reaper.ini"), "reaper.ini");
    assert_eq!(path_join("/a", "/b"), "/b");
    assert!(is_absolute("/a"));
    assert!(!is_absolute("a/b"));
    assert!(!is_absolute(""));
}

#[test]
fn parents() {
    assert_eq!(parent("/a/b/c"), Some("/a/b".to_string()));
    assert_eq!(parent("/a/b/c/"), Some("/a/b".to_string()));
    assert_eq!(parent("/a"), Some("/".to_string()));
    assert_eq!(parent("/"), None);
    assert_eq!(parent(""), None);
    assert_eq!(parent("a"), Some(String::new()));
    assert_eq!(parent("a//b"), Some("a".to_string()));
    assert_eq!(trim_trailing_separators("/a/b//"), "/a/b");
    assert_eq!(trim_trailing_separators("/"), "/");
    for p in ["/a/b/c", "/a/b/c/", "/a", "/", "a", "a//b", "/a/b//c"] {
        let expected = std::path::Path::new(p).parent().map(|q| q.to_str().unwrap().to_string());
        assert_eq!(parent(p), expected, "for {p:?}");
    }
}
