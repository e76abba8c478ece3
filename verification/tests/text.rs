use tiktok::error::{Error, ErrorCode};
use tiktok::text::{
    decimal_string, ends_with_char, eq_ignore_ascii_case, split_hashtags, split_list, trimmed,
    without_leading,
};

#[test]
fn trimming_unicode_whitespace() {
    assert_eq!(trimmed("  a b \t\n"), "a b");
    assert_eq!(trimmed("\u{3000}\u{a0}x\u{2029}"), "x");
    assert_eq!(trimmed("   "), "");
    assert_eq!(trimmed(""), "");
    let once = trimmed(" \u{85} z ");
    assert_eq!(trimmed(&once), once);
    for s in [" a ", "\u{2000}b", "c\u{205f}", "\u{1680}\u{1680}"] {
        assert_eq!(trimmed(s), s.trim());
    }
}

#[test]
fn comma_lists() {
    assert_eq!(split_list("nike,adidas"), vec!["nike", "adidas"]);
    assert_eq!(split_list(" a ,, b , "), vec!["a", "b"]);
    assert_eq!(split_list(""), Vec::<String>::new());
    assert_eq!(split_list(",,,"), Vec::<String>::new());
    assert_eq!(split_list("machine learning"), vec!["machine learning"]);
    assert_eq!(split_hashtags("#rustlang,#coding"), vec!["rustlang", "coding"]);
    assert_eq!(split_hashtags(" ##a , # b,#"), vec!["a", " b"]);
    let items = vec!["x y", "z"];
    assert_eq!(split_list(&items.join(",")), items);
}

#[test]
fn lists_match_std_splitting() {
    for s in ["a,b", " , a,\tb ,", "é,ü , ß", "#x,##y, #z", "", "a,,,b"] {
        let expected: Vec<String> =
            s.split(',').map(str::trim).filter(|x| !x.is_empty()).map(str::to_string).collect();
        assert_eq!(split_list(s), expected);
        let tags: Vec<String> = s
            .split(',')
            .map(str::trim)
            .map(|x| x.trim_start_matches('#'))
            .filter(|x| !x.is_empty())
            .map(str::to_string)
            .collect();
        assert_eq!(split_hashtags(s), tags);
    }
}

#[test]
fn small_helpers() {
    assert_eq!(decimal_string(0), "0");
    assert_eq!(decimal_string(401), "401");
    assert_eq!(decimal_string(u64::MAX), u64::MAX.to_string());
    assert!(ends_with_char("a/", '/'));
    assert!(!ends_with_char("", '/'));
    assert!(eq_ignore_ascii_case("UsEr", "user"));
    assert!(!eq_ignore_ascii_case("users", "user"));
    assert!(!eq_ignore_ascii_case("ÜSER", "üser"));
    assert_eq!(without_leading("//a/b", '/'), "a/b");
    assert_eq!(without_leading("a", '/'), "a");
}

#[test]
fn error_codes_and_envelopes() {
    let codes = [
        (ErrorCode::Error, 1, "error"),
        (ErrorCode::Network, 2, "network"),
        (ErrorCode::AuthRequired, 3, "auth_required"),
        (ErrorCode::NotFound, 4, "not_found"),
        (ErrorCode::RateLimited, 5, "rate_limited"),
        (ErrorCode::InvalidInput, 6, "invalid_input"),
        (ErrorCode::NoAccount, 7, "no_account"),
    ];
    for (c, n, name) in codes {
        assert_eq!(c.exit_code(), n);
        assert_eq!(c.as_str(), name);
    }
    let e = Error::invalid("bad".to_string()).detail("d".to_string()).fix("f".to_string());
    let v = e.to_json();
    assert_eq!(v["error"], "bad");
    assert_eq!(v["code"], "invalid_input");
    assert_eq!(v["detail"], "d");
    assert_eq!(v["remediation"], "f");
    let v = Error::other("x".to_string()).to_json();
    assert!(v.get("detail").is_none());
    assert!(v.get("remediation").is_none());
}
