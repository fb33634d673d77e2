use nimbra_edge::failure::{error_chain, Failure};
use nimbra_edge::text::{contains, pad_right, trim, trim_end_matches};
use nimbra_edge::url::normalize_url;

#[test]
fn trims_only_at_the_end() {
    assert_eq!(trim_end_matches("//a/b//", '/'), "//a/b");
    assert_eq!(trim_end_matches("a", '/'), "a");
    assert_eq!(trim_end_matches("", '/'), "");
    assert_eq!(trim_end_matches("///", '/'), "");
    assert_eq!(trim_end_matches("größe//", '/'), "größe");
}

#[test]
fn trims_white_space_at_both_ends() {
    assert_eq!(trim("  admin \r\n"), "admin");
    assert_eq!(trim("a b"), "a b");
    assert_eq!(trim(" \t\u{b}\n"), "");
    assert_eq!(trim(""), "");
    assert_eq!(trim("\u{3000}ä\u{a0}\u{2028}"), "ä");
    assert_eq!(trim("\u{200b}x\u{180e}"), "\u{200b}x\u{180e}");
}

#[test]
fn trims_as_the_standard_library_does() {
    for code in 0..0x3100u32 {
        if let Some(c) = char::from_u32(code) {
            let s = format!("{}x{}", c, c);
            assert_eq!(trim(&s), s.trim());
        }
    }
}

#[test]
fn finds_a_text_in_another() {
    assert!(contains("http://a", "://"));
    assert!(contains("://", "://"));
    assert!(contains("::://", "://"));
    assert!(contains("anything", ""));
    assert!(contains("", ""));
    assert!(!contains("http:/a", "://"));
    assert!(!contains("//", "://"));
    assert!(!contains("", "x"));
    assert!(contains("größer", "ße"));
}

#[test]
fn pads_by_characters() {
    assert_eq!(pad_right("ab", 5), "ab   ");
    assert_eq!(pad_right("ß", 3), "ß  ");
    assert_eq!(pad_right("abc", 3), "abc");
    assert_eq!(pad_right("abcd", 3), "abcd");
    assert_eq!(pad_right("", 0), "");
}

#[test]
fn url_without_scheme_gets_https() {
    assert_eq!(normalize_url("10.0.0.1"), "https://10.0.0.1");
    assert_eq!(normalize_url("10.0.0.1/"), "https://10.0.0.1");
    assert_eq!(normalize_url("host:8443///"), "https://host:8443");
    assert_eq!(normalize_url("http:/host"), "https://http:/host");
}

#[test]
fn url_with_scheme_keeps_it() {
    assert_eq!(normalize_url("http://host/"), "http://host");
    assert_eq!(normalize_url("https://10.0.0.1"), "https://10.0.0.1");
    assert_eq!(normalize_url("https://host/path//"), "https://host/path");
}

#[test]
fn normalizing_twice_changes_nothing() {
    for url in ["10.0.0.1", "http://host/", "http://", "a/", "https://x/y"] {
        let once = normalize_url(url);
        assert_eq!(normalize_url(&once), once);
    }
}

#[test]
fn url_of_slashes_alone() {
    assert_eq!(normalize_url(""), "https://");
    assert_eq!(normalize_url("//"), "https://");
    assert_eq!(normalize_url("https://"), "https://https:");
}

#[test]
fn failure_is_told_with_its_causes() {
    let failure = Failure {
        message: "error sending request".to_string(),
        causes: vec!["client error".to_string(), "refused".to_string()],
    };
    assert_eq!(error_chain(&failure), "error sending request: client error: refused");
    let alone = Failure { message: "refused".to_string(), causes: vec![] };
    assert_eq!(error_chain(&alone), "refused");
}
