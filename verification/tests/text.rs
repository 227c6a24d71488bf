use yastr::text::{contains, decimal, replace, same};

#[test]
fn numbers_are_written_in_decimal() {
    assert_eq!(decimal(0), "0");
    assert_eq!(decimal(9), "9");
    assert_eq!(decimal(10), "10");
    assert_eq!(decimal(20001), "20001");
    assert_eq!(decimal(u64::MAX), "18446744073709551615");
}

#[test]
fn patterns_are_found_anywhere() {
    assert!(contains("text/html", "text/html"));
    assert!(contains("application/xml, text/html;q=0.9", "text/html"));
    assert!(contains("abc", ""));
    assert!(contains("", ""));
    assert!(!contains("", "a"));
    assert!(!contains("text/htm", "text/html"));
    assert!(contains("aab", "ab"));
}

#[test]
fn every_occurrence_is_replaced() {
    assert_eq!(replace("a&b&", '&', "&amp;"), "a&amp;b&amp;");
    assert_eq!(replace("", '&', "x"), "");
    assert_eq!(replace("abc", '&', "x"), "abc");
    assert_eq!(replace("aaa", 'a', ""), "");
}

#[test]
fn equal_texts_are_the_same() {
    assert!(same("", ""));
    assert!(same("fileName", "fileName"));
    assert!(!same("fileName", "filename"));
}
