use suite_install::clock::{date_parts, file_timestamp_text, is_leap, timestamp_text, days_in_month};
use suite_install::digest::sha256_hex;
use suite_install::text::{
    body_excerpt, contains, decimal_string, ends_with, first_token, normalize_whitespace,
    replace, replace_char, sort_strings, starts_with, str_eq,
};

#[test]
fn date_parts_of_epoch() {
    assert_eq!(date_parts(0), (1970, 1, 1, 0, 0, 0));
    assert_eq!(date_parts(86399), (1970, 1, 1, 23, 59, 59));
}

#[test]
fn date_parts_of_leap_days_and_ends_of_years() {
    assert_eq!(date_parts(951782400), (2000, 2, 29, 0, 0, 0));
    assert_eq!(date_parts(1709164800), (2024, 2, 29, 0, 0, 0));
    assert_eq!(date_parts(4102444799), (2099, 12, 31, 23, 59, 59));
    assert_eq!(date_parts(253402300799), (9999, 12, 31, 23, 59, 59));
}

#[test]
fn date_parts_of_a_log_line() {
    assert_eq!(date_parts(1714231845), (2024, 4, 27, 15, 30, 45));
}

#[test]
fn timestamps_are_zero_padded() {
    assert_eq!(timestamp_text(1714231845), "2024-04-27 15:30:45");
    assert_eq!(file_timestamp_text(1714231845), "20240427_153045");
    assert_eq!(timestamp_text(0), "1970-01-01 00:00:00");
    assert_eq!(file_timestamp_text(951782400), "20000229_000000");
}

#[test]
fn leap_years_follow_the_gregorian_rule() {
    assert!(is_leap(2000));
    assert!(is_leap(2024));
    assert!(!is_leap(1900));
    assert!(!is_leap(2023));
    assert_eq!(days_in_month(2023, 2), 28);
    assert_eq!(days_in_month(2024, 2), 29);
    assert_eq!(days_in_month(2024, 4), 30);
    assert_eq!(days_in_month(2024, 12), 31);
}

#[test]
fn decimal_text() {
    assert_eq!(decimal_string(0), "0");
    assert_eq!(decimal_string(7), "7");
    assert_eq!(decimal_string(10), "10");
    assert_eq!(decimal_string(18446744073709551615), "18446744073709551615");
}

#[test]
fn prefix_suffix_and_infix() {
    assert!(starts_with("CH_fr.toml", "CH_fr"));
    assert!(!starts_with("CH", "CH_fr"));
    assert!(starts_with("abc", ""));
    assert!(ends_with("app.exe", ".exe"));
    assert!(!ends_with("app.exe.md5", ".exe"));
    assert!(contains("app-x86_64.zip", "x86_64"));
    assert!(!contains("app.zip", "win"));
    assert!(contains("", ""));
    assert!(str_eq("héllo", "héllo"));
    assert!(!str_eq("hello", "hellO"));
}

#[test]
fn replace_every_occurrence() {
    assert_eq!(replace("{n}/{total} selected", "{n}", "3"), "3/{total} selected");
    assert_eq!(replace("a{x}b{x}c", "{x}", "--"), "a--b--c");
    assert_eq!(replace("aaa", "aa", "b"), "ba");
    assert_eq!(replace("nothing here", "{x}", "y"), "nothing here");
    assert_eq!(replace("abc", "", "y"), "abc".replace("", "y"));
    assert_eq!(replace("abc", "", "y"), "yaybycy");
    assert_eq!(replace("", "", "y"), "y");
    assert_eq!(replace_char("EN_en", '_', '-'), "EN-en");
}

#[test]
fn whitespace_is_collapsed() {
    let n: String = normalize_whitespace("  a \n\t b  c ").into_iter().collect();
    assert_eq!(n, "a b c");
    let n: String = normalize_whitespace("\u{a0}x\u{3000}y").into_iter().collect();
    assert_eq!(n, "x y");
    assert_eq!(first_token("  abc123  file.zip\n"), "abc123");
    assert_eq!(first_token("   "), "");
}

#[test]
fn excerpt_is_cut_at_300_characters() {
    assert_eq!(body_excerpt("  {\"message\":\n  \"Not Found\"}  "), "{\"message\": \"Not Found\"}");
    let long = "é".repeat(301);
    let e = body_excerpt(&long);
    assert_eq!(e.chars().count(), 303);
    assert!(e.ends_with("..."));
    let exact = "x".repeat(300);
    assert_eq!(body_excerpt(&exact), exact);
}

#[test]
fn strings_are_sorted() {
    let v = vec!["b.toml".to_string(), "CH_fr.toml".to_string(), "a.toml".to_string(), "CH_de.toml".to_string(), "a.toml".to_string()];
    let s = sort_strings(v);
    assert_eq!(s, vec!["CH_de.toml", "CH_fr.toml", "a.toml", "a.toml", "b.toml"]);
    let mut w = vec!["é".to_string(), "z".to_string(), "ab".to_string(), "a".to_string()];
    let sorted = sort_strings(w.clone());
    w.sort();
    assert_eq!(sorted, w);
}

#[test]
fn sha256_digest_in_lowercase_hex() {
    assert_eq!(sha256_hex(b"hello"), "2cf24dba5fb0a30e26e83b2ac5b9e29e1b161e5c1fa7425e73043362938b9824");
    assert_eq!(sha256_hex(b""), "e3b0c44298fc1c149afbf4c8996fb92427ae41e4649b934ca495991b7852b855");
}

