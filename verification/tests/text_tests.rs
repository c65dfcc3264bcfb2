use image_mcp::text::{
    append_decimal, contains, has_char, remove_occurrences, split_once, starts_with, str_eq, to_lowercase,
    trim_end,
};

#[test]
fn equality_and_prefixes() {
    assert!(str_eq("abc", "abc"));
    assert!(!str_eq("abc", "abd"));
    assert!(!str_eq("abc", "ab"));
    assert!(starts_with("data:image/png", "data:"));
    assert!(!starts_with("dat", "data:"));
    assert!(starts_with("x", ""));
}

#[test]
fn infixes() {
    assert!(contains("gemini-2.5-flash-image", "image"));
    assert!(!contains("gemini-pro", "image"));
    assert!(contains("abc", ""));
    assert!(!contains("", "a"));
    assert!(has_char("a,b", ','));
    assert!(!has_char("ab", ','));
}

#[test]
fn splitting() {
    assert_eq!(split_once("a,b,c", ','), ("a".to_string(), Some("b,c".to_string())));
    assert_eq!(split_once("abc", ','), ("abc".to_string(), None));
    assert_eq!(split_once(",", ','), ("".to_string(), Some("".to_string())));
}

#[test]
fn trimming_and_removing() {
    assert_eq!(trim_end("https://x.io/v1//", '/'), "https://x.io/v1");
    assert_eq!(trim_end("///", '/'), "");
    assert_eq!(trim_end("abc", '/'), "abc");
    assert_eq!(remove_occurrences("models/gemini", "models/"), "gemini");
    assert_eq!(remove_occurrences("models/models/x", "models/"), "x");
    assert_eq!(remove_occurrences("a-models/-b", "models/"), "a--b");
    assert_eq!(remove_occurrences("modelsmodels/", "models/"), "models");
    assert_eq!(remove_occurrences("models/x", ""), "models/x".replace("", ""));
    assert_eq!(remove_occurrences("", ""), "");
}

#[test]
fn lowercase_and_decimal() {
    assert_eq!(to_lowercase("IMAGEN-3"), "imagen-3");
    let mut out = "seed:".to_string();
    append_decimal(&mut out, 12345);
    assert_eq!(out, "seed:12345");
    let mut out = String::new();
    append_decimal(&mut out, -7);
    assert_eq!(out, "-7");
    let mut out = String::new();
    append_decimal(&mut out, i64::MIN);
    assert_eq!(out, i64::MIN.to_string());
    let mut out = String::new();
    append_decimal(&mut out, 0);
    assert_eq!(out, "0");
}
