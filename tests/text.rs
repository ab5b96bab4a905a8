use cg_req::text::{parse_u32, replace_all, str_eq};

#[test]
fn replace_all_non_overlapping() {
    assert_eq!(replace_all("aaaa", "aa", "b"), "bb");
    assert_eq!(replace_all("xyz", "q", "b"), "xyz");
    assert_eq!(replace_all("", "q", "b"), "");
    assert_eq!(replace_all("ünï{k}", "{k}", "é"), "ünïé");
}

#[test]
fn text_equality_and_numbers() {
    assert!(str_eq("ab", "ab"));
    assert!(!str_eq("ab", "abc"));
    assert_eq!(parse_u32("007"), Some(7));
    assert_eq!(parse_u32("+7"), Some(7));
    assert_eq!(parse_u32("+"), None);
    assert_eq!(parse_u32("++7"), None);
    assert_eq!(parse_u32("7+"), None);
}
