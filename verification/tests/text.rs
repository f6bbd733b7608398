use payjoin::text::{ends_with, push_decimal, push_decimal_list, push_signed_decimal, str_eq};

#[test]
fn decimal_texts() {
    let mut s = String::new();
    push_decimal(&mut s, 0);
    assert_eq!(s, "0");
    let mut s = String::from("n=");
    push_decimal(&mut s, 1234567890);
    assert_eq!(s, "n=1234567890");
    let mut s = String::new();
    push_decimal(&mut s, u64::MAX);
    assert_eq!(s, u64::MAX.to_string());
    let mut s = String::new();
    push_signed_decimal(&mut s, i32::MIN);
    assert_eq!(s, i32::MIN.to_string());
    let mut s = String::new();
    push_decimal_list(&mut s, &vec![1, 20, 300]);
    assert_eq!(s, "1, 20, 300");
    let mut s = String::new();
    push_decimal_list(&mut s, &vec![]);
    assert_eq!(s, "");
}

#[test]
fn comparing_texts() {
    assert!(str_eq("pj", "pj"));
    assert!(!str_eq("pj", "pjos"));
    assert!(!str_eq("pj", "PJ"));
    assert!(str_eq("", ""));
    assert!(ends_with("abc.onion", ".onion"));
    assert!(!ends_with("onion", ".onion"));
    assert!(ends_with("x", ""));
    assert!(!ends_with("é.onio", ".onion"));
}
