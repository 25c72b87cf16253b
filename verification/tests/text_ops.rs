use crunch::text::{join_with_space, split_once_at, str_eq, str_starts_with, u128_to_string};

#[test]
fn decimal_rendering() {
    assert_eq!(u128_to_string(0), "0");
    assert_eq!(u128_to_string(7), "7");
    assert_eq!(u128_to_string(10), "10");
    assert_eq!(u128_to_string(1234567890), "1234567890");
    assert_eq!(
        u128_to_string(u128::MAX),
        "340282366920938463463374607431768211455"
    );
}

#[test]
fn joining_with_spaces() {
    let parts: Vec<String> = Vec::new();
    assert_eq!(join_with_space(&parts), "");
    let parts = vec!["build".to_string()];
    assert_eq!(join_with_space(&parts), "build");
    let parts = vec!["test".to_string(), "--".to_string(), "--nocapture".to_string()];
    assert_eq!(join_with_space(&parts), "test -- --nocapture");
}

#[test]
fn string_comparisons() {
    assert!(str_eq("abc", "abc"));
    assert!(!str_eq("abc", "abd"));
    assert!(!str_eq("abc", "ab"));
    assert!(str_starts_with("--manifest-path=x", "--manifest-path="));
    assert!(!str_starts_with("--manifest", "--manifest-path="));
}

#[test]
fn splitting_at_a_separator() {
    assert_eq!(
        split_once_at("a:b:c", ':'),
        Some(("a".to_string(), "b:c".to_string()))
    );
    assert_eq!(split_once_at("nocolon", ':'), None);
    assert_eq!(
        split_once_at(":rest", ':'),
        Some(("".to_string(), "rest".to_string()))
    );
}
