use api_fn::text::{copy, join, same, starts_with};

#[test]
fn join_appends() {
    assert_eq!(join("user#", "alice"), "user#alice");
    assert_eq!(join("", ""), "");
    assert_eq!(join("a", ""), "a");
}

#[test]
fn copy_keeps_the_characters() {
    let text = String::from("héllo#");
    assert_eq!(copy(&text), text);
}

#[test]
fn starts_with_compares_characters() {
    assert!(starts_with("story#s1", "story#"));
    assert!(starts_with("story#", "story#"));
    assert!(starts_with("anything", ""));
    assert!(!starts_with("stor", "story#"));
    assert!(!starts_with("user#s1", "story#"));
    assert!(!starts_with("", "a"));
    assert!(starts_with("übung", "üb"));
}

#[test]
fn same_is_equality_of_characters() {
    assert!(same("create", "create"));
    assert!(same("", ""));
    assert!(!same("create", "created"));
    assert!(!same("created", "create"));
    assert!(!same("create", "delete"));
}

#[test]
fn copy_optional_keeps_what_is_there() {
    assert_eq!(api_fn::text::copy_optional(&Some(String::from("a"))), Some(String::from("a")));
    assert_eq!(api_fn::text::copy_optional(&None), None);
}

#[test]
fn lookup_takes_the_first_pair_with_the_name() {
    let pairs = vec![
        (String::from("a"), String::from("1")),
        (String::from("b"), String::from("2")),
        (String::from("a"), String::from("3")),
    ];
    assert_eq!(api_fn::pairs::lookup(&pairs, "a"), Some(String::from("1")));
    assert_eq!(api_fn::pairs::lookup(&pairs, "b"), Some(String::from("2")));
    assert_eq!(api_fn::pairs::lookup(&pairs, "c"), None);
    assert_eq!(api_fn::pairs::lookup(&vec![], "a"), None);
}
