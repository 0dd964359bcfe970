use adesh_aot::order::{sort_by_name, sort_desc, text_less};

#[test]
fn text_order() {
    assert!(text_less("10.0.1", "10.0.2"));
    assert!(text_less("ab", "abc"));
    assert!(!text_less("abc", "ab"));
    assert!(!text_less("x", "x"));
    assert!(text_less("B", "a"));
}

#[test]
fn latest_version_first() {
    let v = vec!["10.0.19041.0".to_string(), "10.0.22621.0".to_string(), "10.0.17763.0".to_string()];
    assert_eq!(sort_desc(&v), vec!["10.0.22621.0", "10.0.19041.0", "10.0.17763.0"]);
}

#[test]
fn flags_by_name_keep_their_values() {
    let v = vec![
        ("opt".to_string(), "1".to_string()),
        ("alpha".to_string(), "x".to_string()),
        ("mid".to_string(), "y".to_string()),
    ];
    let s = sort_by_name(&v);
    let names: Vec<&str> = s.iter().map(|p| p.0.as_str()).collect();
    assert_eq!(names, vec!["alpha", "mid", "opt"]);
    assert_eq!(s[2].1, "1");
}
