use runtime_core::metadata::{key_less, Metadata};

#[test]
fn metadata_pairs_come_in_key_order() {
    let mut m = Metadata::new();
    m.set("run_id", "r1");
    m.set("attempt", "2");
    m.set("mode", "standard");
    m.set("attempt", "3");
    let pairs = m.pairs();
    let keys: Vec<&str> = pairs.iter().map(|(k, _)| k.as_str()).collect();
    assert_eq!(keys, vec!["attempt", "mode", "run_id"]);
    assert_eq!(m.get("attempt"), Some("3".to_string()));
    assert_eq!(m.len(), 3);
}

#[test]
fn key_order_matches_string_order() {
    assert!(key_less("a", "b"));
    assert!(key_less("ab", "abc"));
    assert!(!key_less("abc", "ab"));
    assert!(!key_less("same", "same"));
    assert!(key_less("Z", "a"));
    assert_eq!(key_less("路径", "状态"), "路径" < "状态");
}
