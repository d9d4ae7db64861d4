use runtime_core::artifacts::{artifact_file_name, artifact_record, should_externalize, should_externalize_always};

#[test]
fn only_long_results_become_artifacts() {
    assert!(!should_externalize(&"字".repeat(239)));
    assert!(should_externalize(&"字".repeat(240)));
    assert!(!should_externalize_always("  \n "));
    assert!(should_externalize_always(" x "));
}

#[test]
fn artifact_names_and_records() {
    assert_eq!(artifact_file_name("command", "1700", "txt"), "command-1700.txt");
    let r = artifact_record("command", "/a/command-1700.txt", "  输出  ", "1701");
    assert_eq!(r.kind, "command");
    assert_eq!(r.path, "/a/command-1700.txt");
    assert_eq!(r.preview, "输出");
    assert_eq!(r.content_chars, 6);
    assert_eq!(r.created_at, "1701");
}
