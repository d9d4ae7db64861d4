use runtime_core::listing::{
    format_entries_compact, keep_listed, ok_list_flat, sort_dir_entries, tree_child_prefix, tree_line, tree_shows,
    DirEntry,
};
use runtime_core::search::{
    compile_search_pattern, format_content_results, format_count_results, format_files_with_matches, glob_matches,
    glob_to_regex, is_skipped_dir, is_text_file, match_pattern, search_file_content, search_limit_hit, MatchLine,
    SearchOutputMode, SearchPattern, SearchResult,
};
use runtime_core::workspace::{
    binary_file_read, invalid_explicit_path_reason, is_append_mode, is_binary_chunk, normalize_explicit_path,
    ok_file_read, ok_file_write, precheck_path, select_lines, CACHE_READ_REASON,
};

#[test]
fn normalizes_explicit_path_slashes_and_spaces() {
    let value = normalize_explicit_path("  docs\\README.md  ");
    assert_eq!(value, "docs/README.md");
}

#[test]
fn rejects_question_mark_path_hint() {
    let reason = invalid_explicit_path_reason("docs/???.md");
    assert!(reason.is_some());
}

#[test]
fn rejects_replacement_char_path_hint() {
    let reason = invalid_explicit_path_reason("docs/\u{FFFD}\u{FFFD}.md");
    assert!(reason.is_some());
}

#[test]
fn path_reasons_are_exact() {
    assert_eq!(invalid_explicit_path_reason(""), Some("目标路径为空，请提供可读取的文件路径。"));
    assert!(invalid_explicit_path_reason("a\tb").unwrap().contains("编码丢失"));
    assert!(invalid_explicit_path_reason("a|b").unwrap().contains("非法字符"));
    assert_eq!(invalid_explicit_path_reason("docs/a.md"), None);
    let refused = precheck_path("读取文件", "  ", CACHE_READ_REASON).unwrap_err();
    assert_eq!(refused.action_summary, "读取文件：");
    assert!(!refused.success);
    assert_eq!(precheck_path("读取文件", " a\\b ", CACHE_READ_REASON).unwrap(), "a/b");
}

#[test]
fn selects_line_ranges() {
    let content = "l1\nl2\nl3\nl4";
    assert_eq!(select_lines(content, Some(2), Some(2)), "l2\nl3");
    assert_eq!(select_lines(content, None, None), content);
    assert_eq!(select_lines(content, Some(9), None), "");
    assert_eq!(select_lines(content, Some(0), Some(1)), "l1");
}

#[test]
fn read_reports_range() {
    let e = ok_file_read("/w/a.txt", "l1\nl2\nl3\nl4", Some(2), Some(2));
    assert!(e.success);
    assert_eq!(e.result_summary, "文件读取成功，显示 2/4 行（文件共 11 字符）。");
    assert_eq!(e.final_answer, "文件读取完成（行 2-3/4）：/w/a.txt\nl2\nl3");
    let whole = ok_file_read("/w/a.txt", "x\ny", None, None);
    assert_eq!(whole.result_summary, "文件读取成功，2 行。");
    assert_eq!(whole.final_answer, "文件读取完成：/w/a.txt\nx\ny");
}

#[test]
fn write_and_binary_records() {
    let e = ok_file_write("/w/out.md", "你好");
    assert_eq!(e.result_summary, "文件写入成功，共写入 2 个字符。");
    assert_eq!(e.final_answer, "文件写入完成：/w/out.md\n写入字符数：2\n内容摘要：你好");
    let b = binary_file_read("img.png");
    assert!(!b.success);
    assert!(is_binary_chunk(&[1, 0, 2]));
    assert!(!is_binary_chunk(b"plain text"));
    assert!(is_append_mode(Some("APPEND")));
    assert!(!is_append_mode(Some("overwrite")));
    assert!(!is_append_mode(None));
}

#[test]
fn globs_translate_and_match() {
    assert_eq!(glob_to_regex("*.rs"), "[^/\\\\]*\\.rs");
    assert_eq!(glob_to_regex("src/**"), "src/.*");
    assert!(glob_matches("*.RS", "main.rs"));
    assert!(!glob_matches("*.rs", "main.go"));
    assert!(glob_matches("a?c", "abc"));
}

#[test]
fn search_patterns() {
    let short = compile_search_pattern("Ab");
    assert!(matches!(short, SearchPattern::Literal(ref s) if s == "ab"));
    assert!(match_pattern(&short, "xxAB"));
    let re = compile_search_pattern("fn (main)");
    assert!(matches!(re, SearchPattern::Regex(_)));
    assert!(match_pattern(&re, "pub FN (MAIN)() {}"));
    assert!(!match_pattern(&re, "fn main"));
}

#[test]
fn file_filters() {
    assert!(is_text_file("main.rs"));
    assert!(is_text_file("README.MD"));
    assert!(!is_text_file("image.png"));
    assert!(is_text_file("makefile"));
    assert!(!is_text_file("Makefile"));
    assert!(is_skipped_dir("Node_Modules"));
    assert!(!is_skipped_dir("src"));
    assert!(is_skipped_dir(".cache"));
    assert!(search_limit_hit(SearchOutputMode::Content, 500, 0));
    assert!(!search_limit_hit(SearchOutputMode::Count, 500, 0));
}

#[test]
fn content_search_reports_context() {
    let pattern = compile_search_pattern("needle");
    let mut total = 0usize;
    let content = "a\nb\nneedle here\nc\nd\ne";
    let r = search_file_content(content, "f.txt".to_string(), &pattern, 1, SearchOutputMode::Content, &mut total).unwrap();
    assert_eq!(r.match_count, 1);
    let lines: Vec<(usize, &str, bool)> = r.matches.iter().map(|m| (m.line_number, m.text.as_str(), m.is_context)).collect();
    assert_eq!(lines, vec![(2, "b", true), (3, "needle here", false), (4, "c", true)]);
    assert_eq!(total, 3);
    let mut t2 = 0usize;
    let count = search_file_content("needle\nx\nNEEDLE", "g".to_string(), &pattern, 0, SearchOutputMode::Count, &mut t2).unwrap();
    assert_eq!(count.match_count, 2);
    assert_eq!(t2, 0);
    assert!(search_file_content("nothing", "h".to_string(), &pattern, 0, SearchOutputMode::FilesWithMatches, &mut t2).is_none());
}

#[test]
fn content_search_stops_at_line_limit() {
    let pattern = compile_search_pattern("hit");
    let mut total = 499usize;
    let r = search_file_content("hit\nhit\nhit", "f".to_string(), &pattern, 0, SearchOutputMode::Content, &mut total).unwrap();
    assert_eq!(r.matches.len(), 1);
    assert_eq!(total, 500);
}

#[test]
fn search_reports() {
    let results = vec![SearchResult {
        rel_path: "src/a.rs".to_string(),
        matches: vec![MatchLine { line_number: 3, text: "fn main()  ".to_string(), is_context: false }],
        match_count: 1,
    }];
    let e = format_content_results("/w", "main", &results, 1, 1);
    assert_eq!(e.result_summary, "在 1 个文件中找到 1 条匹配。");
    assert_eq!(e.final_answer, "搜索 \"main\" 在 /w（1 个文件，1 条匹配，1 行输出）：\nsrc/a.rs:\n> 3: fn main()");
    let none = format_content_results("/w", "zzz", &[], 0, 0);
    assert_eq!(none.result_summary, "未找到包含 \"zzz\" 的文件。");
    let files = format_files_with_matches("/w", &results);
    assert_eq!(files.final_answer, "在 /w 中搜索，1 个文件匹配：\nsrc/a.rs");
    let counts = format_count_results("/w", &results, 1);
    assert_eq!(counts.final_answer, "在 /w 中搜索，按文件统计匹配数（1 个文件，1 条匹配）：\nsrc/a.rs: 1 matches");
}

fn entry(name: &str, is_dir: bool) -> DirEntry {
    DirEntry { name: name.to_string(), is_dir, size_label: if is_dir { String::new() } else { "1B".to_string() } }
}

#[test]
fn listing_orders_folders_first_by_name() {
    let sorted = sort_dir_entries(vec![entry("b.txt", false), entry("Zeta", true), entry("A.txt", false), entry("alpha", true)]);
    let names: Vec<&str> = sorted.iter().map(|e| e.name.as_str()).collect();
    assert_eq!(names, vec!["alpha", "Zeta", "A.txt", "b.txt"]);
    let kept = keep_listed(vec![entry("a.rs", false), entry("b.go", false), entry("dir", true)], Some("*.rs"));
    let kept_names: Vec<&str> = kept.iter().map(|e| e.name.as_str()).collect();
    assert_eq!(kept_names, vec!["a.rs", "dir"]);
}

#[test]
fn compact_listing_and_tree_lines() {
    assert_eq!(format_entries_compact(&[]), "目录为空。");
    assert_eq!(format_entries_compact(&[entry("d", true), entry("f", false)]), "d/\nf (1B)");
    let many: Vec<DirEntry> = (0..62).map(|i| entry(&format!("f{}", i), false)).collect();
    assert!(format_entries_compact(&many).ends_with("... 及其他 2 个条目"));
    let e = ok_list_flat("/w", &[entry("d", true)]);
    assert_eq!(e.result_summary, "目录列举成功，共 1 个条目。");
    assert_eq!(tree_line("│   ", true, &entry("x", false)), "│   └── x (1B)\n");
    assert_eq!(tree_line("", false, &entry("src", true)), "├── src/\n");
    assert_eq!(tree_child_prefix("", false), "│   ");
    assert!(!tree_shows(&entry(".git", true), None));
    assert!(!tree_shows(&entry("a.go", false), Some("*.rs")));
}

#[test]
fn listing_keeps_equal_names_in_read_order() {
    let sorted = sort_dir_entries(vec![entry("Readme", false), entry("dir", true), entry("README", false), entry("readme", false)]);
    let names: Vec<&str> = sorted.iter().map(|e| e.name.as_str()).collect();
    assert_eq!(names, vec!["dir", "Readme", "README", "readme"]);
}

#[test]
fn content_search_past_line_limit_reports_nothing() {
    let pattern = compile_search_pattern("needle");
    let mut total = 900usize;
    assert!(search_file_content("needle", "f.txt".to_string(), &pattern, 0, SearchOutputMode::Content, &mut total).is_none());
    assert_eq!(total, 900);
}
