use runtime_core::knowledge::{
    cortex_category_or_default, cortex_memory_hit, cortex_recall_uri, cortex_result_or_empty, dedupe_hits,
    hit_dedupe_key, knowledge_reason, merge_knowledge_hits, path_priority, recall_source, resolve_agent_id,
    retry_cortex_recall, KnowledgeHit, is_knowledge_file_ext, is_knowledge_skipped_dir, knowledge_dir_in_reach,
    knowledge_files_full,
};

fn test_hit(path: &str, snippet: &str) -> KnowledgeHit {
    KnowledgeHit {
        path: path.to_string(),
        snippet: snippet.to_string(),
        source_type: "runtime".to_string(),
        source_label: "测试".to_string(),
        knowledge_type: "workflow_pattern".to_string(),
        confidence: "中".to_string(),
        updated_at: "1".to_string(),
        reason: "test".to_string(),
    }
}

#[test]
fn dedupe_prefers_local_hit_when_external_is_duplicate() {
    let local = KnowledgeHit {
        path: "run:1".to_string(),
        snippet: "CET4 shadowing improves listening".to_string(),
        source_type: "runtime".to_string(),
        source_label: "运行时沉淀知识".to_string(),
        knowledge_type: "workflow_pattern".to_string(),
        confidence: "高".to_string(),
        updated_at: "2026-04-13T10:00:00Z".to_string(),
        reason: "local".to_string(),
    };
    let external = KnowledgeHit {
        path: "cortex://m1".to_string(),
        snippet: "CET4 shadowing improves listening".to_string(),
        source_type: "cortex".to_string(),
        source_label: "外部增强记忆".to_string(),
        knowledge_type: "workflow_pattern".to_string(),
        confidence: "中".to_string(),
        updated_at: "2026-04-13T10:00:01Z".to_string(),
        reason: "external".to_string(),
    };
    let hits = dedupe_hits(vec![local, external]);
    assert_eq!(hits.len(), 1);
    assert_eq!(hits[0].source_type, "runtime");
}

#[test]
fn dedupe_keeps_distinct_hits() {
    let first = KnowledgeHit {
        path: "run:1".to_string(),
        snippet: "CET4 shadowing improves listening".to_string(),
        source_type: "runtime".to_string(),
        source_label: "运行时沉淀知识".to_string(),
        knowledge_type: "workflow_pattern".to_string(),
        confidence: "高".to_string(),
        updated_at: "2026-04-13T10:00:00Z".to_string(),
        reason: "local".to_string(),
    };
    let second = KnowledgeHit {
        path: "cortex://m2".to_string(),
        snippet: "Vocabulary chunks boost reading score".to_string(),
        source_type: "cortex".to_string(),
        source_label: "外部增强记忆".to_string(),
        knowledge_type: "workflow_pattern".to_string(),
        confidence: "中".to_string(),
        updated_at: "2026-04-13T10:00:01Z".to_string(),
        reason: "external".to_string(),
    };
    let hits = dedupe_hits(vec![first, second]);
    assert_eq!(hits.len(), 2);
}

#[test]
fn recall_source_redacts_sensitive_query() {
    let source = recall_source("please use api_key=sk-test-123 to recall");
    assert_eq!(source, "knowledge_search:[REDACTED]");
}

#[test]
fn recall_merge_prefers_local_when_limit_is_full() {
    let local = vec![test_hit("run:1", "local one"), test_hit("run:2", "local two")];
    let external = vec![test_hit("cortex://1", "external one")];
    let hits = merge_knowledge_hits(local, external, 2);
    assert_eq!(hits.len(), 2);
    assert_eq!(hits[0].path, "run:1");
    assert_eq!(hits[1].path, "run:2");
}

#[test]
fn recall_merge_adds_external_when_local_not_enough() {
    let local = vec![test_hit("run:1", "local one")];
    let external = vec![test_hit("cortex://1", "external one")];
    let hits = merge_knowledge_hits(local, external, 2);
    assert_eq!(hits.len(), 2);
    assert_eq!(hits[1].path, "cortex://1");
}

#[test]
fn recall_degrades_to_empty_when_external_fails() {
    let hits = cortex_result_or_empty(Err("network".to_string()));
    assert!(hits.is_empty());
}

#[test]
fn dedupe_key_uses_path_for_short_snippets() {
    let hit = test_hit("Docs/A B.md", "Short");
    assert_eq!(hit_dedupe_key(&hit), "workflow_pattern|docs/ab.md|short");
    let long = test_hit("x", "A Much Longer Snippet");
    assert_eq!(hit_dedupe_key(&long), "workflow_pattern|amuchlongersnippet");
}

#[test]
fn recall_source_keeps_first_eighty_characters() {
    let query = "x".repeat(100);
    assert_eq!(recall_source(&query), format!("knowledge_search:{}", "x".repeat(80)));
}

#[test]
fn path_priority_ranks_readme_and_test_docs() {
    assert_eq!(path_priority("D:\\repo\\README.md"), 48);
    assert_eq!(path_priority("/repo/docs/06-development/plan.md"), 28);
    assert_eq!(path_priority("/repo/docs/07-test/run.md"), -32);
    assert_eq!(path_priority("/repo/notes.md"), 0);
    assert_eq!(knowledge_reason("/repo/docs/07-test/run.md"), "07-test 已降权，仅作验收参考");
    assert_eq!(knowledge_reason("readme.md"), "README 主入口优先");
}

#[test]
fn cortex_memory_becomes_hit_with_default_category() {
    let hit = cortex_memory_hit("m1", "content".to_string(), "  ", "2026".to_string());
    assert_eq!(hit.path, "cortex://m1");
    assert_eq!(hit.knowledge_type, "external_memory");
    assert_eq!(cortex_category_or_default("fact"), "fact");
}

#[test]
fn agent_id_and_recall_uri_fall_back_to_defaults() {
    assert_eq!(resolve_agent_id("  "), "default");
    assert_eq!(resolve_agent_id("agent-7"), "agent-7");
    assert_eq!(cortex_recall_uri(""), "http://127.0.0.1:21100/api/v1/recall");
    assert_eq!(cortex_recall_uri(" http://host:1// "), "http://host:1/api/v1/recall");
}

#[test]
fn recall_retry_reports_attempt_and_last_error() {
    let mut calls = 0u8;
    let ok = retry_cortex_recall(|_| {
        calls += 1;
        if calls < 2 { Err("busy".to_string()) } else { Ok("{}".to_string()) }
    });
    assert_eq!(ok, Ok(("{}".to_string(), 2)));
    let failed = retry_cortex_recall(|_| Err("down".to_string()));
    assert_eq!(failed, Err("cortex recall retry exhausted, attempt=3/3, down".to_string()));
}

#[test]
fn knowledge_walk_skips_folders_and_keeps_text_files() {
    assert!(is_knowledge_skipped_dir("Node_Modules"));
    assert!(is_knowledge_skipped_dir("logs"));
    assert!(!is_knowledge_skipped_dir("docs"));
    assert!(is_knowledge_file_ext("MD"));
    assert!(is_knowledge_file_ext("toml"));
    assert!(!is_knowledge_file_ext("rs"));
    assert!(knowledge_dir_in_reach(4));
    assert!(!knowledge_dir_in_reach(5));
    assert!(!knowledge_files_full(239));
    assert!(knowledge_files_full(240));
}
