use runtime_core::memory::{
    choose_text, dedupe_memory_entries, doc_path_priority, looks_like_path_only, memory_priority_bonus,
    normalized_memory_entry, should_archive_memory_entry, should_skip_memory_entry, sort_memory_entries,
    MemoryEntry,
};

fn sample_entry(id: &str, kind: &str, summary: &str, priority: i32) -> MemoryEntry {
    MemoryEntry {
        id: id.to_string(),
        kind: kind.to_string(),
        title: summary.to_string(),
        summary: summary.to_string(),
        content: summary.to_string(),
        scope: "workspace".to_string(),
        workspace_id: "workspace-test".to_string(),
        session_id: "session-test".to_string(),
        source_run_id: "run-test".to_string(),
        source: "run:run-test".to_string(),
        source_type: "runtime".to_string(),
        source_title: summary.to_string(),
        source_event_type: "run_finished".to_string(),
        source_artifact_path: String::new(),
        governance_version: String::new(),
        governance_reason: String::new(),
        governance_source: String::new(),
        governance_at: "1".to_string(),
        archive_reason: String::new(),
        verified: true,
        priority,
        archived: false,
        archived_at: String::new(),
        created_at: "1".to_string(),
        updated_at: "1".to_string(),
        timestamp: "1".to_string(),
    }
}

#[test]
fn dedupe_keeps_first_entry_per_memory_key() {
    let first = sample_entry("memory-1", "lesson_learned", "同一条记忆", 20);
    let mut duplicate = sample_entry("memory-2", "lesson_learned", "同一条记忆", 80);
    duplicate.timestamp = "2".to_string();
    let third = sample_entry("memory-3", "lesson_learned", "另一条记忆", 20);
    let items = dedupe_memory_entries(vec![first.clone(), duplicate, third.clone()]);
    assert_eq!(items.len(), 2);
    assert_eq!(items[0].id, first.id);
    assert_eq!(items[1].id, third.id);
}

#[test]
fn dedupe_keeps_distinct_memory_object_identity() {
    let mut object = sample_entry("version-1", "project_rule", "同一条记忆", 20);
    object.source_type = "memory_object_current".to_string();
    object.source = "memory://workspace-test/project-rule/rule-object".to_string();
    let legacy = sample_entry("memory-legacy", "project_rule", "同一条记忆", 20);
    let items = dedupe_memory_entries(vec![object.clone(), legacy]);
    assert_eq!(items.len(), 2);
    assert_eq!(items[0].source_type, "memory_object_current");
}

#[test]
fn sort_prefers_current_memory_object_on_same_score() {
    let scored = vec![
        (50, sample_entry("legacy", "project_rule", "同分旧记录", 10)),
        (50, {
            let mut entry = sample_entry("current", "project_rule", "同分对象", 10);
            entry.source_type = "memory_object_current".to_string();
            entry.source = "memory://workspace-test/project-rule/rule-object".to_string();
            entry
        }),
    ];
    let scored = sort_memory_entries(scored);
    assert_eq!(scored[0].1.source_type, "memory_object_current");
}

#[test]
fn sort_orders_by_score_then_later_timestamp() {
    let mut early = sample_entry("early", "preference", "早", 0);
    early.timestamp = "100".to_string();
    let mut late = sample_entry("late", "preference", "晚", 0);
    late.timestamp = "200".to_string();
    let low = sample_entry("low", "preference", "低", 0);
    let sorted = sort_memory_entries(vec![(10, low), (40, early), (40, late)]);
    let ids: Vec<&str> = sorted.iter().map(|(_, e)| e.id.as_str()).collect();
    assert_eq!(ids, vec!["late", "early", "low"]);
}

#[test]
fn normalized_entry_fills_governance_fields() {
    let entry = sample_entry("m", "lesson_learned", "总结", 0);
    let n = normalized_memory_entry(&entry);
    assert_eq!(n.governance_version, "v1");
    assert_eq!(n.governance_source, "runtime_finish_memory");
    assert_eq!(n.governance_reason, "任务结果已按长期记忆治理规则沉淀。");
    assert_eq!(n.governance_at, "1");
    assert_eq!(n.archive_reason, "");
    let mut archived = entry.clone();
    archived.archived = true;
    assert_eq!(normalized_memory_entry(&archived).archive_reason, "当前记录已标记为归档。");
}

#[test]
fn low_value_fallback_memory_is_archived() {
    let mut entry = sample_entry("memory-archive", "lesson_learned", "低价值回退", 0);
    entry.source_type = "runtime".to_string();
    entry.content = "无法打开你的计算机，请使用本地文件管理。".to_string();
    assert!(should_archive_memory_entry(&entry));
    assert!(should_skip_memory_entry("任何问题", &entry));
}

#[test]
fn path_only_and_doc_priorities() {
    assert!(looks_like_path_only("  D:\\repo\\a.txt "));
    assert!(!looks_like_path_only("D:\\repo\\a.txt 是入口"));
    assert_eq!(doc_path_priority("see repo\\docs\\06-development\\x.md"), 42);
    assert_eq!(doc_path_priority("README.md"), 56);
    assert_eq!(memory_priority_bonus(200), 60);
    assert_eq!(memory_priority_bonus(-41), -20);
    assert_eq!(memory_priority_bonus(-3), -1);
    assert_eq!(choose_text(&["  ", " b ", "c"]), "b");
    assert_eq!(choose_text(&["", " "]), "");
}
