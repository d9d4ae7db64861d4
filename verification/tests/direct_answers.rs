use runtime_core::direct_answers::{execute_explain, knowledge_search_execution, llm_error_message, render_hits};
use runtime_core::knowledge::KnowledgeHit;
use runtime_core::memory::MemoryEntry;
use runtime_core::memory_actions::{build_memory_entry, failed_memory_write, memory_recall_execution, ok_memory_write, render_entries};
use runtime_core::memory_recall::MemoryDigest;
use runtime_core::contracts::{ModelRef, ProviderRef, RunRequest, WorkspaceRef};
use runtime_core::metadata::Metadata;

fn hit(updated_at: &str) -> KnowledgeHit {
    KnowledgeHit {
        path: "docs/a.md".to_string(),
        snippet: "片段".to_string(),
        source_type: "file".to_string(),
        source_label: "项目文档".to_string(),
        knowledge_type: "doc".to_string(),
        confidence: "高".to_string(),
        updated_at: updated_at.to_string(),
        reason: "关键词".to_string(),
    }
}

#[test]
fn explain_is_static() {
    let e = execute_explain();
    assert!(e.success);
    assert!(e.final_answer.starts_with("你可以把我当成会推进本地项目的工作助手"));
    assert_eq!(e.cache_reason, "能力说明属于即时生成内容，当前不使用回答缓存。");
}

#[test]
fn knowledge_report_lists_hits() {
    assert_eq!(
        render_hits(&[hit(" ")]),
        "1. docs/a.md\n   片段\n   来源分类：项目文档\n   来源类型：file\n   知识类型：doc\n   可信度：高\n   更新时间：未提供\n   命中理由：关键词"
    );
    let e = knowledge_search_execution("q", &[hit("1"), hit("2")]);
    assert_eq!(e.result_summary, "已从本地知识源返回 2 条摘要结果。");
    assert!(e.final_answer.contains("\n2. docs/a.md"));
    let none = knowledge_search_execution("q", &[]);
    assert_eq!(none.final_answer, "当前没有在本地知识源中找到与 `q` 相关的内容。");
    assert_eq!(llm_error_message("timeout", "too slow"), "timeout: too slow");
}

fn request() -> RunRequest {
    RunRequest {
        request_id: "r".to_string(),
        run_id: "run-test".to_string(),
        session_id: "session-test".to_string(),
        trace_id: "t".to_string(),
        user_input: "记住".to_string(),
        mode: "standard".to_string(),
        model_ref: ModelRef { provider_id: "p".to_string(), model_id: "m".to_string(), display_name: "M".to_string() },
        provider_ref: ProviderRef {
            provider_id: String::new(),
            display_name: String::new(),
            base_url: String::new(),
            chat_completions_path: String::new(),
            models_path: String::new(),
            api_key: String::new(),
        },
        workspace_ref: WorkspaceRef {
            workspace_id: "workspace-test".to_string(),
            name: "workspace".to_string(),
            root_path: "/w".to_string(),
            is_active: true,
        },
        context_hints: Metadata::new(),
        resume_from_checkpoint_id: String::new(),
        resume_strategy: String::new(),
        confirmation_decision: None,
    }
}

fn digest(objects: bool) -> MemoryDigest {
    MemoryDigest {
        summary: "s".to_string(),
        has_system_views: true,
        has_current_objects: objects,
        current_object_count: if objects { 1 } else { 0 },
        memory_route: String::new(),
        selected_layers: vec![],
        match_reason: String::new(),
        reuse_confidence: String::new(),
        skipped_layers: vec![],
    }
}

#[test]
fn memory_write_entry_and_records() {
    let e: MemoryEntry = build_memory_entry(&request(), "project_rule", "摘要", "内容", "1700");
    assert_eq!(e.id, "memory-1700");
    assert_eq!(e.source, "run:run-test");
    assert_eq!(e.scope, "workspace");
    assert_eq!(e.source_event_type, "memory_written");
    assert!(e.verified);
    let ok = ok_memory_write(&e);
    assert_eq!(ok.result_summary, "已写入 `project_rule` 记忆：摘要");
    assert_eq!(ok.memory_write_summary.as_deref(), Some("已写入 `project_rule` 记忆：摘要"));
    let failed = failed_memory_write("摘要", "disk full");
    assert!(!failed.success);
    assert_eq!(failed.final_answer, "记忆写入失败：disk full");
    assert_eq!(render_entries(&[e.clone()]), "1. [project_rule] 摘要\n   内容");
}

#[test]
fn memory_recall_result_mentions_object_aware_layers() {
    let e = build_memory_entry(&request(), "project_rule", "对象摘要", "content-对象摘要", "1001");
    let result = memory_recall_execution("对象摘要", &[e], &digest(true));
    assert!(result.result_summary.contains("system views + current memory object"));
    assert!(result.final_answer.contains("召回层：system views + current memory object"));
    assert!(result.reasoning_summary.contains("本次召回层为system views + current memory object"));
}

#[test]
fn memory_recall_without_object_hits_mentions_system_view_layer() {
    let result = memory_recall_execution("未命中", &[], &digest(false));
    assert!(result.result_summary.contains("system views"));
    assert!(result.reasoning_summary.contains("本次召回层为system views"));
}

use runtime_core::memory_objects::{diff_memory_object_versions, find_version, MemoryObjectVersion};

fn version(id: &str, summary: &str, content: &str) -> MemoryObjectVersion {
    MemoryObjectVersion {
        object_id: "obj".to_string(),
        version_id: id.to_string(),
        canonical_uri: "memory://obj".to_string(),
        summary: summary.to_string(),
        content: content.to_string(),
        is_current: false,
        restored_from_version_id: String::new(),
        created_at: "1".to_string(),
    }
}

#[test]
fn version_diff_reports_changes() {
    let versions = vec![version("v1", "第一版", "content-第一版"), version("v2", "第二版", "content-第二版")];
    let diff = diff_memory_object_versions(&versions, "obj", "v1", "v2").unwrap();
    assert!(diff.summary_changed);
    assert!(diff.content_changed);
    assert!(diff.to_content_excerpt.contains("第二版"));
    assert_eq!(find_version(&versions, "v2"), Ok(1));
    assert_eq!(
        diff_memory_object_versions(&versions, "obj", "v9", "v2").unwrap_err(),
        "未找到 memory object 版本：v9"
    );
    let same = diff_memory_object_versions(&versions, "obj", "v1", "v1").unwrap();
    assert!(!same.summary_changed && !same.content_changed);
}

use runtime_core::run_outcome::{action_completed_next_step, build_failure_error, finish_status, verification_summary_title};
use runtime_core::siyuan::{
    missing_siyuan_action, render_siyuan_hits, siyuan_export_content, siyuan_export_file_name, siyuan_export_record,
    siyuan_file_hit, siyuan_read_ok, siyuan_search_execution, sync_hint, top_three, knowledge_note_content,
    knowledge_note_file_name, note_index_record, siyuan_write_ok, failed_siyuan_write, siyuan_write_execution,
};
use runtime_core::capabilities::{ToolCallResult, ToolDefinition, ToolExecutionTrace};

#[test]
fn run_outcome_texts() {
    assert_eq!(finish_status(true), "completed");
    assert_eq!(finish_status(false), "failed");
    assert_eq!(action_completed_next_step(false), "准备收口失败结果");
    assert_eq!(verification_summary_title(true), "已形成验证结果");
    let trace = ToolExecutionTrace {
        tool: ToolDefinition {
            tool_name: "run_command".to_string(),
            display_name: "执行命令".to_string(),
            category: "system_command".to_string(),
            risk_level: "high".to_string(),
            input_schema: "command_text".to_string(),
            output_kind: "text_preview".to_string(),
            requires_confirmation: true,
        },
        action_summary: "a".to_string(),
        result: ToolCallResult {
            summary: "失败摘要".to_string(),
            final_answer: "失败正文".to_string(),
            artifact_path: None,
            detail_preview: String::new(),
            raw_output_ref: None,
            result_chars: 0,
            single_result_budget_chars: 0,
            single_result_budget_hit: false,
            error_code: None,
            elapsed_ms: 0,
            retryable: true,
            success: false,
            memory_write_summary: None,
            reasoning_summary: String::new(),
            cache_status: "bypass".to_string(),
            cache_reason: String::new(),
        },
    };
    let err = build_failure_error(&trace).unwrap();
    assert_eq!(err.error_code, "action_execution_failed");
    assert_eq!(err.message, "失败正文");
    assert_eq!(err.stage, "Finish");
    assert!(err.retryable);
}

#[test]
fn siyuan_records_and_reports() {
    let h = siyuan_file_hit("/notes/a.md", "笔记内容");
    assert_eq!(h.snippet, "笔记内容");
    assert_eq!(render_siyuan_hits(&[h.clone()]), "1. /notes/a.md\n   笔记内容\n   来源类型：siyuan_file\n   命中理由：思源正文命中");
    let e = siyuan_search_execution("q", &[h.clone()]);
    assert_eq!(e.result_summary, "已返回思源笔记摘要。");
    assert!(!missing_siyuan_action("当前未配置思源根目录。").success);
    assert_eq!(siyuan_read_ok("/n.md", "正文").final_answer, "思源正文读取完成：/n.md\n正文");
    assert_eq!(sync_hint(false), "摘要回写未开启。");
    assert_eq!(siyuan_export_content("学习计划"), "# 学习计划\n\n学习计划");
    let request = request();
    assert_eq!(siyuan_export_file_name(&request), "workspace-test-run-test.md");
    let rec = siyuan_export_record(&request, "/exp/x.md", "99");
    assert_eq!(rec.id, "siyuan-note-99");
    assert_eq!(rec.tags, vec!["siyuan", "workspace-test"]);
    let top = top_three(vec![(1, h.clone()), (5, h.clone()), (3, h.clone()), (5, siyuan_file_hit("/b.md", "b"))]);
    let scores: Vec<i32> = top.iter().map(|x| x.0).collect();
    assert_eq!(scores, vec![5, 5, 3]);
    assert_eq!(top[0].1.path, "/notes/a.md");
    assert_eq!(top[1].1.path, "/b.md");
}

#[test]
fn knowledge_notes_and_their_index() {
    let request = request();
    let mut rec = siyuan_export_record(&request, "/exp/x.md", "99");
    rec.id = "knowledge-7".to_string();
    rec.priority = 3;
    assert_eq!(knowledge_note_file_name(&request, &rec), "workspace-test-knowledge-7.md");
    assert_eq!(knowledge_note_content(&rec), format!("# {}\n\n{}\n\n{}", rec.title, rec.summary, rec.content));
    let index = note_index_record(&request, &rec, "/notes/workspace-test-knowledge-7.md", "100");
    assert_eq!(index.id, "siyuan-knowledge-7");
    assert_eq!(index.source, "/notes/workspace-test-knowledge-7.md");
    assert_eq!(index.source_type, "siyuan");
    assert_eq!(index.priority, 4);
    assert_eq!(index.tags, rec.tags);
    assert_eq!(index.updated_at, "100");
    assert_eq!(index.created_at, rec.created_at);
    let ok = siyuan_write_ok("/notes/a.md", "已开启摘要回写。");
    assert_eq!(ok.final_answer, "思源导出完成：/notes/a.md\n已开启摘要回写。");
    assert!(ok.success);
    let failed = failed_siyuan_write("思源导出失败");
    assert_eq!(failed.final_answer, "思源写入失败：思源导出失败");
    assert!(!failed.success);
}

#[test]
fn siyuan_write_follows_configuration_and_export() {
    let off = siyuan_write_execution(false, Some("/n.md"), Ok("摘要回写未开启。"));
    assert_eq!(off.final_answer, "当前未开启思源自动写入。");
    assert!(!off.success);
    let no_path = siyuan_write_execution(true, None, Ok("摘要回写未开启。"));
    assert_eq!(no_path.final_answer, "当前未配置思源导出目录。");
    let failed = siyuan_write_execution(true, Some("/n.md"), Err("disk".to_string()));
    assert_eq!(failed.result_summary, "思源写入失败：思源导出失败");
    let done = siyuan_write_execution(true, Some("/n.md"), Ok("摘要回写未开启。"));
    assert!(done.success);
    assert_eq!(done.action_summary, "导出知识到思源：/n.md");
    assert_eq!(done.final_answer, "思源导出完成：/n.md\n摘要回写未开启。");
}
