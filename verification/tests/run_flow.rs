use runtime_core::answer_cache::{answer_cache_entry, probe_answer_cache, AnswerCacheEntry};
use runtime_core::capabilities::{
    tool_definition_to_json_schema, tool_schema_properties, ToolCallResult, ToolDefinition, ToolExecutionTrace,
};
use runtime_core::checkpoint::{load_matching_resume_checkpoint, resume_matches, RunCheckpoint};
use runtime_core::contracts::{
    ConfirmationDecision, ModelRef, ProviderRef, RunRequest, RunResult, RuntimeRunResponse, WorkspaceRef,
};
use runtime_core::events::{prompt_dynamic_block, prompt_snapshot_envelope, prompt_user_input};
use runtime_core::execution::CompletionDecision;
use runtime_core::metadata::Metadata;
use runtime_core::patch::{
    build_change, failure_rollback_plan, parse_unified_diff, patch_kind, patch_write_plan, FsOp, PatchChange,
};
use runtime_core::run_events::{
    action_completed_event, action_requested_event, analysis_ready_event, base_run_metadata, budget_exhausted_event,
    iteration_completed_event, iteration_started_event, memory_written_event, plan_ready_event, replan_requested_event,
    run_started_event,
};
use runtime_core::run_outcome::{
    analysis_next_step, build_failure_error, build_run_result, iteration_completed_reason, next_loop_step, LoopStep,
    RiskOutcome, REPLAN_REASON,
};

fn request() -> RunRequest {
    RunRequest {
        request_id: "req-1".to_string(),
        run_id: "run-1".to_string(),
        session_id: "session-1".to_string(),
        trace_id: "trace-1".to_string(),
        user_input: "检查项目".to_string(),
        mode: "standard".to_string(),
        model_ref: ModelRef { provider_id: "p".to_string(), model_id: "m".to_string(), display_name: "M".to_string() },
        provider_ref: ProviderRef {
            provider_id: "p".to_string(),
            display_name: "P".to_string(),
            base_url: "http://localhost".to_string(),
            chat_completions_path: "/chat".to_string(),
            models_path: "/models".to_string(),
            api_key: "k".to_string(),
        },
        workspace_ref: WorkspaceRef {
            workspace_id: "w".to_string(),
            name: "W".to_string(),
            root_path: "/tmp/w".to_string(),
            is_active: true,
        },
        context_hints: Metadata::new(),
        resume_from_checkpoint_id: String::new(),
        resume_strategy: String::new(),
        confirmation_decision: None,
    }
}

fn tool(name: &str, display: &str, schema: &str) -> ToolDefinition {
    ToolDefinition {
        tool_name: name.to_string(),
        display_name: display.to_string(),
        category: "workspace_read".to_string(),
        risk_level: "low".to_string(),
        input_schema: schema.to_string(),
        output_kind: "text_preview".to_string(),
        requires_confirmation: false,
    }
}

fn trace(success: bool, memory: Option<&str>) -> ToolExecutionTrace {
    ToolExecutionTrace {
        tool: tool("workspace_read", "读取文件", "path"),
        action_summary: "读取文件".to_string(),
        result: ToolCallResult {
            summary: "结果摘要".to_string(),
            final_answer: "结果正文".to_string(),
            artifact_path: None,
            detail_preview: "结果摘要".to_string(),
            raw_output_ref: None,
            result_chars: 4,
            single_result_budget_chars: 30_000,
            single_result_budget_hit: false,
            error_code: None,
            elapsed_ms: 0,
            retryable: false,
            success,
            memory_write_summary: memory.map(|m| m.to_string()),
            reasoning_summary: "reasoning".to_string(),
            cache_status: "bypass".to_string(),
            cache_reason: "test".to_string(),
        },
    }
}

fn empty_result() -> RunResult {
    RunResult {
        request_id: String::new(),
        run_id: String::new(),
        session_id: String::new(),
        trace_id: String::new(),
        kind: String::new(),
        source: String::new(),
        status: String::new(),
        final_answer: String::new(),
        summary: String::new(),
        error: None,
        memory_write_summary: None,
        final_stage: String::new(),
        checkpoint_id: None,
        resumable: None,
    }
}

fn checkpoint(run_id: &str, session_id: &str, workspace_id: &str, reason: &str) -> RunCheckpoint {
    RunCheckpoint {
        checkpoint_id: "cp-1".to_string(),
        run_id: run_id.to_string(),
        session_id: session_id.to_string(),
        trace_id: "trace-1".to_string(),
        workspace_id: workspace_id.to_string(),
        status: "awaiting_confirmation".to_string(),
        final_stage: "PausedForConfirmation".to_string(),
        resumable: true,
        resume_reason: reason.to_string(),
        resume_stage: "PausedForConfirmation".to_string(),
        event_count: 0,
        request: request(),
        response: RuntimeRunResponse { events: Vec::new(), result: empty_result(), confirmation_request: None },
        created_at: "1".to_string(),
    }
}

fn modify_change(path: &str, original: &str, old: &str, new: &str) -> PatchChange {
    let d = format!("--- a/{path}\n+++ b/{path}\n@@ -1,3 +1,3 @@\n hello\n-{old}\n+{new}\n end");
    let patches = parse_unified_diff(&d).unwrap();
    let p = &patches[0];
    let kind = patch_kind(p).unwrap();
    build_change(kind, p.old_path.clone(), p.new_path.clone(), original.to_string(), &p.hunks, false, false).unwrap()
}

#[test]
fn run_result_carries_request_identity_and_completion() {
    let req = request();
    let t = trace(true, Some("记住了"));
    let completion = CompletionDecision { status: "completed".to_string(), reason: "ok".to_string() };
    let r = build_run_result(&req, &t, &completion, None);
    assert_eq!(r.request_id, "req-1");
    assert_eq!(r.run_id, "run-1");
    assert_eq!(r.kind, "run_result");
    assert_eq!(r.source, "runtime");
    assert_eq!(r.status, "completed");
    assert_eq!(r.final_answer, "结果正文");
    assert_eq!(r.summary, "结果摘要");
    assert_eq!(r.memory_write_summary.as_deref(), Some("记住了"));
    assert_eq!(r.final_stage, "Finish");
    assert!(r.error.is_none() && r.checkpoint_id.is_none() && r.resumable.is_none());
}

#[test]
fn failed_run_result_carries_error() {
    let req = request();
    let t = trace(false, None);
    let completion = CompletionDecision { status: "failed".to_string(), reason: "no".to_string() };
    let error = build_failure_error(&t);
    let r = build_run_result(&req, &t, &completion, error);
    let e = r.error.unwrap();
    assert_eq!(e.error_code, "action_execution_failed");
    assert_eq!(e.stage, "Finish");
    assert_eq!(r.status, "failed");
}

#[test]
fn analysis_next_step_follows_risk() {
    assert_eq!(analysis_next_step(RiskOutcome::Proceed), "准备生成执行计划");
    assert_eq!(analysis_next_step(RiskOutcome::RequireConfirmation), "需要等待人工确认");
    assert_eq!(analysis_next_step(RiskOutcome::Blocked), "受模式策略限制，准备收口");
}

#[test]
fn loop_steps_follow_replan_and_budget() {
    assert_eq!(next_loop_step(false, false), LoopStep::Verify);
    assert_eq!(next_loop_step(false, true), LoopStep::Verify);
    assert_eq!(next_loop_step(true, true), LoopStep::BudgetExhausted);
    assert_eq!(next_loop_step(true, false), LoopStep::Replan);
    assert_eq!(iteration_completed_reason(false), "当前动作已完成，准备进入验证");
    assert_eq!(iteration_completed_reason(true), "当前动作已完成，进入补充动作");
    assert_eq!(REPLAN_REASON, "上一步结果显示仍需补充观察");
}

#[test]
fn prompt_envelope_needs_workspace_root() {
    let mut m = Metadata::new();
    m.insert("task_title".to_string(), "任务".to_string());
    assert!(prompt_snapshot_envelope(&m).is_none());
    assert_eq!(prompt_user_input(&m), "任务");
    m.insert("user_input".to_string(), "问题".to_string());
    m.insert("context_workspace_root".to_string(), "/tmp/w".to_string());
    m.insert("context_mode".to_string(), "standard".to_string());
    m.insert("includes_memory".to_string(), "true".to_string());
    m.insert("memory_digest".to_string(), "记忆摘要".to_string());
    let env = prompt_snapshot_envelope(&m).unwrap();
    assert_eq!(env.user_input, "问题");
    assert_eq!(env.mode, "standard");
    assert_eq!(env.workspace_root, "/tmp/w");
    assert_eq!(env.static_block.role_prompt, "你是本地智能体，负责在当前工作区内完成真实任务。");
    assert_eq!(env.project_block.workspace_root, "/tmp/w");
    assert!(env.dynamic_block.includes_memory);
    assert!(!env.dynamic_block.includes_session);
    assert_eq!(env.dynamic_block.memory_digest, "记忆摘要");
    assert_eq!(prompt_dynamic_block(&m).prompt_profile, "");
}

#[test]
fn tool_schema_matches_function_calling_format() {
    assert_eq!(
        tool_schema_properties("path"),
        "{\"path\":{\"description\":\"The file or directory path\",\"type\":\"string\"}}"
    );
    assert_eq!(tool_schema_properties("none"), "{}");
    let schema = tool_definition_to_json_schema(&tool("workspace_write", "写入文件", "path_and_content"));
    assert_eq!(
        schema,
        "{\"function\":{\"description\":\"写入文件\",\"name\":\"workspace_write\",\"parameters\":{\"properties\":{\"content\":{\"description\":\"The content to write\",\"type\":\"string\"},\"path\":{\"description\":\"The file path\",\"type\":\"string\"}},\"required\":[\"path\",\"content\"],\"type\":\"object\"}},\"type\":\"function\"}"
    );
    let listing = tool_definition_to_json_schema(&tool("workspace_list", "列出文件", "optional_path"));
    assert!(!listing.contains("required"));
    let value: serde_json::Value = serde_json::from_str(&schema).unwrap();
    assert_eq!(value["function"]["parameters"]["required"][1], "content");
}

#[test]
fn dry_run_does_not_write() {
    let c = modify_change("a.txt", "hello\nold\nend", "old", "new");
    assert!(patch_write_plan(true, &[c.clone()]).is_empty());
    let plan = patch_write_plan(false, &[c]);
    assert_eq!(plan.len(), 1);
    assert!(matches!(&plan[0][1], FsOp::Write(p, t) if p == "a.txt" && t == "hello\nnew\nend"));
}

#[test]
fn rollback_restores_first_file_when_later_write_fails() {
    let first = modify_change("a.txt", "hello\nold\nend", "old", "new");
    let second = modify_change("b.txt", "hello\nx\nend", "x", "y");
    let plan = failure_rollback_plan(&[first, second], 1);
    assert_eq!(plan.len(), 4);
    assert!(matches!(&plan[1], FsOp::Write(p, t) if p == "b.txt" && t == "hello\nx\nend"));
    assert!(matches!(&plan[3], FsOp::Write(p, t) if p == "a.txt" && t == "hello\nold\nend"));
}

#[test]
fn recorded_answer_is_replayed() {
    let mut entries: Vec<AnswerCacheEntry> = Vec::new();
    let miss = probe_answer_cache("project", "状态如何", "digest", &entries);
    assert_eq!(miss.status, "miss");
    let entry = answer_cache_entry(&miss, "project", "状态如何", "digest", "一切正常", "摘要", "1").unwrap();
    entries.push(entry);
    let hit = probe_answer_cache("project", " 状态如何 ", "digest", &entries);
    assert_eq!(hit.status, "hit");
    assert_eq!(hit.answer.as_deref(), Some("一切正常"));
    assert!(answer_cache_entry(&hit, "project", "状态如何", "digest", "再答", "摘要", "2").is_none());
}

#[test]
fn resume_requires_same_scope_and_approval() {
    let mut req = request();
    req.resume_from_checkpoint_id = "cp-1".to_string();
    let cp = checkpoint("run-1", "session-1", "w", "confirmation_required");
    assert!(!resume_matches(&req, &cp));
    req.confirmation_decision = Some(ConfirmationDecision {
        confirmation_id: "c".to_string(),
        run_id: "run-1".to_string(),
        decision: "approve".to_string(),
        note: String::new(),
        remember: false,
    });
    assert!(resume_matches(&req, &cp));
    assert!(!resume_matches(&req, &checkpoint("run-2", "session-1", "w", "confirmation_required")));
    assert!(!resume_matches(&req, &checkpoint("run-1", "session-1", "other", "confirmation_required")));
    assert!(load_matching_resume_checkpoint(&req, Ok(Some(cp))).is_some());
    assert!(load_matching_resume_checkpoint(&req, Err("io".to_string())).is_none());
}

fn base() -> Metadata {
    let mut repo = Metadata::new();
    repo.insert("repo_branch".to_string(), "main".to_string());
    repo.insert("plan_goal".to_string(), "仓库目标".to_string());
    base_run_metadata("检查项目", 1, 3, "完成检查", "读取文件", "得到结论", &repo)
}

#[test]
fn base_metadata_carries_plan_and_repository() {
    let m = base();
    assert_eq!(m.get("task_title").as_deref(), Some("检查项目"));
    assert_eq!(m.get("iteration_index").as_deref(), Some("1"));
    assert_eq!(m.get("max_iterations").as_deref(), Some("3"));
    assert_eq!(m.get("plan_current_step").as_deref(), Some("读取文件"));
    assert_eq!(m.get("plan_stop_condition").as_deref(), Some("得到结论"));
    assert_eq!(m.get("repo_branch").as_deref(), Some("main"));
    assert_eq!(m.get("plan_goal").as_deref(), Some("仓库目标"));
}

#[test]
fn loop_events_follow_the_run() {
    let req = request();
    let m = base();
    let started = run_started_event(&req, 1, &m, 12, "t", "");
    assert_eq!(started.event_type, "run_started");
    assert_eq!(started.stage, "Analyze");
    assert_eq!(started.metadata.get("visible_tool_count").as_deref(), Some("12"));
    assert_eq!(started.metadata.get("next_step").as_deref(), Some("分析用户输入"));
    let analysed = analysis_ready_event(&req, 2, &m, RiskOutcome::RequireConfirmation, Some(4), "分析细节", "t", "");
    assert_eq!(analysed.detail, "分析细节");
    assert_eq!(analysed.metadata.get("next_step").as_deref(), Some("需要等待人工确认"));
    assert_eq!(analysed.metadata.get("session_turn_count").as_deref(), Some("4"));
    assert!(analysis_ready_event(&req, 2, &m, RiskOutcome::Proceed, None, "d", "t", "").metadata.get("session_turn_count").is_none());
    let it = iteration_started_event(&req, 3, &m, "读取文件", "t", "");
    assert_eq!((it.event_type.as_str(), it.stage.as_str(), it.detail.as_str()), ("plan_iteration_started", "Plan", "读取文件"));
    let t = trace(true, None);
    let plan = plan_ready_event(&req, 4, &m, &t, "t", "");
    assert_eq!(plan.metadata.get("next_step").as_deref(), Some("执行 读取文件"));
    let asked = action_requested_event(&req, 5, &m, &t, "t", "");
    assert_eq!(asked.summary, "准备调用 读取文件");
    assert_eq!(asked.metadata.get("tool_risk_level").as_deref(), Some("low"));
    assert_eq!(asked.metadata.get("mode").as_deref(), Some("standard"));
    let done = action_completed_event(&req, 6, &m, &t, "t", "");
    assert_eq!(done.summary, "读取文件 已完成");
    assert_eq!(done.metadata.get("next_step").as_deref(), Some("准备整理结果并验证"));
    let closed = iteration_completed_event(&req, 7, &m, "当前动作已完成，准备进入验证", "t", "");
    assert_eq!(closed.detail, "当前动作已完成，准备进入验证");
    let replan = replan_requested_event(&req, 8, &m, "上一步结果显示仍需补充观察", "t", "");
    assert_eq!(replan.stage, "Plan");
    let budget = budget_exhausted_event(&req, 9, &m, "t", "");
    assert_eq!(budget.event_type, "iteration_budget_exhausted");
    assert!(memory_written_event(&req, 10, "检查项目", &Metadata::new(), &t, "t", "").is_none());
    let with_memory = trace(true, Some("记住偏好"));
    let written = memory_written_event(&req, 10, "检查项目", &Metadata::new(), &with_memory, "t", "").unwrap();
    assert_eq!(written.detail, "记住偏好");
    assert_eq!(written.metadata.get("memory_scope").as_deref(), Some("w"));
}
