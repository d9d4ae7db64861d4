use runtime_core::capabilities::{ToolCallResult, ToolDefinition, ToolExecutionTrace};
use runtime_core::execution::{VerificationOutcome, VerificationReport};
use runtime_core::contracts::{ModelRef, ProviderRef, RunRequest, WorkspaceRef};
use runtime_core::metadata::Metadata;
use runtime_core::memory_router::{
    auto_memory_entry, build_knowledge_record, plan_knowledge_write, plan_long_term_write, KnowledgeWritePlan,
    MemoryWritePlan, failure_lesson_entry, failure_lesson_reason, failure_lesson_summary,
    infer_memory_kind, knowledge_summary, knowledge_type, knowledge_write_outcome, preference_entry, preference_kind,
    preference_summary, skipped_event_type, skipped_record_outcome, working_memory_outcome,
};

fn sample_request(user_input: &str) -> RunRequest {
    RunRequest {
        request_id: "req-1".to_string(),
        run_id: "run-1".to_string(),
        session_id: "session-1".to_string(),
        trace_id: "trace-1".to_string(),
        user_input: user_input.to_string(),
        mode: "standard".to_string(),
        model_ref: ModelRef { provider_id: "p".to_string(), model_id: "m".to_string(), display_name: "M".to_string() },
        provider_ref: ProviderRef {
            provider_id: "p".to_string(),
            display_name: "P".to_string(),
            base_url: "http://localhost".to_string(),
            chat_completions_path: "/chat".to_string(),
            models_path: "/models".to_string(),
            api_key: "k".to_string(),
        },
        workspace_ref: WorkspaceRef {
            workspace_id: "main".to_string(),
            name: "Main".to_string(),
            root_path: "/tmp/w".to_string(),
            is_active: true,
        },
        context_hints: Metadata::new(),
        resume_from_checkpoint_id: String::new(),
        resume_strategy: String::new(),
        confirmation_decision: None,
    }
}

fn sample_tool(tool_name: &str) -> ToolDefinition {
    ToolDefinition {
        tool_name: tool_name.to_string(),
        display_name: "测试工具".to_string(),
        category: "agent".to_string(),
        risk_level: "low".to_string(),
        input_schema: "none".to_string(),
        output_kind: "text_preview".to_string(),
        requires_confirmation: false,
    }
}

fn sample_result(summary: &str, final_answer: &str) -> ToolCallResult {
    ToolCallResult {
        summary: summary.to_string(),
        final_answer: final_answer.to_string(),
        artifact_path: None,
        detail_preview: String::new(),
        raw_output_ref: None,
        result_chars: 0,
        single_result_budget_chars: 0,
        single_result_budget_hit: false,
        error_code: None,
        elapsed_ms: 10,
        retryable: false,
        success: true,
        memory_write_summary: None,
        reasoning_summary: "测试推理".to_string(),
        cache_status: "bypass".to_string(),
        cache_reason: String::new(),
    }
}

fn sample_trace(tool_name: &str, summary: &str, final_answer: &str) -> ToolExecutionTrace {
    ToolExecutionTrace {
        tool: sample_tool(tool_name),
        action_summary: "测试动作".to_string(),
        result: sample_result(summary, final_answer),
    }
}

fn sample_report(passed: bool) -> VerificationReport {
    VerificationReport {
        outcome: VerificationOutcome {
            passed,
            code: "verified".to_string(),
            browser_failure_type: String::new(),
            browser_page_id: String::new(),
            browser_selector: String::new(),
            browser_recovery_attempted: false,
            browser_recovery_exhausted: false,
            policy: "check_result_summary".to_string(),
            task_type: String::new(),
            evidence: vec![],
            evidence_count: 0,
            has_citation: false,
            fact_inference_split: false,
            capability_risk_checked: false,
            permission_boundary_respected: false,
            skill_hit_effective: false,
            skill_hit_reason: String::new(),
            guard_downgraded: false,
            guard_decision_ref: String::new(),
            summary: "验证".to_string(),
            next_step: "继续".to_string(),
        },
        tool_elapsed_ms: 10,
        result_chars: 0,
        single_result_budget_chars: 0,
        single_result_budget_hit: false,
    }
}

#[test]
fn knowledge_type_accepts_agent_resolve_when_verified() {
    let trace = sample_trace("agent_resolve", "任务已完成", "可复用流程说明");
    let report = sample_report(true);
    assert_eq!(knowledge_type(&trace, &report), Some("workflow_pattern".to_string()));
}

#[test]
fn knowledge_summary_falls_back_to_final_answer_when_short() {
    let trace = sample_trace(
        "agent_resolve",
        "完成",
        "这是一段可复用的较长知识摘要文本，用于验证回退策略有效。",
    );
    assert_eq!(knowledge_summary(&trace), "这是一段可复用的较长知识摘要文本，用于验证回退策略有效。");
}

#[test]
fn knowledge_type_is_none_when_verification_failed() {
    let trace = sample_trace("knowledge_search", "找到", "结果");
    assert_eq!(knowledge_type(&trace, &sample_report(false)), None);
    assert_eq!(knowledge_type(&trace, &sample_report(true)), Some("knowledge_recall".to_string()));
}

#[test]
fn preferences_are_collected_in_order() {
    assert_eq!(
        preference_summary("请用中文回答，简洁直接，最小改动"),
        Some("用户偏好：用中文回答；回答简洁直接；优先最小改动实现".to_string())
    );
    assert_eq!(preference_summary("随便聊聊"), None);
    assert_eq!(preference_kind("先验收再说"), Some("workflow_preference".to_string()));
    assert_eq!(preference_kind("用中文回答"), Some("preference".to_string()));
    assert_eq!(preference_kind("你好"), None);
}

#[test]
fn failure_lessons_name_the_cause() {
    let mut trace = sample_trace("run_command", "provider 未配置", "");
    trace.result.success = false;
    assert_eq!(
        failure_lesson_reason(&trace),
        Some("provider 未配置时应直接收口为配置错误，并阻止继续生成无效回答。")
    );
    assert_eq!(
        failure_lesson_summary(&trace, &sample_report(false)),
        Some("失败教训：测试工具 provider 未配置时应直接收口为配置错误，并阻止继续生成无效回答。".to_string())
    );
    let ok = sample_trace("run_command", "完成", "");
    assert_eq!(failure_lesson_reason(&ok), None);
}

#[test]
fn memory_kind_and_skip_event_follow_the_tool_and_layer() {
    assert_eq!(infer_memory_kind("project_answer"), "workspace_summary");
    assert_eq!(infer_memory_kind("run_command"), "lesson_learned");
    assert_eq!(skipped_event_type("knowledge_base"), "knowledge_write_skipped");
    assert_eq!(skipped_event_type("long_term_memory"), "memory_write_skipped");
}

#[test]
fn entries_built_from_a_run_carry_its_identity() {
    let request = sample_request("请用中文回答");
    let pref = preference_entry(&request, "100").unwrap();
    assert_eq!(pref.id, "memory-preference-100");
    assert_eq!(pref.kind, "preference");
    assert_eq!(pref.summary, "用户偏好：用中文回答");
    assert_eq!(pref.priority, 80);
    assert!(pref.verified);
    assert!(preference_entry(&sample_request("你好"), "100").is_none());
    let trace = sample_trace("project_answer", "项目说明已生成", "项目正在推进");
    let auto = auto_memory_entry(&request, &trace, &sample_report(true), "101");
    assert_eq!(auto.id, "memory-auto-101");
    assert_eq!(auto.kind, "workspace_summary");
    assert_eq!(auto.source_event_type, "verification_completed");
    assert!(auto.verified);
    let mut failed = sample_trace("run_command", "provider 未配置", "");
    failed.result.success = false;
    let lesson = failure_lesson_entry(&request, &failed, &sample_report(false), "102").unwrap();
    assert_eq!(lesson.id, "memory-lesson-102");
    assert_eq!(lesson.kind, "lesson_learned");
    assert_eq!(lesson.source_event_type, "run_failed");
    assert_eq!(lesson.priority, 60);
}

#[test]
fn knowledge_records_follow_verified_tools() {
    let request = sample_request("检查项目");
    let trace = sample_trace("agent_resolve", "智能体完成了一次跨文件整理任务", "整理结果");
    let record = build_knowledge_record(&request, &trace, &sample_report(true), "200").unwrap();
    assert_eq!(record.id, "knowledge-200");
    assert_eq!(record.knowledge_type, "workflow_pattern");
    assert_eq!(record.tags, vec!["agent_resolve", "main"]);
    assert_eq!(record.source, "run:run-1");
    assert!(build_knowledge_record(&request, &trace, &sample_report(false), "200").is_none());
    let written = knowledge_write_outcome(&record, "data/knowledge.db", Some("notes/a.md".to_string()), true);
    assert_eq!(written.event_type, "knowledge_written");
    assert_eq!(written.summary, "知识条目已写入 data/knowledge.db；思源已同步 notes/a.md");
    assert_eq!(written.reason, "当前任务形成了稳定摘要，已写入 SQLite 并同步到思源。");
    let local = knowledge_write_outcome(&record, "data/knowledge.db", None, true);
    assert_eq!(local.reason, "当前任务形成了稳定且可复用的摘要结果。");
}

#[test]
fn working_and_skipped_outcomes() {
    let request = sample_request("检查项目");
    let working = working_memory_outcome(&request, "data/session", "300");
    assert_eq!(working.layer, "working_memory");
    assert_eq!(working.title, "session-1");
    assert_eq!(working.summary, "短期工作记忆已落盘到 data/session");
    let skipped = skipped_record_outcome("knowledge_base", "project_status", "摘要过短", "301");
    assert_eq!(skipped.event_type, "knowledge_write_skipped");
    assert_eq!(skipped.reason, "摘要过短");
    assert_eq!(skipped.summary, "摘要过短");
}

#[test]
fn knowledge_plan_appends_only_clean_new_records() {
    let request = sample_request("检查项目");
    let trace = sample_trace("agent_resolve", "智能体完成了一次跨文件整理任务并写回结果", "整理结果");
    let record = build_knowledge_record(&request, &trace, &sample_report(true), "400").unwrap();
    match plan_knowledge_write(Some(record.clone()), &vec![], "400") {
        KnowledgeWritePlan::Append(k) => assert_eq!(k.id, "knowledge-400"),
        KnowledgeWritePlan::Skip(o) => panic!("unexpected skip: {}", o.reason),
    }
    match plan_knowledge_write(Some(record.clone()), &vec![record.clone()], "401") {
        KnowledgeWritePlan::Skip(o) => assert_eq!(o.reason, "命中重复知识条目，跳过写入。"),
        KnowledgeWritePlan::Append(_) => panic!("duplicate appended"),
    }
    let mut secret = record.clone();
    secret.content = "api_key=sk-123456789".to_string();
    match plan_knowledge_write(Some(secret), &vec![], "402") {
        KnowledgeWritePlan::Skip(o) => assert_eq!(o.reason, "命中敏感信息清洗规则：疑似密钥或隐私字段，禁止入库。"),
        KnowledgeWritePlan::Append(_) => panic!("sensitive record appended"),
    }
    match plan_knowledge_write(None, &vec![], "403") {
        KnowledgeWritePlan::Skip(o) => {
            assert_eq!(o.record_type, "document_digest");
            assert_eq!(o.reason, "当前结果不满足知识沉淀条件，未进入知识层。");
        }
        KnowledgeWritePlan::Append(_) => panic!("nothing to append"),
    }
}

#[test]
fn memory_plan_skips_unverified_and_duplicate_results() {
    let request = sample_request("检查项目");
    let trace = sample_trace("project_answer", "项目说明已生成", "项目正在推进");
    let entry = auto_memory_entry(&request, &trace, &sample_report(true), "500");
    match plan_long_term_write(entry.clone(), false, &vec![], "500") {
        MemoryWritePlan::Skip(o) => assert_eq!(o.reason, "验证未通过，跳过长期记忆写入。"),
        MemoryWritePlan::Append(_) => panic!("unverified result remembered"),
    }
    match plan_long_term_write(entry.clone(), true, &vec![entry.clone()], "500") {
        MemoryWritePlan::Skip(o) => assert_eq!(o.reason, "命中重复长期记忆，跳过写入。"),
        MemoryWritePlan::Append(_) => panic!("duplicate remembered"),
    }
    match plan_long_term_write(entry, true, &vec![], "500") {
        MemoryWritePlan::Append(e) => assert_eq!(e.id, "memory-auto-500"),
        MemoryWritePlan::Skip(o) => panic!("unexpected skip: {}", o.reason),
    }
}
