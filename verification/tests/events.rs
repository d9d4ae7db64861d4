use runtime_core::contracts::{ConfirmationRequest, RunEvent, RunRequest, RunResult, RuntimeRunResponse, ModelRef, ProviderRef, WorkspaceRef};
use runtime_core::events::{make_confirmation_event, make_event, resequence_events, with_runtime_memory_recall_event, NO_MEMORY_HIT};
use runtime_core::metadata::Metadata;

fn sample_request() -> RunRequest {
    RunRequest {
        request_id: "request-1".to_string(),
        run_id: "run-1".to_string(),
        session_id: "session-1".to_string(),
        trace_id: "trace-1".to_string(),
        user_input: "test".to_string(),
        mode: "standard".to_string(),
        model_ref: ModelRef {
            provider_id: "provider".to_string(),
            model_id: "model".to_string(),
            display_name: "Model".to_string(),
        },
        provider_ref: ProviderRef {
            provider_id: "provider".to_string(),
            display_name: "Provider".to_string(),
            base_url: "https://example.com".to_string(),
            chat_completions_path: "/chat".to_string(),
            models_path: "/models".to_string(),
            api_key: "secret".to_string(),
        },
        workspace_ref: WorkspaceRef {
            workspace_id: "workspace-1".to_string(),
            name: "Workspace".to_string(),
            root_path: "/tmp/workspace".to_string(),
            is_active: true,
        },
        context_hints: Metadata::new(),
        resume_from_checkpoint_id: String::new(),
        resume_strategy: String::new(),
        confirmation_decision: None,
    }
}

fn sample_event(request: &RunRequest, sequence: u32, event_type: &str, stage: &str) -> RunEvent {
    RunEvent {
        event_id: format!("{}-{sequence}", request.run_id),
        kind: "run_event".to_string(),
        source: "runtime".to_string(),
        record_type: String::new(),
        source_type: String::new(),
        agent_id: "primary".to_string(),
        agent_label: "主智能体".to_string(),
        event_type: event_type.to_string(),
        trace_id: request.trace_id.clone(),
        session_id: request.session_id.clone(),
        run_id: request.run_id.clone(),
        sequence,
        timestamp: "1".to_string(),
        stage: stage.to_string(),
        summary: event_type.to_string(),
        detail: String::new(),
        tool_name: String::new(),
        tool_display_name: String::new(),
        tool_category: String::new(),
        output_kind: String::new(),
        result_summary: String::new(),
        artifact_path: String::new(),
        risk_level: String::new(),
        confirmation_id: String::new(),
        final_answer: String::new(),
        completion_status: String::new(),
        completion_reason: String::new(),
        verification_summary: String::new(),
        checkpoint_written: false,
        context_snapshot: None,
        tool_call_snapshot: None,
        verification_snapshot: None,
        metadata: Metadata::new(),
    }
}

fn empty_result() -> RunResult {
    RunResult {
        request_id: String::new(),
        run_id: String::new(),
        session_id: String::new(),
        trace_id: String::new(),
        kind: String::new(),
        source: String::new(),
        status: String::new(),
        final_answer: String::new(),
        summary: String::new(),
        error: None,
        memory_write_summary: None,
        final_stage: String::new(),
        checkpoint_id: None,
        resumable: None,
    }
}

#[test]
fn event_reads_tool_and_verification_fields_from_table() {
    let request = sample_request();
    let mut m = Metadata::new();
    m.insert("tool_name".to_string(), "workspace_read".to_string());
    m.insert("risk_level".to_string(), "low".to_string());
    m.insert("verification_summary".to_string(), "验证通过".to_string());
    m.insert("verification_passed".to_string(), "true".to_string());
    m.insert("verification_evidence".to_string(), " a \n\n b ".to_string());
    m.insert("checkpoint_written".to_string(), "true".to_string());
    let e = make_event(&request, 7, "action_completed", "Observe", "完成", "细节", m, "42", "");
    assert_eq!(e.event_id, "run-1-7-42");
    assert_eq!(e.sequence, 7);
    assert_eq!(e.event_type, "action_completed");
    assert_eq!(e.tool_name, "workspace_read");
    assert!(e.checkpoint_written);
    assert_eq!(e.verification_summary, "验证通过");
    let tool = e.tool_call_snapshot.unwrap();
    assert_eq!(tool.tool_name, "workspace_read");
    assert_eq!(tool.risk_level, "low");
    let v = e.verification_snapshot.unwrap();
    assert!(v.passed);
    assert_eq!(v.evidence, vec!["a", "b"]);
    assert!(e.context_snapshot.is_none());
}

#[test]
fn confirmation_event_pauses_for_a_person() {
    let request = sample_request();
    let c = ConfirmationRequest {
        confirmation_id: "confirm-1".to_string(),
        run_id: "run-1".to_string(),
        risk_level: "high".to_string(),
        action_summary: "删除目录".to_string(),
        reason: "删除不可恢复".to_string(),
        impact_scope: "workspace".to_string(),
        target_paths: vec!["a".to_string(), "b".to_string()],
        reversible: false,
        hazards: vec!["丢失数据".to_string()],
        alternatives: vec![],
        kind: "delete".to_string(),
    };
    let e = make_confirmation_event(&request, 3, &c, "9", "");
    assert_eq!(e.event_type, "confirmation_required");
    assert_eq!(e.stage, "PausedForConfirmation");
    assert_eq!(e.detail, "删除不可恢复");
    assert_eq!(e.confirmation_id, "confirm-1");
    assert_eq!(e.metadata.get("reversible").as_deref(), Some("false"));
    assert_eq!(e.metadata.get("next_step").as_deref(), Some("等待用户确认后再继续"));
    assert_eq!(e.metadata.get("task_title").as_deref(), Some("删除目录"));
}

#[test]
fn memory_recall_event_follows_plan() {
    let request = sample_request();
    let mut plan = sample_event(&request, 2, "plan_ready", "Plan");
    plan.metadata.insert("memory_digest".to_string(), "记得用户偏好中文".to_string());
    let response = RuntimeRunResponse {
        events: vec![sample_event(&request, 1, "run_started", "Analyze"), plan, sample_event(&request, 3, "run_finished", "Finish")],
        result: empty_result(),
        confirmation_request: None,
    };
    let r = with_runtime_memory_recall_event(&request, response.clone(), "5", "");
    let types: Vec<&str> = r.events.iter().map(|e| e.event_type.as_str()).collect();
    assert_eq!(types, vec!["run_started", "plan_ready", "memory_recalled", "run_finished"]);
    assert_eq!(r.events.iter().map(|e| e.sequence).collect::<Vec<_>>(), vec![1, 2, 3, 4]);
    assert_eq!(r.events[2].summary, "已完成记忆召回");
    assert_eq!(r.events[2].metadata.get("record_type").as_deref(), Some("recall_digest"));
    let again = with_runtime_memory_recall_event(&request, r.clone(), "6", "");
    assert_eq!(again.events.len(), 4);
    let mut empty_plan = response.clone();
    empty_plan.events[1].metadata.insert("memory_digest".to_string(), NO_MEMORY_HIT.to_string());
    let no_hit = with_runtime_memory_recall_event(&request, empty_plan, "5", "");
    assert_eq!(no_hit.events[2].summary, "未命中长期记忆");
}

#[test]
fn resequence_numbers_events_from_one() {
    let request = sample_request();
    let mut events = vec![sample_event(&request, 9, "a", "Plan"), sample_event(&request, 4, "b", "Plan"), sample_event(&request, 0, "c", "Plan")];
    resequence_events(&mut events);
    assert_eq!(events.iter().map(|e| e.sequence).collect::<Vec<_>>(), vec![1, 2, 3]);
    assert_eq!(events[1].event_type, "b");
}
