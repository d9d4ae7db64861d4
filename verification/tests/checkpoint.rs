use runtime_core::checkpoint::{
    checkpoint_id, checkpoint_record, checkpoint_response, checkpoint_resume_event, persisted_response,
    with_checkpoint_resume_event, RunCheckpoint,
};
use runtime_core::contracts::{
    ConfirmationDecision, ErrorInfo, ModelRef, ProviderRef, RunEvent, RunRequest, RunResult, RuntimeRunResponse,
    WorkspaceRef,
};
use runtime_core::metadata::Metadata;

fn sample_request() -> RunRequest {
    RunRequest {
        request_id: "request-1".to_string(),
        run_id: "run-1".to_string(),
        session_id: "session-1".to_string(),
        trace_id: "trace-1".to_string(),
        user_input: "test".to_string(),
        mode: "standard".to_string(),
        model_ref: ModelRef {
            provider_id: "provider".to_string(),
            model_id: "model".to_string(),
            display_name: "Model".to_string(),
        },
        provider_ref: ProviderRef {
            provider_id: "provider".to_string(),
            display_name: "Provider".to_string(),
            base_url: "https://example.com".to_string(),
            chat_completions_path: "/chat".to_string(),
            models_path: "/models".to_string(),
            api_key: "secret".to_string(),
        },
        workspace_ref: WorkspaceRef {
            workspace_id: "workspace-1".to_string(),
            name: "Workspace".to_string(),
            root_path: "/tmp/workspace".to_string(),
            is_active: true,
        },
        context_hints: Metadata::new(),
        resume_from_checkpoint_id: String::new(),
        resume_strategy: String::new(),
        confirmation_decision: None,
    }
}

fn sample_event(request: &RunRequest, sequence: u32, event_type: &str, stage: &str) -> RunEvent {
    RunEvent {
        event_id: format!("{}-{sequence}", request.run_id),
        kind: "run_event".to_string(),
        source: "runtime".to_string(),
        record_type: String::new(),
        source_type: String::new(),
        agent_id: "primary".to_string(),
        agent_label: "主智能体".to_string(),
        event_type: event_type.to_string(),
        trace_id: request.trace_id.clone(),
        session_id: request.session_id.clone(),
        run_id: request.run_id.clone(),
        sequence,
        timestamp: "1".to_string(),
        stage: stage.to_string(),
        summary: event_type.to_string(),
        detail: String::new(),
        tool_name: String::new(),
        tool_display_name: String::new(),
        tool_category: String::new(),
        output_kind: String::new(),
        result_summary: String::new(),
        artifact_path: String::new(),
        risk_level: String::new(),
        confirmation_id: String::new(),
        final_answer: String::new(),
        completion_status: String::new(),
        completion_reason: String::new(),
        verification_summary: String::new(),
        checkpoint_written: false,
        context_snapshot: None,
        tool_call_snapshot: None,
        verification_snapshot: None,
        metadata: Metadata::new(),
    }
}

fn sample_result(request: &RunRequest, status: &str, stage: &str, error: Option<ErrorInfo>) -> RunResult {
    RunResult {
        request_id: request.request_id.clone(),
        run_id: request.run_id.clone(),
        session_id: request.session_id.clone(),
        trace_id: request.trace_id.clone(),
        kind: "run_result".to_string(),
        source: "runtime".to_string(),
        status: status.to_string(),
        final_answer: "ok".to_string(),
        summary: "ok".to_string(),
        error,
        memory_write_summary: None,
        final_stage: stage.to_string(),
        checkpoint_id: None,
        resumable: None,
    }
}

fn sample_response(request: &RunRequest) -> RuntimeRunResponse {
    RuntimeRunResponse {
        events: vec![sample_event(request, 1, "run_started", "Analyze"), sample_event(request, 2, "run_finished", "Finish")],
        result: sample_result(request, "completed", "Finish", None),
        confirmation_request: None,
    }
}

fn awaiting_response(request: &RunRequest) -> RuntimeRunResponse {
    let mut response = sample_response(request);
    response.result.status = "awaiting_confirmation".to_string();
    response.result.final_stage = "PausedForConfirmation".to_string();
    response.events[1].event_type = "confirmation_required".to_string();
    response.events[1].stage = "PausedForConfirmation".to_string();
    response
}

fn retryable_failure_response(request: &RunRequest) -> RuntimeRunResponse {
    let error = ErrorInfo {
        error_code: "action_execution_failed".to_string(),
        message: "temporary failure".to_string(),
        summary: "temporary failure".to_string(),
        retryable: true,
        source: "runtime".to_string(),
        stage: "Finish".to_string(),
        metadata: Metadata::new(),
    };
    RuntimeRunResponse {
        events: vec![
            sample_event(request, 1, "run_started", "Analyze"),
            sample_event(request, 2, "run_failed", "Finish"),
            sample_event(request, 3, "run_finished", "Finish"),
        ],
        result: sample_result(request, "failed", "Finish", Some(error)),
        confirmation_request: None,
    }
}

fn approve_decision(run_id: &str) -> ConfirmationDecision {
    ConfirmationDecision {
        confirmation_id: format!("confirm-risk-{run_id}"),
        run_id: run_id.to_string(),
        decision: "approve".to_string(),
        note: String::new(),
        remember: false,
    }
}

/// Writes a checkpoint as the runtime does, keeping the stored record in memory.
fn checkpointed(request: &RunRequest, response: RuntimeRunResponse) -> (RuntimeRunResponse, RunCheckpoint) {
    let id = checkpoint_id(request, 1700000000000);
    let enriched = checkpoint_response(request, response.clone(), &id, "1", "");
    let record = checkpoint_record(request.clone(), enriched.clone(), &id, "1");
    (persisted_response(Ok(()), response, enriched), record)
}

fn meta(event: &RunEvent, key: &str) -> Option<String> {
    event.metadata.get(key)
}

#[test]
fn writes_checkpoint_before_terminal_event() {
    let request = sample_request();
    let (response, record) = checkpointed(&request, sample_response(&request));
    let id = response.result.checkpoint_id.clone().unwrap_or_default();
    assert_eq!(id, "run-1-1700000000000");
    assert_eq!(response.result.resumable, Some(false));
    let types: Vec<&str> = response.events.iter().map(|e| e.event_type.as_str()).collect();
    assert_eq!(types, vec!["run_started", "checkpoint_written", "run_finished"]);
    assert_eq!(response.events.iter().map(|e| e.sequence).collect::<Vec<_>>(), vec![1, 2, 3]);
    assert_eq!(meta(&response.events[1], "checkpoint_event_count").as_deref(), Some("3"));
    assert_eq!(record.checkpoint_id, id);
    assert_eq!(record.request.provider_ref.api_key, "");
    assert_eq!(record.event_count, 4);
}

#[test]
fn failed_checkpoint_write_keeps_original_response() {
    let request = sample_request();
    let original = sample_response(&request);
    let id = checkpoint_id(&request, 1);
    let enriched = checkpoint_response(&request, original.clone(), &id, "1", "");
    let kept = persisted_response(Err("disk full".to_string()), original, enriched);
    assert!(kept.result.checkpoint_id.is_none());
    assert_eq!(kept.events.len(), 2);
}

#[test]
fn retryable_failure_checkpoint_is_resumable() {
    let request = sample_request();
    let (_, record) = checkpointed(&request, retryable_failure_response(&request));
    assert!(record.resumable);
    assert_eq!(record.resume_reason, "retryable_failure");
    assert_eq!(record.resume_stage, "Execute");
}

#[test]
fn confirmation_checkpoint_keeps_minimal_resume_fields() {
    let request = sample_request();
    let (response, record) = checkpointed(&request, awaiting_response(&request));
    assert_eq!(Some(record.checkpoint_id.clone()), response.result.checkpoint_id);
    assert_eq!(record.run_id, request.run_id);
    assert_eq!(record.session_id, request.session_id);
    assert_eq!(record.trace_id, request.trace_id);
    assert_eq!(record.workspace_id, request.workspace_ref.workspace_id);
    assert_eq!(record.status, "awaiting_confirmation");
    assert_eq!(record.final_stage, "PausedForConfirmation");
    assert!(record.resumable);
    assert_eq!(record.resume_reason, "confirmation_required");
    assert_eq!(record.resume_stage, "PausedForConfirmation");
    assert_eq!(record.response.result.run_id, request.run_id);
}

#[test]
fn resumes_from_approved_confirmation_checkpoint() {
    let request = sample_request();
    let (response, record) = checkpointed(&request, awaiting_response(&request));
    let mut resumed = request.clone();
    resumed.resume_from_checkpoint_id = response.result.checkpoint_id.clone().unwrap_or_default();
    resumed.resume_strategy = "after_confirmation".to_string();
    resumed.confirmation_decision = Some(approve_decision(&request.run_id));
    let event = checkpoint_resume_event(&resumed, Ok(Some(record)), "2", "");
    let response = with_checkpoint_resume_event(sample_response(&resumed), event);
    assert_eq!(response.events[1].event_type, "checkpoint_resumed");
    assert_eq!(response.events.iter().map(|e| e.sequence).collect::<Vec<_>>(), vec![1, 2, 3]);
    let resumed_event = &response.events[1];
    assert_eq!(meta(resumed_event, "checkpoint_resume_reason").as_deref(), Some("confirmation_required"));
    assert_eq!(meta(resumed_event, "checkpoint_stage").as_deref(), Some("PausedForConfirmation"));
    assert_eq!(
        meta(resumed_event, "checkpoint_resume_boundary").as_deref(),
        Some("stage=PausedForConfirmation;event=confirmation_required;next_step=等待用户确认后再继续")
    );
    assert_eq!(meta(resumed_event, "confirmation_decision").as_deref(), Some("approve"));
    assert_eq!(meta(resumed_event, "confirmation_resume_strategy").as_deref(), Some("after_confirmation"));
    assert_eq!(meta(resumed_event, "confirmation_chain_step").as_deref(), Some("resumed"));
}

#[test]
fn retry_resume_reports_failure_boundary() {
    let request = sample_request();
    let (response, record) = checkpointed(&request, retryable_failure_response(&request));
    let mut resumed = request.clone();
    resumed.resume_from_checkpoint_id = response.result.checkpoint_id.clone().unwrap_or_default();
    resumed.resume_strategy = "retry_failure".to_string();
    let event = checkpoint_resume_event(&resumed, Ok(Some(record)), "2", "").expect("resume event");
    assert_eq!(event.event_type, "checkpoint_resumed");
    assert_eq!(meta(&event, "checkpoint_resume_reason").as_deref(), Some("retryable_failure"));
    assert_eq!(meta(&event, "checkpoint_stage").as_deref(), Some("Execute"));
    assert_eq!(meta(&event, "checkpoint_resume_boundary").as_deref(), Some("stage=Finish;event=run_failed"));
}

#[test]
fn skips_resume_for_other_run_or_missing_checkpoint() {
    let request = sample_request();
    let (response, record) = checkpointed(&request, retryable_failure_response(&request));
    let mut mismatched = request.clone();
    mismatched.resume_from_checkpoint_id = response.result.checkpoint_id.clone().unwrap_or_default();
    mismatched.resume_strategy = "retry_failure".to_string();
    mismatched.run_id = "run-2".to_string();
    let event = checkpoint_resume_event(&mismatched, Ok(Some(record)), "2", "").expect("resume event");
    assert_eq!(event.event_type, "checkpoint_resume_skipped");
    assert!(!event.metadata.contains_key("checkpoint_resume_boundary"));
    assert_eq!(event.detail, "checkpoint 与当前恢复请求不匹配，已按普通重试继续。");
    let missing = checkpoint_resume_event(&mismatched, Ok(None), "2", "").expect("resume event");
    assert_eq!(missing.detail, "未找到对应 checkpoint，已按普通重试继续。");
    assert!(checkpoint_resume_event(&request, Ok(None), "2", "").is_none());
}
