use runtime_core::capabilities::{capability_catalog, capability_catalog_for_request, connector_catalog, resolve_tool};
use runtime_core::contracts::{ModelRef, ProviderRef, RunRequest, RuntimeSnapshot, WorkspaceRef};
use runtime_core::execution::{decide_completion, VerificationOutcome, VerificationReport};
use runtime_core::mcp_bridge::MCPToolSpec;
use runtime_core::metadata::Metadata;
use runtime_core::planner::{action_tag, default_error_code, PlannedAction};

fn request(mode: &str) -> RunRequest {
    RunRequest {
        request_id: "req-1".to_string(),
        run_id: "run-1".to_string(),
        session_id: "session-1".to_string(),
        trace_id: "trace-1".to_string(),
        user_input: "你好".to_string(),
        mode: mode.to_string(),
        model_ref: ModelRef { provider_id: "p".to_string(), model_id: "m".to_string(), display_name: "M".to_string() },
        provider_ref: ProviderRef {
            provider_id: "p".to_string(),
            display_name: "P".to_string(),
            base_url: "http://localhost".to_string(),
            chat_completions_path: "/chat".to_string(),
            models_path: "/models".to_string(),
            api_key: "k".to_string(),
        },
        workspace_ref: WorkspaceRef {
            workspace_id: "w".to_string(),
            name: "W".to_string(),
            root_path: "/tmp/w".to_string(),
            is_active: true,
        },
        context_hints: Metadata::new(),
        resume_from_checkpoint_id: String::new(),
        resume_strategy: String::new(),
        confirmation_decision: None,
    }
}

fn report(passed: bool, code: &str) -> VerificationReport {
    VerificationReport {
        outcome: VerificationOutcome {
            passed,
            code: code.to_string(),
            browser_failure_type: String::new(),
            browser_page_id: String::new(),
            browser_selector: String::new(),
            browser_recovery_attempted: false,
            browser_recovery_exhausted: false,
            policy: "check_result_summary".to_string(),
            task_type: String::new(),
            evidence: vec![],
            evidence_count: 0,
            has_citation: false,
            fact_inference_split: false,
            capability_risk_checked: false,
            permission_boundary_respected: false,
            skill_hit_effective: false,
            skill_hit_reason: String::new(),
            guard_downgraded: false,
            guard_decision_ref: String::new(),
            summary: "验证".to_string(),
            next_step: "继续".to_string(),
        },
        tool_elapsed_ms: 0,
        result_chars: 0,
        single_result_budget_chars: 0,
        single_result_budget_hit: false,
    }
}

fn ids(mode: &str) -> Vec<String> {
    capability_catalog(mode).items.into_iter().map(|c| c.capability_id).collect()
}

#[test]
fn observe_catalog_hides_mutating_tools() {
    assert_eq!(
        ids("observe"),
        vec![
            "workspace_read",
            "workspace_list",
            "memory_recall",
            "knowledge_search",
            "search_siyuan_notes",
            "read_siyuan_note",
            "write_siyuan_knowledge",
            "project_answer",
            "session_context",
            "explain",
        ]
    );
}

#[test]
fn standard_catalog_hides_full_access_writes() {
    let standard = ids("standard");
    assert_eq!(standard.len(), 12);
    assert!(!standard.contains(&"memory_write".to_string()));
    assert!(!standard.contains(&"write_siyuan_knowledge".to_string()));
    assert_eq!(ids("full_access").len(), 14);
}

#[test]
fn capability_reports_tool_policy_fields() {
    let items = capability_catalog("standard").items;
    let command = &items[0];
    assert_eq!(command.capability_id, "run_command");
    assert_eq!(command.display_name, "执行命令");
    assert_eq!(command.domain, "system_command");
    assert_eq!(command.side_effect_level, "system_side_effect");
    assert_eq!(command.supports_modes, vec!["standard", "full_access"]);
    assert_eq!(command.verification_policy, "inspect_command_result");
    assert_eq!(command.connector_slot, "local_files_project");
    assert_eq!(command.source_kind, "connector_backed");
    assert!(command.requires_confirmation);
    let explain = items.iter().find(|c| c.capability_id == "explain").unwrap();
    assert_eq!(explain.source_kind, "runtime_native");
    assert_eq!(explain.connector_slot, "");
    assert_eq!(explain.supports_modes, vec!["observe", "standard", "full_access"]);
}

#[test]
fn request_catalog_appends_executable_mcp_tools() {
    let spec = MCPToolSpec {
        server_id: "docs".to_string(),
        name: "search".to_string(),
        function_name: "mcp__docs__search".to_string(),
        description: "搜索文档".to_string(),
        risk_level: "low".to_string(),
        requires_confirmation: false,
        audit_enabled: true,
        input_schema: None,
    };
    let plain = capability_catalog_for_request(&request("standard"), vec![]);
    assert_eq!(plain.items.len(), 12);
    let with_mcp = capability_catalog_for_request(&request("observe"), vec![spec]);
    assert!(with_mcp.items.len() >= 10);
    assert_eq!(with_mcp.items[..10].iter().map(|c| c.capability_id.clone()).collect::<Vec<_>>(), ids("observe"));
}

#[test]
fn connector_catalog_lists_four_slots() {
    let slots = connector_catalog().items;
    assert_eq!(slots.len(), 4);
    assert_eq!(slots[0].slot_id, "local_files_project");
    assert_eq!(slots[0].priority, 1);
    assert_eq!(slots[1].slot_id, "local_notes_knowledge");
    assert_eq!(slots[0].scope, "external_connection");
}

#[test]
fn idle_snapshot_has_no_run() {
    let s = RuntimeSnapshot::idle();
    assert_eq!(s.state, "Analyze");
    assert!(s.current_run_id.is_none());
}

#[test]
fn actions_resolve_to_their_tools() {
    let read = PlannedAction::ReadFile { path: "a.txt".to_string() };
    assert_eq!(resolve_tool(&read).tool_name, "workspace_read");
    assert_eq!(default_error_code(&read), "file_read_failed");
    assert_eq!(action_tag(&read), "read");
    let explain = PlannedAction::Explain;
    assert_eq!(resolve_tool(&explain).tool_name, "explain");
    assert_eq!(default_error_code(&explain), "runtime_output_failed");
    assert_eq!(resolve_tool(&PlannedAction::AgentResolve).tool_name, "agent_resolve");
}

#[test]
fn completion_follows_verification() {
    let passed = decide_completion(&report(true, "verified"));
    assert_eq!(passed.status, "completed");
    assert_eq!(passed.reason, "当前任务满足收口条件。");
    let recovered = decide_completion(&report(false, "verified_with_recovery"));
    assert_eq!(recovered.status, "completed");
    assert_eq!(recovered.reason, "当前任务经单次受控恢复后通过验证。");
    let failed = decide_completion(&report(false, "failed"));
    assert_eq!(failed.status, "failed");
}
