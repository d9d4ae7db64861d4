use runtime_core::capabilities::{ToolCallResult, ToolDefinition, ToolExecutionTrace};
use runtime_core::execution::{VerificationOutcome, VerificationReport};
use runtime_core::handoff::handoff_artifact;
use runtime_core::planner::PlannedAction;

fn browser_action() -> PlannedAction {
    PlannedAction::MCPCall {
        server_id: "browser".to_string(),
        tool_name: "submit".to_string(),
        arguments_json: r##"{"page_id":"page_01","selector":"#submit"}"##.to_string(),
    }
}

fn browser_trace() -> ToolExecutionTrace {
    ToolExecutionTrace {
        tool: ToolDefinition {
            tool_name: "mcp__browser__submit".to_string(),
            display_name: "MCP: browser/submit".to_string(),
            category: "mcp".to_string(),
            risk_level: "high".to_string(),
            input_schema: "json".to_string(),
            output_kind: "json_preview".to_string(),
            requires_confirmation: true,
        },
        action_summary: "调用 MCP 工具：browser/submit".to_string(),
        result: ToolCallResult {
            summary: "已执行单次恢复 read_page，但当前浏览器交互仍未验证通过。".to_string(),
            final_answer: r##"{"ok":true,"page_id":"page_01","selector":"#submit"}"##.to_string(),
            artifact_path: Some("D:/repo/tmp/browser-submit.json".to_string()),
            detail_preview: r##"{"ok":true,"page_id":"page_01","selector":"#submit"}"##.to_string(),
            raw_output_ref: None,
            result_chars: 64,
            single_result_budget_chars: 1200,
            single_result_budget_hit: false,
            error_code: None,
            elapsed_ms: 35,
            retryable: false,
            success: true,
            memory_write_summary: None,
            reasoning_summary: "Runtime 通过 Gateway MCP endpoint 执行工具，复用 allowlist 与审计。".to_string(),
            cache_status: "bypass".to_string(),
            cache_reason: String::new(),
        },
    }
}

fn browser_report(passed: bool) -> VerificationReport {
    VerificationReport {
        outcome: VerificationOutcome {
            passed,
            code: "browser_interaction_insufficient".to_string(),
            browser_failure_type: "recovery_exhausted".to_string(),
            browser_page_id: "page_01".to_string(),
            browser_selector: "#submit".to_string(),
            browser_recovery_attempted: true,
            browser_recovery_exhausted: true,
            policy: "confirm_browser_state_change".to_string(),
            task_type: "browser_interaction".to_string(),
            evidence: vec!["summary=browser".to_string()],
            evidence_count: 1,
            has_citation: false,
            fact_inference_split: false,
            capability_risk_checked: true,
            permission_boundary_respected: true,
            skill_hit_effective: true,
            skill_hit_reason: "insufficient".to_string(),
            guard_downgraded: false,
            guard_decision_ref: "tool=mcp__browser__submit;decision=allow".to_string(),
            summary: "浏览器交互验证未通过".to_string(),
            next_step: "已完成单次 read_page 回读仍未通过验证，建议交给人工继续检查页面状态或调整目标元素。".to_string(),
        },
        tool_elapsed_ms: 35,
        result_chars: 64,
        single_result_budget_chars: 1200,
        single_result_budget_hit: false,
    }
}

#[test]
fn handoff_artifact_keeps_browser_failure_fields() {
    let artifact = handoff_artifact("浏览器提交", &browser_action(), &browser_trace(), &browser_report(false));
    assert_eq!(artifact.browser_failure_type, "recovery_exhausted");
    assert_eq!(artifact.browser_page_id, "page_01");
    assert_eq!(artifact.browser_selector, "#submit");
    assert!(artifact.browser_recovery_exhausted);
    assert!(artifact.last_readback_summary.contains("已执行单次恢复"));
}

#[test]
fn handoff_lists_steps_risks_and_artifacts() {
    let artifact = handoff_artifact("浏览器提交", &browser_action(), &browser_trace(), &browser_report(false));
    assert_eq!(artifact.completed_steps, vec!["Analyze", "Plan", "Execute: MCP: browser/submit", "Observe"]);
    assert_eq!(artifact.open_risks.len(), 1);
    assert!(artifact.open_risks[0].starts_with("验证未通过: 浏览器交互验证未通过; 工具摘要: "));
    assert_eq!(artifact.key_artifacts, vec!["D:/repo/tmp/browser-submit.json"]);
    assert!(artifact.current_plan.ends_with("; 摘要=调用 MCP 工具：browser/submit"));
}

#[test]
fn passed_handoff_has_no_open_risk() {
    let artifact = handoff_artifact("t", &browser_action(), &browser_trace(), &browser_report(true));
    assert!(artifact.open_risks.is_empty());
}
