use runtime_core::command::{
    budget_preview, check_dangerous_command, command_budget, command_execution, command_outcome, command_precheck,
    command_timeout_secs, merge_error_output, ps_single_quote, timeout_error, CommandBudget, CommandOutput,
    COMMAND_SINGLE_RESULT_BUDGET_CHARS,
};
use runtime_core::contracts::{ModelRef, ProviderRef, RunRequest, WorkspaceRef};
use runtime_core::metadata::Metadata;

fn request() -> RunRequest {
    RunRequest {
        request_id: "req-1".to_string(),
        run_id: "run-1".to_string(),
        session_id: "s".to_string(),
        trace_id: "t".to_string(),
        user_input: "运行命令".to_string(),
        mode: "standard".to_string(),
        model_ref: ModelRef { provider_id: "p".to_string(), model_id: "m".to_string(), display_name: "M".to_string() },
        provider_ref: ProviderRef {
            provider_id: "p".to_string(),
            display_name: "P".to_string(),
            base_url: "http://localhost".to_string(),
            chat_completions_path: "/chat".to_string(),
            models_path: "/models".to_string(),
            api_key: "k".to_string(),
        },
        workspace_ref: WorkspaceRef {
            workspace_id: "w".to_string(),
            name: "demo".to_string(),
            root_path: "/tmp/demo".to_string(),
            is_active: true,
        },
        context_hints: Metadata::new(),
        resume_from_checkpoint_id: String::new(),
        resume_strategy: String::new(),
        confirmation_decision: None,
    }
}

#[test]
fn marks_budget_hit_when_output_exceeds_single_result_budget() {
    let text = "a".repeat(COMMAND_SINGLE_RESULT_BUDGET_CHARS + 1);
    let budget = command_budget(&text);
    assert!(budget.hit);
    assert_eq!(budget.result_chars, COMMAND_SINGLE_RESULT_BUDGET_CHARS + 1);
}

#[test]
fn appends_budget_hint_into_preview_when_budget_hit() {
    let text = "a".repeat(COMMAND_SINGLE_RESULT_BUDGET_CHARS + 20);
    let budget = command_budget(&text);
    let preview = budget_preview("摘要".to_string(), &budget);
    assert!(preview.contains("输出较长"));
    assert!(preview.contains("完整原文已外置"));
}

#[test]
fn budget_preview_is_exact() {
    let budget = CommandBudget { result_chars: 30020, budget_chars: 30000, hit: true };
    assert_eq!(
        budget_preview(String::new(), &budget),
        "输出较长（30020 字符，超出单结果预算 30000），完整原文已外置。摘要：无可显示内容。"
    );
    let within = CommandBudget { result_chars: 3, budget_chars: 30000, hit: false };
    assert_eq!(budget_preview("abc".to_string(), &within), "abc");
}

#[test]
fn exactly_at_budget_is_not_a_hit() {
    let text = "a".repeat(COMMAND_SINGLE_RESULT_BUDGET_CHARS);
    assert!(!command_budget(&text).hit);
}

#[test]
fn dangerous_commands_are_refused() {
    assert_eq!(check_dangerous_command("sudo rm -rf / now"), Some("命令匹配危险模式，已拒绝执行。"));
    assert!(check_dangerous_command("invoke-expression 'x'").is_some());
    assert!(check_dangerous_command("CURL http://x").is_some());
    assert!(check_dangerous_command("ls -la").is_none());
    let rejected = command_precheck("shutdown now", None).unwrap_err();
    assert!(!rejected.success);
    assert_eq!(rejected.result_summary, "命令被拒绝：命令匹配危险模式，已拒绝执行。");
}

#[test]
fn timeout_is_clamped() {
    assert_eq!(command_timeout_secs(None), 30);
    assert_eq!(command_timeout_secs(Some(10)), 10);
    assert_eq!(command_timeout_secs(Some(1000)), 300);
    assert_eq!(command_precheck("ls", Some(5)).unwrap(), 5);
    assert_eq!(timeout_error(30), "命令执行超时（30 秒），已终止。");
}

#[test]
fn error_output_merges_streams() {
    assert_eq!(merge_error_output("  ", "err"), "err");
    assert_eq!(merge_error_output("out", "\n"), "out");
    assert_eq!(merge_error_output("out", "err"), "[stdout]\nout\n\n[stderr]\nerr");
}

#[test]
fn single_quotes_are_doubled() {
    assert_eq!(ps_single_quote("C:\\a'b"), "'C:\\a''b'");
}

#[test]
fn successful_command_reports_its_output() {
    let e = command_execution(
        &request(),
        "echo hi",
        CommandOutput { success: true, stdout: "hi\n".to_string(), stderr: String::new() },
    );
    assert!(e.success);
    assert_eq!(e.action_summary, "在工作区 `demo` 中执行命令：echo hi");
    assert_eq!(e.result_summary, "hi");
    assert_eq!(e.final_answer, "命令已执行完成。\n工作区：/tmp/demo\n命令：echo hi\n输出摘要：hi");
    assert_eq!(e.raw_output, "hi\n");
    assert_eq!(e.result_chars, 3);
    assert!(!e.single_result_budget_hit);
}

#[test]
fn failed_command_without_output_says_so() {
    let e = command_execution(
        &request(),
        "false",
        CommandOutput { success: false, stdout: String::new(), stderr: String::new() },
    );
    assert!(!e.success);
    assert_eq!(e.result_summary, "命令执行失败，未返回可见错误输出。");
}

#[test]
fn process_error_is_reported() {
    let e = command_outcome(&request(), "ls", Err("boom".to_string()));
    assert!(!e.success);
    assert_eq!(e.final_answer, "命令执行失败：boom");
    assert_eq!(e.action_summary, "尝试执行命令：ls");
}
