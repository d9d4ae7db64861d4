use runtime_core::agent_resolve::{
    after_tool_round, agent_loop_start, agent_loop_step, AgentEvent, AgentStep, can_finalize_from_traces, extract_source_path, extract_write_target, finalize_agent_response,
    recovered_write_response, render_round_results, render_tool_call_traces, requires_write,
    should_recover_required_write, skipped_call_label, tool_call_header,
};
use runtime_core::capabilities::{ToolCallResult, ToolDefinition, ToolExecutionTrace};
use runtime_core::contracts::{ModelRef, ProviderRef, RunRequest, WorkspaceRef};
use runtime_core::metadata::Metadata;

fn make_tool(name: &str) -> ToolDefinition {
    ToolDefinition {
        tool_name: name.to_string(),
        display_name: "读取文件".to_string(),
        category: "workspace_read".to_string(),
        risk_level: "low".to_string(),
        input_schema: "path".to_string(),
        output_kind: "text_preview".to_string(),
        requires_confirmation: false,
    }
}

fn make_trace_of(name: &str, success: bool, artifact: bool, error_code: Option<&str>) -> ToolExecutionTrace {
    ToolExecutionTrace {
        tool: make_tool(name),
        action_summary: "动作摘要".to_string(),
        result: ToolCallResult {
            summary: "结果摘要".to_string(),
            final_answer: "结果正文".to_string(),
            artifact_path: if artifact { Some("tmp/out.txt".to_string()) } else { None },
            detail_preview: "结果摘要".to_string(),
            raw_output_ref: None,
            result_chars: 4,
            single_result_budget_chars: 30_000,
            single_result_budget_hit: false,
            error_code: error_code.map(|v| v.to_string()),
            elapsed_ms: 0,
            retryable: !success,
            success,
            memory_write_summary: None,
            reasoning_summary: "reasoning".to_string(),
            cache_status: "bypass".to_string(),
            cache_reason: "test".to_string(),
        },
    }
}

fn make_trace(success: bool, artifact: bool, error_code: Option<&str>) -> ToolExecutionTrace {
    make_trace_of("workspace_read", success, artifact, error_code)
}

fn request_with(user_input: &str) -> RunRequest {
    RunRequest {
        request_id: "req-1".to_string(),
        run_id: "run-1".to_string(),
        session_id: "session-1".to_string(),
        trace_id: "trace-1".to_string(),
        user_input: user_input.to_string(),
        mode: "standard".to_string(),
        model_ref: ModelRef {
            provider_id: "p".to_string(),
            model_id: "m".to_string(),
            display_name: "M".to_string(),
        },
        provider_ref: ProviderRef {
            provider_id: "p".to_string(),
            display_name: "P".to_string(),
            base_url: "http://localhost".to_string(),
            chat_completions_path: "/chat".to_string(),
            models_path: "/models".to_string(),
            api_key: "k".to_string(),
        },
        workspace_ref: WorkspaceRef {
            workspace_id: "w".to_string(),
            name: "W".to_string(),
            root_path: "/tmp/w".to_string(),
            is_active: true,
        },
        context_hints: Metadata::new(),
        resume_from_checkpoint_id: String::new(),
        resume_strategy: String::new(),
        confirmation_decision: None,
    }
}

#[test]
fn renders_empty_tool_calls_as_failure() {
    let (header, final_answer, success) = render_tool_call_traces(&[], &[]);
    assert!(!success);
    assert_eq!(header, "模型未返回可执行的工具调用。");
    assert_eq!(final_answer, "模型未返回可执行的工具调用。");
}

#[test]
fn renders_success_trace_without_skipped() {
    let trace = make_trace(true, true, None);
    let (header, final_answer, success) = render_tool_call_traces(&[trace], &[]);
    assert!(success);
    assert!(header.contains("工具调用执行完成：1 个"));
    assert!(final_answer.contains("1. [成功] 读取文件 (workspace_read)"));
    assert!(final_answer.contains("产物：tmp/out.txt"));
}

#[test]
fn renders_failure_and_skipped_as_not_success() {
    let traces = vec![make_trace(true, false, None), make_trace(false, false, Some("failed"))];
    let skipped = vec!["unknown_tool (id=call_1)".to_string()];
    let (header, final_answer, success) = render_tool_call_traces(&traces, &skipped);
    assert!(!success);
    assert!(header.contains("总失败 1 个"));
    assert!(final_answer.contains("未识别的工具调用（已跳过）："));
    assert!(final_answer.contains("- unknown_tool (id=call_1)"));
    assert!(final_answer.contains("错误码：failed"));
}

#[test]
fn header_counts_exactly() {
    assert_eq!(tool_call_header(3, 1, 2), "工具调用执行完成：3 个，总失败 1 个，未识别 2 个。");
}

#[test]
fn single_success_round_is_rendered_exactly() {
    let trace = make_trace(true, false, None);
    let (header, final_answer, success) = render_tool_call_traces(&[trace], &[]);
    assert!(success);
    assert_eq!(header, "工具调用执行完成：1 个，总失败 0 个，未识别 0 个。");
    assert_eq!(
        final_answer,
        "工具调用执行完成：1 个，总失败 0 个，未识别 0 个。\n\n1. [成功] 读取文件 (workspace_read)\n动作：动作摘要\n摘要：结果摘要"
    );
}

#[test]
fn only_skipped_calls_render_without_detail() {
    let skipped = vec![skipped_call_label("bad", "c1")];
    let (header, final_answer, success) = render_tool_call_traces(&[], &skipped);
    assert!(!success);
    assert_eq!(header, "工具调用执行完成：0 个，总失败 0 个，未识别 1 个。");
    assert_eq!(final_answer, format!("{}\n\n未识别的工具调用（已跳过）：\n- bad (id=c1)", header));
}

#[test]
fn skipped_list_shows_at_most_twenty() {
    let skipped: Vec<String> = (0..25).map(|i| format!("t{}", i)).collect();
    let (_, final_answer, _) = render_tool_call_traces(&[], &skipped);
    assert!(final_answer.contains("- t19"));
    assert!(!final_answer.contains("- t20"));
}

#[test]
fn write_target_and_source_path_are_extracted() {
    let input = "请读取学习资料：docs/a.md\n然后把摘要写到 notes/out.md。";
    assert_eq!(extract_write_target(input), Some("notes/out.md".to_string()));
    assert_eq!(extract_source_path(input), Some("docs/a.md".to_string()));
    assert_eq!(extract_write_target("只是聊天"), None);
    assert!(requires_write(input));
    assert!(!requires_write("只是聊天"));
}

#[test]
fn finalize_needs_a_successful_write() {
    let input = "把摘要写入 out.md";
    let read = make_trace_of("workspace_read", true, false, None);
    let write = make_trace_of("workspace_write", true, false, None);
    assert!(!can_finalize_from_traces(input, &[read.clone()]));
    assert!(can_finalize_from_traces(input, &[read.clone(), write.clone()]));
    assert!(should_recover_required_write(input, &[read.clone()]));
    assert!(!should_recover_required_write(input, &[read, write]));
}

#[test]
fn recovered_write_reports_success_with_target() {
    let read = make_trace_of("workspace_read", true, false, None);
    let write = make_trace_of("workspace_write", true, false, None);
    let e = recovered_write_response(&[read], &[], &write, "out.md");
    assert!(e.success);
    assert_eq!(e.result_summary, "工具调用执行完成：2 个，总失败 0 个，未识别 0 个。 已补完成摘要写回。");
    assert_eq!(e.final_answer, "已根据学习资料生成摘要，并写入 out.md。");
}

#[test]
fn recovered_write_failure_lists_all_traces() {
    let read = make_trace_of("workspace_read", true, false, None);
    let write = make_trace_of("workspace_write", false, false, Some("denied"));
    let e = recovered_write_response(&[read], &[], &write, "out.md");
    assert!(!e.success);
    assert!(e.final_answer.contains("1. [成功]"));
    assert!(e.final_answer.contains("2. [失败]"));
    assert!(e.final_answer.contains("错误码：denied"));
}

#[test]
fn last_round_without_write_is_incomplete() {
    let request = request_with("把摘要写入 out.md");
    let read = make_trace_of("workspace_read", true, false, None);
    assert!(after_tool_round(&request, 0, &[read.clone()], &[]).is_none());
    let e = after_tool_round(&request, 2, &[read], &[]).unwrap();
    assert!(!e.success);
    assert_eq!(e.result_summary, "达到最大执行轮次，任务仍未明确完成。");
}

#[test]
fn plain_answer_without_tools_is_returned() {
    let request = request_with("你好");
    let e = finalize_agent_response(&request, &[], &[], "你好！".to_string());
    assert!(e.success);
    assert_eq!(e.final_answer, "你好！");
}

#[test]
fn round_results_append_skipped_block() {
    let trace = make_trace(true, false, None);
    let skipped = vec!["x (id=1)".to_string()];
    let r = render_round_results(&[trace], &skipped);
    assert!(r.starts_with("1. [成功]"));
    assert!(r.ends_with("未识别的工具调用（已跳过）：\n- x (id=1)"));
}

#[test]
fn agent_loop_starts_with_base_prompt() {
    let (state, step) = agent_loop_start("基础提示");
    assert_eq!(state.turn, 0);
    assert!(state.traces.is_empty());
    assert!(matches!(step, AgentStep::AskModel { prompt } if prompt == "基础提示"));
}

#[test]
fn agent_loop_model_failure_finishes() {
    let request = request_with("你好");
    let (mut state, _) = agent_loop_start("p");
    let step = agent_loop_step(&request, "p", &mut state, AgentEvent::ModelFailed { error: "timeout".to_string() });
    match step {
        AgentStep::Finish { execution } => {
            assert!(!execution.success);
            assert_eq!(execution.result_summary, "模型调用失败：timeout");
        }
        _ => panic!("expected finish"),
    }
}

#[test]
fn agent_loop_tool_round_asks_again_then_stops_at_limit() {
    let request = request_with("列出文件");
    let (mut state, _) = agent_loop_start("p");
    for round in 0..2 {
        let event = AgentEvent::ToolsRan { traces: vec![make_trace(true, false, None)], skipped: vec![] };
        let step = agent_loop_step(&request, "p", &mut state, event);
        assert_eq!(state.turn, round + 1);
        match step {
            AgentStep::AskModel { prompt } => assert!(prompt.starts_with("p\n\n上一轮工具结果：\n")),
            _ => panic!("expected another round"),
        }
    }
    let event = AgentEvent::ToolsRan { traces: vec![make_trace(true, false, None)], skipped: vec!["x (id=1)".to_string()] };
    let step = agent_loop_step(&request, "p", &mut state, event);
    assert_eq!(state.turn, 2);
    assert_eq!(state.traces.len(), 3);
    assert_eq!(state.skipped.len(), 1);
    match step {
        AgentStep::Finish { execution } => {
            assert!(!execution.success);
            assert_eq!(execution.result_summary, "达到最大执行轮次，任务仍未明确完成。");
        }
        _ => panic!("expected finish at the round limit"),
    }
}

#[test]
fn agent_loop_asks_host_to_write_after_read_only() {
    let request = request_with("请读取学习资料：docs/a.md\n然后把摘要写到 notes/out.md。");
    let (mut state, _) = agent_loop_start("p");
    let read = make_trace_of("workspace_read", true, false, None);
    let step = agent_loop_step(&request, "p", &mut state, AgentEvent::ToolsRan { traces: vec![read], skipped: vec![] });
    assert_eq!(state.turn, 0);
    assert!(matches!(step, AgentStep::RecoverWrite { ref target } if target == "notes/out.md"));
    let write = make_trace_of("workspace_write", true, false, None);
    let step = agent_loop_step(
        &request,
        "p",
        &mut state,
        AgentEvent::RequiredWriteDone { target: "notes/out.md".to_string(), trace: write },
    );
    match step {
        AgentStep::Finish { execution } => {
            assert!(execution.success);
            assert_eq!(execution.final_answer, "已根据学习资料生成摘要，并写入 notes/out.md。");
        }
        _ => panic!("expected finish"),
    }
}

#[test]
fn agent_loop_continues_when_write_cannot_be_recovered() {
    let request = request_with("请读取学习资料：docs/a.md\n然后把摘要写到 notes/out.md。");
    let (mut state, _) = agent_loop_start("p");
    let read = make_trace_of("workspace_read", true, false, None);
    let _ = agent_loop_step(&request, "p", &mut state, AgentEvent::ToolsRan { traces: vec![read], skipped: vec![] });
    let step = agent_loop_step(&request, "p", &mut state, AgentEvent::RequiredWriteUnavailable);
    assert_eq!(state.turn, 1);
    assert!(matches!(step, AgentStep::AskModel { .. }));
}
