use runtime_core::contracts::{ModelRef, ProviderRef, RunRequest, WorkspaceRef};
use runtime_core::mcp_call::{
    curl_args, execute_mcp_call, mcp_arguments, mcp_bridge_config, mcp_call_outcome, mcp_error_code, mcp_payload,
    parse_curl_output, truncate, MCPBridgeConfig,
};
use runtime_core::metadata::Metadata;

fn sample_request(run_id: &str) -> RunRequest {
    RunRequest {
        request_id: format!("req-{}", run_id),
        run_id: run_id.to_string(),
        session_id: "session-1".to_string(),
        trace_id: "trace-1".to_string(),
        user_input: "调用工具".to_string(),
        mode: "standard".to_string(),
        model_ref: ModelRef { provider_id: "p".to_string(), model_id: "m".to_string(), display_name: "M".to_string() },
        provider_ref: ProviderRef {
            provider_id: "p".to_string(),
            display_name: "P".to_string(),
            base_url: "http://localhost".to_string(),
            chat_completions_path: "/chat".to_string(),
            models_path: "/models".to_string(),
            api_key: "k".to_string(),
        },
        workspace_ref: WorkspaceRef {
            workspace_id: "w".to_string(),
            name: "W".to_string(),
            root_path: "/tmp/w".to_string(),
            is_active: true,
        },
        context_hints: Metadata::new(),
        resume_from_checkpoint_id: String::new(),
        resume_strategy: String::new(),
        confirmation_decision: None,
    }
}

#[test]
fn missing_bridge_config_fails_without_calling_curl() {
    let request = sample_request("mcp_missing_bridge");
    let result = execute_mcp_call(&request, "docs", "search", r#"{"q":"rust"}"#, |_c: MCPBridgeConfig, _p: String| -> Result<String, String> {
        panic!("curl must not be called")
    });
    assert!(!result.success);
    assert!(result.final_answer.contains("mcp_bridge_not_configured"));
}

#[test]
fn mcp_payload_preserves_run_identity() {
    let request = sample_request("mcp_payload");
    let payload = mcp_payload(&request, "docs", "search", r#"{"q":"rust"}"#);
    let value: serde_json::Value = serde_json::from_str(&payload).unwrap();
    assert_eq!(value["server_id"], "docs");
    assert_eq!(value["name"], "search");
    assert_eq!(value["arguments"]["q"], "rust");
    assert_eq!(value["run_id"], request.run_id);
    assert_eq!(value["session_id"], "session-1");
    assert_eq!(value["trace_id"], "trace-1");
}

#[test]
fn non_object_arguments_become_empty_object() {
    assert_eq!(mcp_arguments("[1,2]"), "{}");
    assert_eq!(mcp_arguments("not json"), "{}");
    assert_eq!(mcp_arguments(" {\"a\":1} "), "{\"a\":1}");
}

#[test]
fn configured_call_goes_through_transport() {
    let mut request = sample_request("mcp_ok");
    request.context_hints.insert("mcp_gateway_url".to_string(), "http://gw/mcp".to_string());
    request.context_hints.insert("mcp_gateway_token".to_string(), "tok".to_string());
    let config = mcp_bridge_config(&request).unwrap();
    assert_eq!(config.url, "http://gw/mcp");
    let result = execute_mcp_call(&request, "docs", "search", "{}", |c: MCPBridgeConfig, p: String| {
        assert_eq!(c.token, "tok");
        assert!(p.contains("\"server_id\":\"docs\""));
        Ok("{\"ok\":true}\n200\n".to_string())
    });
    assert!(result.success);
    assert_eq!(result.final_answer, "{\"ok\":true}");
    assert_eq!(result.result_summary, "MCP 工具 `docs/search` 已返回结果。");
}

#[test]
fn empty_token_counts_as_missing() {
    let mut request = sample_request("mcp_empty");
    request.context_hints.insert("mcp_gateway_url".to_string(), "http://gw/mcp".to_string());
    request.context_hints.insert("mcp_gateway_token".to_string(), "".to_string());
    assert!(mcp_bridge_config(&request).is_err());
}

#[test]
fn curl_output_is_read_by_status() {
    assert_eq!(parse_curl_output("  body \n204".to_string()), Ok("body".to_string()));
    assert_eq!(parse_curl_output("no status".to_string()), Err("mcp_call_failed: Gateway 响应缺少 HTTP 状态码".to_string()));
    assert_eq!(
        parse_curl_output("tool not allowlisted\n403\n".to_string()),
        Err("mcp_tool_not_allowlisted: Gateway HTTP 403: tool not allowlisted".to_string())
    );
    assert_eq!(parse_curl_output("x\nabc".to_string()), Err("mcp_call_failed: Gateway HTTP 0: x".to_string()));
    assert_eq!(mcp_error_code("requires confirmation"), "mcp_confirmation_required");
}

#[test]
fn failure_record_names_the_tool() {
    let e = mcp_call_outcome("docs", "search", Err("boom".to_string()));
    assert!(!e.success);
    assert_eq!(e.final_answer, "MCP 工具 `docs/search` 调用失败：boom");
    assert_eq!(e.raw_output, "boom");
}

#[test]
fn truncate_adds_ellipsis() {
    assert_eq!(truncate("abcdef", 3), "abc...");
    assert_eq!(truncate("abc", 3), "abc");
}

#[test]
fn curl_args_carry_token_and_body() {
    let config = MCPBridgeConfig { url: "http://gw".to_string(), token: "t".to_string() };
    let args = curl_args(&config, "/tmp/b.json");
    assert_eq!(args[8], "X-Local-Agent-Token: t");
    assert_eq!(args[10], "@/tmp/b.json");
    assert_eq!(args[11], "http://gw");
}
