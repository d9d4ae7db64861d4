use runtime_core::action_decode::{mcp_arguments_json, tool_call_to_action};
use runtime_core::planner::PlannedAction;

#[test]
fn decodes_mcp_tool_call_arguments_wrapper() {
    let action = tool_call_to_action("mcp__docs__search", r#"{"arguments":{"q":"rust"}}"#);
    assert!(matches!(
        action,
        Some(PlannedAction::MCPCall { server_id, tool_name, arguments_json })
        if server_id == "docs" && tool_name == "search" && arguments_json == r#"{"q":"rust"}"#
    ));
}

#[test]
fn decodes_apply_patch_tool_call() {
    let action = tool_call_to_action("workspace_apply_patch", r#"{"diff":"--- a/a\n+++ b/a","dry_run":true}"#);
    assert!(matches!(
        action,
        Some(PlannedAction::ApplyPatch { diff, dry_run }) if dry_run && diff.contains("+++ b/a")
    ));
}

#[test]
fn decodes_native_tools_and_defaults() {
    assert!(matches!(tool_call_to_action("run_command", r#"{"command":"ls"}"#), Some(PlannedAction::RunCommand { command }) if command == "ls"));
    assert!(tool_call_to_action("run_command", r#"{"cmd":"ls"}"#).is_none());
    assert!(tool_call_to_action("workspace_read", "not json").is_none());
    assert!(matches!(tool_call_to_action("workspace_write", r#"{"path":"a.txt"}"#), Some(PlannedAction::WriteFile { path, content }) if path == "a.txt" && content.is_empty()));
    assert!(matches!(tool_call_to_action("workspace_list", "{}"), Some(PlannedAction::ListFiles { path: None })));
    assert!(matches!(tool_call_to_action("memory_write", "{}"), Some(PlannedAction::WriteMemory { kind, .. }) if kind == "project_knowledge"));
    assert!(matches!(tool_call_to_action("write_siyuan_knowledge", ""), Some(PlannedAction::WriteSiyuanKnowledge)));
    assert!(matches!(tool_call_to_action("workspace_apply_patch", r#"{"diff":"d"}"#), Some(PlannedAction::ApplyPatch { dry_run: false, .. })));
    assert!(tool_call_to_action("unknown_tool", "{}").is_none());
    assert!(matches!(tool_call_to_action("mcp__web__fetch", r#"{"url":"x"}"#), Some(PlannedAction::MCPCall { arguments_json, .. }) if arguments_json == r#"{"url":"x"}"#));
}

#[test]
fn mcp_arguments_take_member_or_whole_value() {
    assert_eq!(mcp_arguments_json(r#"{"arguments":{"q":"rust"}}"#), r#"{"q":"rust"}"#);
    assert_eq!(mcp_arguments_json(r#"{"q":"rust"}"#), r#"{"q":"rust"}"#);
    assert_eq!(mcp_arguments_json("not json"), "null");
}
