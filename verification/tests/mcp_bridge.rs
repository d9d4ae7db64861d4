use runtime_core::mcp_bridge::{
    executable_specs, mcp_action_parts, mcp_description, mcp_function_name, mcp_tool_definition, mcp_tool_schemas,
    MCPToolSpec,
};

fn spec(name: &str, function_name: &str, requires_confirmation: bool) -> MCPToolSpec {
    MCPToolSpec {
        server_id: "docs".to_string(),
        name: name.to_string(),
        function_name: function_name.to_string(),
        description: "Search docs".to_string(),
        risk_level: "low".to_string(),
        requires_confirmation,
        audit_enabled: true,
        input_schema: None,
    }
}

#[test]
fn mcp_action_parts_rejects_ambiguous_names() {
    assert!(mcp_action_parts("mcp__docs__search").is_some());
    assert!(mcp_action_parts("mcp__bad__id__search").is_none());
}

#[test]
fn mcp_action_parts_splits_server_and_name() {
    assert_eq!(
        mcp_action_parts("mcp__docs__search"),
        Some(("docs".to_string(), "search".to_string()))
    );
    assert!(mcp_action_parts("docs__search").is_none());
    assert!(mcp_action_parts("mcp__docs__se arch").is_none());
    assert_eq!(mcp_function_name("docs", "search"), "mcp__docs__search");
}

#[test]
fn executable_specs_drop_confirmation_and_mismatched_names() {
    let specs = vec![
        spec("search", "mcp__docs__search", false),
        spec("write", "mcp__docs__write", true),
        spec("read", "mcp__docs__other", false),
    ];
    let kept = executable_specs(specs);
    assert_eq!(kept.len(), 1);
    assert_eq!(kept[0].function_name, "mcp__docs__search");
}

#[test]
fn mcp_definition_uses_default_schema_and_description() {
    let s = spec("search", "mcp__docs__search", false);
    let tool = mcp_tool_definition(&s);
    assert_eq!(tool.display_name, "MCP: docs/search");
    assert_eq!(tool.category, "mcp");
    assert_eq!(tool.input_schema, "{\"description\":\"JSON arguments passed to the MCP tool\",\"type\":\"object\"}");
    assert_eq!(mcp_description(&s), "MCP docs/search [risk=low, audit=on] Search docs");
}

#[test]
fn mcp_schemas_use_executable_specs_only() {
    let mut search = spec("search", "mcp__docs__search", false);
    search.input_schema = Some("{\"type\":\"object\"}".to_string());
    let mut write = spec("write", "mcp__docs__write", true);
    write.description = "Write docs".to_string();
    write.risk_level = "high".to_string();
    let schemas = mcp_tool_schemas(vec![search, write]);
    assert_eq!(schemas.len(), 1);
    let value: serde_json::Value = serde_json::from_str(&schemas[0]).unwrap();
    assert_eq!(value["function"]["name"], "mcp__docs__search");
    assert_eq!(value["function"]["description"], "MCP: docs/search");
}
