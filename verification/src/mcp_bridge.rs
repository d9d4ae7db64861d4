//! Tools offered by MCP servers: their function names, which of them may be
//! called directly, and the tool definitions they become.
use vstd::prelude::*;
use crate::capabilities::{ToolDefinition, ToolModel, tool_definition_to_json_schema, tool_json_schema_spec, tool_model};
use crate::text::{has_sub, push_str, split_once, first_at, str_eq, strip_prefix, has_prefix, contains, chars_of};

verus! {

/// The prefix of every MCP function name.
pub const MCP_PREFIX: &'static str = "mcp__";

/// A tool that an MCP server offers, with its input schema as JSON text.
#[derive(Clone, Debug)]
pub struct MCPToolSpec {
    pub server_id: String,
    pub name: String,
    pub function_name: String,
    pub description: String,
    pub risk_level: String,
    pub requires_confirmation: bool,
    pub audit_enabled: bool,
    pub input_schema: Option<String>,
}

/// A character allowed in a server id or tool name.
pub open spec fn valid_name_char_spec(c: char) -> bool {
    c == '_' || c == '-' || ('0' <= c && c <= '9') || ('a' <= c && c <= 'z') || ('A' <= c && c <= 'Z')
}

/// A server id or tool name: not empty, no `__`, allowed characters only.
pub open spec fn valid_name_part_spec(s: Seq<char>) -> bool {
    s.len() > 0 && !has_sub(s, "__"@) && forall|k: int| 0 <= k < s.len() ==> valid_name_char_spec(#[trigger] s[k])
}

/// The server id and tool name that a function name carries, when it is
/// `mcp__<server>__<name>` with both parts valid.
pub open spec fn action_parts_spec(f: Seq<char>) -> Option<(Seq<char>, Seq<char>)> {
    if !has_prefix(f, MCP_PREFIX@) {
        None
    } else {
        let rest = f.skip(5);
        if !has_sub(rest, "__"@) {
            None
        } else {
            let i = first_at(rest, "__"@);
            let server = rest.take(i);
            let name = rest.skip(i + 2);
            if valid_name_part_spec(server) && valid_name_part_spec(name) {
                Some((server, name))
            } else {
                None
            }
        }
    }
}

/// The function name of a server's tool.
pub open spec fn function_name_spec(server_id: Seq<char>, name: Seq<char>) -> Seq<char> {
    MCP_PREFIX@ + server_id + "__"@ + name
}

/// Whether a character is allowed in a server id or tool name.
pub fn valid_name_char(c: char) -> (r: bool)
    ensures
        r == valid_name_char_spec(c),
{
    c == '_' || c == '-' || ('0' <= c && c <= '9') || ('a' <= c && c <= 'z') || ('A' <= c && c <= 'Z')
}

/// Whether the text is a valid server id or tool name.
pub fn valid_name_part(value: &str) -> (r: bool)
    ensures
        r == valid_name_part_spec(value@),
{
    if value.is_empty() || contains(value, "__") {
        return false;
    }
    let v = chars_of(value);
    let mut i: usize = 0;
    while i < v.len()
        invariant
            i <= v@.len(),
            v@ == value@,
            forall|k: int| 0 <= k < i ==> valid_name_char_spec(#[trigger] v@[k]),
        decreases v.len() - i,
    {
        if !valid_name_char(v[i]) {
            assert(!valid_name_char_spec(value@[i as int]));
            return false;
        }
        i = i + 1;
    }
    true
}

/// The server id and tool name of an MCP function name (see `action_parts_spec`).
pub fn mcp_action_parts(function_name: &str) -> (r: Option<(String, String)>)
    ensures
        match r {
            Some((a, b)) => action_parts_spec(function_name@) == Some((a@, b@)),
            None => action_parts_spec(function_name@) is None,
        },
{
    proof { reveal_strlit("mcp__"); reveal_strlit("__"); }
    let rest = match strip_prefix(function_name, MCP_PREFIX) {
        Some(rest) => rest,
        None => { return None; },
    };
    let (server_id, name) = match split_once(rest.as_str(), "__") {
        Some(parts) => parts,
        None => { return None; },
    };
    if !valid_name_part(server_id.as_str()) || !valid_name_part(name.as_str()) {
        return None;
    }
    Some((server_id, name))
}

/// The function name of a server's tool.
pub fn mcp_function_name(server_id: &str, name: &str) -> (r: String)
    ensures
        r@ == function_name_spec(server_id@, name@),
{
    let mut out = String::from_str(MCP_PREFIX);
    push_str(&mut out, server_id);
    push_str(&mut out, "__");
    push_str(&mut out, name);
    out
}

/// A tool that may be called without confirmation and whose function name
/// is the one its server id and name give.
#[verifier::opaque]
pub open spec fn executable_spec_spec(s: MCPToolSpec) -> bool {
    !s.requires_confirmation && s.function_name@ == function_name_spec(s.server_id@, s.name@)
        && action_parts_spec(s.function_name@) is Some
}

/// Whether the tool may be called directly (see `executable_spec_spec`).
pub fn executable_spec(spec: &MCPToolSpec) -> (r: bool)
    ensures
        r == executable_spec_spec(*spec),
{
    proof { reveal(executable_spec_spec); }
    if spec.requires_confirmation {
        return false;
    }
    let expected = mcp_function_name(spec.server_id.as_str(), spec.name.as_str());
    str_eq(spec.function_name.as_str(), expected.as_str()) && mcp_action_parts(spec.function_name.as_str()).is_some()
}

/// The tools of a list that may be called directly, in order.
pub open spec fn executable_specs_spec(specs: Seq<MCPToolSpec>) -> Seq<MCPToolSpec>
    decreases specs.len(),
{
    if specs.len() == 0 {
        seq![]
    } else if executable_spec_spec(specs.last()) {
        executable_specs_spec(specs.drop_last()).push(specs.last())
    } else {
        executable_specs_spec(specs.drop_last())
    }
}

/// The tools of a list that may be called directly, in order.
pub fn executable_specs(specs: Vec<MCPToolSpec>) -> (r: Vec<MCPToolSpec>)
    ensures
        r@ == executable_specs_spec(specs@),
{
    let mut out: Vec<MCPToolSpec> = Vec::new();
    let mut rest = specs;
    let ghost all = rest@;
    // Walk from the back so each spec can be moved out.
    let mut kept_rev: Vec<MCPToolSpec> = Vec::new();
    let ghost mut n: int = all.len() as int;
    assert(all.take(n) =~= all);
    assert(executable_specs_spec(all) + kept_rev@.reverse() =~= executable_specs_spec(all));
    while rest.len() > 0
        invariant
            rest@ == all.take(n),
            0 <= n <= all.len(),
            executable_specs_spec(all) == executable_specs_spec(all.take(n)) + kept_rev@.reverse(),
        decreases rest.len(),
    {
        let s = rest.pop().unwrap();
        proof {
            assert(all.take(n).drop_last() =~= all.take(n - 1));
            assert(all.take(n).last() == s);
        }
        let ghost before = kept_rev@;
        if executable_spec(&s) {
            kept_rev.push(s);
            assert(kept_rev@.reverse() =~= seq![s] + before.reverse());
        }
        proof { n = n - 1; }
    }
    while kept_rev.len() > 0
        invariant
            executable_specs_spec(all) == out@ + kept_rev@.reverse(),
        decreases kept_rev.len(),
    {
        let ghost before = kept_rev@;
        let s = kept_rev.pop().unwrap();
        assert(before.reverse() =~= seq![s] + kept_rev@.reverse());
        out.push(s);
    }
    assert(out@ + kept_rev@.reverse() =~= out@);
    out
}

/// The description a model sees of an MCP tool.
pub open spec fn description_spec(s: MCPToolSpec) -> Seq<char> {
    "MCP "@ + s.server_id@ + "/"@ + s.name@ + " [risk="@ + s.risk_level@ + ", "@ + (if s.audit_enabled {
        "audit=on"@
    } else {
        "audit=off"@
    }) + "] "@ + s.description@
}

/// The description a model sees of an MCP tool.
pub fn mcp_description(spec: &MCPToolSpec) -> (r: String)
    ensures
        r@ == description_spec(*spec),
{
    let mut out = String::from_str("MCP ");
    push_str(&mut out, spec.server_id.as_str());
    push_str(&mut out, "/");
    push_str(&mut out, spec.name.as_str());
    push_str(&mut out, " [risk=");
    push_str(&mut out, spec.risk_level.as_str());
    push_str(&mut out, ", ");
    push_str(&mut out, if spec.audit_enabled { "audit=on" } else { "audit=off" });
    push_str(&mut out, "] ");
    push_str(&mut out, spec.description.as_str());
    out
}

/// The argument schema of a tool without one, as JSON text.
pub const DEFAULT_ARG_SCHEMA: &'static str = "{\"description\":\"JSON arguments passed to the MCP tool\",\"type\":\"object\"}";

/// The input schema of an MCP tool: its own, else the default one.
pub fn mcp_input_schema(spec: &MCPToolSpec) -> (r: String)
    ensures
        r@ == match spec.input_schema {
            Some(s) => s@,
            None => DEFAULT_ARG_SCHEMA@,
        },
{
    match &spec.input_schema {
        Some(s) => s.clone(),
        None => String::from_str(DEFAULT_ARG_SCHEMA),
    }
}

/// The fields of the tool definition of an MCP tool.
pub open spec fn mcp_tool_model(s: MCPToolSpec) -> ToolModel {
    (
        s.function_name@,
        "MCP: "@ + s.server_id@ + "/"@ + s.name@,
        "mcp"@,
        s.risk_level@,
        match s.input_schema {
            Some(x) => x@,
            None => DEFAULT_ARG_SCHEMA@,
        },
        "json_preview"@,
        s.requires_confirmation,
    )
}

/// The tool definition of an MCP tool.
pub fn mcp_tool_definition(spec: &MCPToolSpec) -> (t: ToolDefinition)
    ensures
        tool_model(t) == mcp_tool_model(*spec),
        t.tool_name@ == spec.function_name@,
        t.display_name@ == "MCP: "@ + spec.server_id@ + "/"@ + spec.name@,
        t.category@ == "mcp"@,
        t.risk_level@ == spec.risk_level@,
        t.input_schema@ == match spec.input_schema {
            Some(s) => s@,
            None => DEFAULT_ARG_SCHEMA@,
        },
        t.output_kind@ == "json_preview"@,
        t.requires_confirmation == spec.requires_confirmation,
{
    let mut display = String::from_str("MCP: ");
    push_str(&mut display, spec.server_id.as_str());
    push_str(&mut display, "/");
    push_str(&mut display, spec.name.as_str());
    ToolDefinition {
        tool_name: spec.function_name.clone(),
        display_name: display,
        category: String::from_str("mcp"),
        risk_level: spec.risk_level.clone(),
        input_schema: mcp_input_schema(spec),
        output_kind: String::from_str("json_preview"),
        requires_confirmation: spec.requires_confirmation,
    }
}

/// The tool definitions of the MCP tools that may be called directly.
pub fn mcp_tool_definitions(specs: Vec<MCPToolSpec>) -> (r: Vec<ToolDefinition>)
    ensures
        r@.len() == executable_specs_spec(specs@).len(),
        forall|i: int| 0 <= i < r@.len() ==> tool_model(#[trigger] r@[i]) == mcp_tool_model(executable_specs_spec(specs@)[i]),
{
    let kept = executable_specs(specs);
    let mut out: Vec<ToolDefinition> = Vec::new();
    let mut i: usize = 0;
    while i < kept.len()
        invariant
            i <= kept@.len(),
            out@.len() == i,
            forall|j: int| 0 <= j < i ==> tool_model(#[trigger] out@[j]) == mcp_tool_model(kept@[j]),
        decreases kept.len() - i,
    {
        out.push(mcp_tool_definition(&kept[i]));
        i = i + 1;
    }
    out
}


/// The function-calling schemas of the MCP tools a run may call: those of
/// the executable specs, in order.
pub fn mcp_tool_schemas(specs: Vec<MCPToolSpec>) -> (r: Vec<String>)
    ensures
        r@.len() == executable_specs_spec(specs@).len(),
        forall|i: int| 0 <= i < r@.len() ==> (#[trigger] r@[i])@ == tool_json_schema_spec(mcp_tool_model(
            executable_specs_spec(specs@)[i])),
{
    let tools = mcp_tool_definitions(specs);
    let mut out: Vec<String> = Vec::new();
    let mut i: usize = 0;
    while i < tools.len()
        invariant
            i <= tools@.len(),
            out@.len() == i,
            forall|j: int| 0 <= j < i ==> (#[trigger] out@[j])@ == tool_json_schema_spec(tool_model(tools@[j])),
        decreases tools.len() - i,
    {
        out.push(tool_definition_to_json_schema(&tools[i]));
        i = i + 1;
    }
    out
}
} // verus!
