//! Turning a model's tool call into a planned action: which tool a function
//! name stands for and which arguments of its JSON text it takes.
use vstd::prelude::*;
use crate::mcp_bridge::{action_parts_spec, mcp_action_parts};
use crate::planner::PlannedAction;
use crate::text::str_eq;

verus! {

/// The string at `key` of the arguments, as `serde_json` reads the text:
/// none when the text is not JSON, has no such key, or the value there is
/// not a string.
pub uninterp spec fn json_str_at(text: Seq<char>, key: Seq<char>) -> Option<Seq<char>>;

/// The boolean at `key` of the arguments, as `serde_json` reads the text.
pub uninterp spec fn json_bool_at(text: Seq<char>, key: Seq<char>) -> Option<bool>;

/// The JSON text `serde_json` writes (`Value::to_string`) for the member
/// `key` of the parsed text (`Value::get`): none when the parsed value has no
/// such member (a text that is not JSON reads as null, which has none).
pub uninterp spec fn json_member_text(text: Seq<char>, key: Seq<char>) -> Option<Seq<char>>;

/// The JSON text `serde_json` writes (`Value::to_string`) for the whole
/// parsed text (`null` when the text is not JSON).
pub uninterp spec fn json_value_text(text: Seq<char>) -> Seq<char>;

/// The string at `key` of JSON arguments: `serde_json::from_str` (a text
/// that is not JSON reads as null), then indexing by the key and
/// `Value::as_str`. Its contract names the result and claims no more.
#[verifier::external_body]
fn json_str_field(text: &str, key: &str) -> (r: Option<String>)
    ensures
        match r {
            Some(s) => json_str_at(text@, key@) == Some(s@),
            None => json_str_at(text@, key@) is None,
        },
{
    let v: serde_json::Value = serde_json::from_str(text).unwrap_or_default();
    v[key].as_str().map(|s| s.to_string())
}

/// The boolean at `key` of JSON arguments: `serde_json::from_str`, then
/// indexing by the key and `Value::as_bool`. Its contract names the result.
#[verifier::external_body]
fn json_bool_field(text: &str, key: &str) -> (r: Option<bool>)
    ensures
        r == json_bool_at(text@, key@),
{
    let v: serde_json::Value = serde_json::from_str(text).unwrap_or_default();
    v[key].as_bool()
}

/// The member `key` of parsed JSON written back as text:
/// `serde_json::from_str` (a text that is not JSON reads as null), then
/// `Value::get` and `Value::to_string`. Its contract names the result.
#[verifier::external_body]
fn json_member(text: &str, key: &str) -> (r: Option<String>)
    ensures
        match r {
            Some(s) => json_member_text(text@, key@) == Some(s@),
            None => json_member_text(text@, key@) is None,
        },
{
    let v: serde_json::Value = serde_json::from_str(text).unwrap_or_default();
    match v.get(key) {
        Some(member) => Some(member.to_string()),
        None => None,
    }
}

/// The whole parsed JSON written back as text: `serde_json::from_str`
/// (a text that is not JSON reads as null), then `Value::to_string`. Its
/// contract names the result.
#[verifier::external_body]
fn json_whole(text: &str) -> (r: String)
    ensures
        r@ == json_value_text(text@),
{
    let v: serde_json::Value = serde_json::from_str(text).unwrap_or_default();
    v.to_string()
}

/// The arguments an MCP tool receives: the `arguments` member of the
/// call's arguments when there is one, else the whole arguments.
pub open spec fn mcp_arguments_spec(args: Seq<char>) -> Seq<char> {
    match json_member_text(args, "arguments"@) {
        Some(member) => member,
        None => json_value_text(args),
    }
}

/// The arguments an MCP tool receives (see `mcp_arguments_spec`).
pub fn mcp_arguments_json(arguments: &str) -> (r: String)
    ensures
        r@ == mcp_arguments_spec(arguments@),
{
    match json_member(arguments, "arguments") {
        Some(member) => member,
        None => json_whole(arguments),
    }
}

/// A planned action as plain values: its kind and its texts.
pub open spec fn action_fields(a: PlannedAction) -> (int, Seq<char>, Seq<char>, Seq<char>, Option<Seq<char>>, bool) {
    match a {
        PlannedAction::RunCommand { command } => (0, command@, Seq::empty(), Seq::empty(), None, false),
        PlannedAction::ReadFile { path } => (1, path@, Seq::empty(), Seq::empty(), None, false),
        PlannedAction::WriteFile { path, content } => (2, path@, content@, Seq::empty(), None, false),
        PlannedAction::ApplyPatch { diff, dry_run } => (3, diff@, Seq::empty(), Seq::empty(), None, dry_run),
        PlannedAction::DeletePath { path } => (4, path@, Seq::empty(), Seq::empty(), None, false),
        PlannedAction::ListFiles { path } => (5, Seq::empty(), Seq::empty(), Seq::empty(), match path {
            Some(p) => Some(p@),
            None => None,
        }, false),
        PlannedAction::WriteMemory { kind, summary, content } => (6, kind@, summary@, content@, None, false),
        PlannedAction::RecallMemory { query } => (7, query@, Seq::empty(), Seq::empty(), None, false),
        PlannedAction::SearchKnowledge { query } => (8, query@, Seq::empty(), Seq::empty(), None, false),
        PlannedAction::SearchSiyuanNotes { query } => (9, query@, Seq::empty(), Seq::empty(), None, false),
        PlannedAction::ReadSiyuanNote { path } => (10, path@, Seq::empty(), Seq::empty(), None, false),
        PlannedAction::MCPCall { server_id, tool_name, arguments_json } => (11, server_id@, tool_name@, arguments_json@,
            None, false),
        PlannedAction::WriteSiyuanKnowledge => (12, Seq::empty(), Seq::empty(), Seq::empty(), None, false),
        PlannedAction::ProjectAnswer => (13, Seq::empty(), Seq::empty(), Seq::empty(), None, false),
        PlannedAction::ContextAnswer => (14, Seq::empty(), Seq::empty(), Seq::empty(), None, false),
        PlannedAction::Explain => (15, Seq::empty(), Seq::empty(), Seq::empty(), None, false),
        PlannedAction::AgentResolve => (16, Seq::empty(), Seq::empty(), Seq::empty(), None, false),
    }
}

/// A required string argument as one action field.
pub open spec fn required(args: Seq<char>, key: Seq<char>, kind: int) -> Option<(int, Seq<char>, Seq<char>, Seq<char>, Option<Seq<char>>, bool)> {
    match json_str_at(args, key) {
        Some(v) => Some((kind, v, Seq::empty(), Seq::empty(), None, false)),
        None => None,
    }
}

/// An optional string argument, or its default.
pub open spec fn or_default(args: Seq<char>, key: Seq<char>, default: Seq<char>) -> Seq<char> {
    match json_str_at(args, key) {
        Some(v) => v,
        None => default,
    }
}

/// The action a tool call stands for, as plain values: the native tools by
/// name with their required arguments, the Siyuan knowledge writer, and any
/// other name as an MCP call when it names a server and a tool.
pub open spec fn decode_spec(name: Seq<char>, args: Seq<char>) -> Option<(int, Seq<char>, Seq<char>, Seq<char>, Option<Seq<char>>, bool)> {
    if name == "run_command"@ {
        required(args, "command"@, 0)
    } else if name == "workspace_read"@ {
        required(args, "path"@, 1)
    } else if name == "workspace_write"@ {
        match json_str_at(args, "path"@) {
            Some(p) => Some((2, p, or_default(args, "content"@, Seq::empty()), Seq::empty(), None, false)),
            None => None,
        }
    } else if name == "workspace_apply_patch"@ {
        match json_str_at(args, "diff"@) {
            Some(d) => Some((3, d, Seq::empty(), Seq::empty(), None, match json_bool_at(args, "dry_run"@) {
                Some(b) => b,
                None => false,
            })),
            None => None,
        }
    } else if name == "workspace_delete"@ {
        required(args, "path"@, 4)
    } else if name == "workspace_list"@ {
        Some((5, Seq::empty(), Seq::empty(), Seq::empty(), json_str_at(args, "path"@), false))
    } else if name == "memory_write"@ {
        Some((6, or_default(args, "kind"@, "project_knowledge"@), or_default(args, "summary"@, Seq::empty()), or_default(
            args, "content"@, Seq::empty()), None, false))
    } else if name == "memory_recall"@ {
        required(args, "query"@, 7)
    } else if name == "knowledge_search"@ {
        required(args, "query"@, 8)
    } else if name == "search_siyuan_notes"@ {
        required(args, "query"@, 9)
    } else if name == "read_siyuan_note"@ {
        required(args, "path"@, 10)
    } else if name == "write_siyuan_knowledge"@ {
        Some((12, Seq::empty(), Seq::empty(), Seq::empty(), None, false))
    } else {
        match action_parts_spec(name) {
            Some((server, tool)) => Some((11, server, tool, mcp_arguments_spec(args), None, false)),
            None => None,
        }
    }
}

fn text_or(v: Option<String>, default: &str) -> (r: String)
    ensures
        r@ == match v {
            Some(s) => s@,
            None => default@,
        },
{
    match v {
        Some(s) => s,
        None => String::from_str(default),
    }
}

/// The action a tool call stands for (see `decode_spec`).
pub fn tool_call_to_action(name: &str, arguments: &str) -> (r: Option<PlannedAction>)
    ensures
        match r {
            Some(a) => decode_spec(name@, arguments@) == Some(action_fields(a)),
            None => decode_spec(name@, arguments@) is None,
        },
{
    proof {
        reveal_strlit("");
    }
    if str_eq(name, "run_command") {
        return match json_str_field(arguments, "command") {
            Some(command) => Some(PlannedAction::RunCommand { command }),
            None => None,
        };
    }
    if str_eq(name, "workspace_read") {
        return match json_str_field(arguments, "path") {
            Some(path) => Some(PlannedAction::ReadFile { path }),
            None => None,
        };
    }
    if str_eq(name, "workspace_write") {
        return match json_str_field(arguments, "path") {
            Some(path) => Some(PlannedAction::WriteFile { path, content: text_or(json_str_field(arguments, "content"), "") }),
            None => None,
        };
    }
    if str_eq(name, "workspace_apply_patch") {
        return match json_str_field(arguments, "diff") {
            Some(diff) => {
                let dry_run = match json_bool_field(arguments, "dry_run") {
                    Some(b) => b,
                    None => false,
                };
                Some(PlannedAction::ApplyPatch { diff, dry_run })
            },
            None => None,
        };
    }
    if str_eq(name, "workspace_delete") {
        return match json_str_field(arguments, "path") {
            Some(path) => Some(PlannedAction::DeletePath { path }),
            None => None,
        };
    }
    if str_eq(name, "workspace_list") {
        return Some(PlannedAction::ListFiles { path: json_str_field(arguments, "path") });
    }
    if str_eq(name, "memory_write") {
        let kind = text_or(json_str_field(arguments, "kind"), "project_knowledge");
        let summary = text_or(json_str_field(arguments, "summary"), "");
        let content = text_or(json_str_field(arguments, "content"), "");
        return Some(PlannedAction::WriteMemory { kind, summary, content });
    }
    if str_eq(name, "memory_recall") {
        return match json_str_field(arguments, "query") {
            Some(query) => Some(PlannedAction::RecallMemory { query }),
            None => None,
        };
    }
    if str_eq(name, "knowledge_search") {
        return match json_str_field(arguments, "query") {
            Some(query) => Some(PlannedAction::SearchKnowledge { query }),
            None => None,
        };
    }
    if str_eq(name, "search_siyuan_notes") {
        return match json_str_field(arguments, "query") {
            Some(query) => Some(PlannedAction::SearchSiyuanNotes { query }),
            None => None,
        };
    }
    if str_eq(name, "read_siyuan_note") {
        return match json_str_field(arguments, "path") {
            Some(path) => Some(PlannedAction::ReadSiyuanNote { path }),
            None => None,
        };
    }
    if str_eq(name, "write_siyuan_knowledge") {
        return Some(PlannedAction::WriteSiyuanKnowledge);
    }
    match mcp_action_parts(name) {
        Some((server_id, tool_name)) => Some(PlannedAction::MCPCall { server_id, tool_name, arguments_json: mcp_arguments_json(arguments) }),
        None => None,
    }
}

} // verus!
