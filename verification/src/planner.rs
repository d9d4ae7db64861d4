//! The actions that the runtime can plan and execute, and the labels,
//! error codes and tags that belong to each.
use vstd::prelude::*;
use crate::text::owned;

verus! {

/// One action of a plan.
#[derive(Clone, Debug)]
pub enum PlannedAction {
    RunCommand { command: String },
    ReadFile { path: String },
    WriteFile { path: String, content: String },
    ApplyPatch { diff: String, dry_run: bool },
    DeletePath { path: String },
    ListFiles { path: Option<String> },
    WriteMemory { kind: String, summary: String, content: String },
    RecallMemory { query: String },
    SearchKnowledge { query: String },
    SearchSiyuanNotes { query: String },
    ReadSiyuanNote { path: String },
    MCPCall { server_id: String, tool_name: String, arguments_json: String },
    WriteSiyuanKnowledge,
    ProjectAnswer,
    ContextAnswer,
    Explain,
    AgentResolve,
}

/// The actions that the tool registry and its error codes cover: all but the
/// patch and MCP actions, which carry their own definitions.
pub open spec fn is_registry_action(a: PlannedAction) -> bool {
    !(a is ApplyPatch) && !(a is MCPCall)
}

/// The error code reported when an action fails without a code of its own.
pub open spec fn default_error_code_spec(a: PlannedAction) -> Seq<char> {
    match a {
        PlannedAction::RunCommand { .. } => "command_failed"@,
        PlannedAction::ReadFile { .. } => "file_read_failed"@,
        PlannedAction::WriteFile { .. } => "file_write_failed"@,
        PlannedAction::DeletePath { .. } => "path_delete_failed"@,
        PlannedAction::ListFiles { .. } => "list_dir_failed"@,
        PlannedAction::WriteMemory { .. } => "memory_write_failed"@,
        PlannedAction::RecallMemory { .. } => "memory_recall_failed"@,
        PlannedAction::SearchKnowledge { .. } => "knowledge_search_failed"@,
        PlannedAction::SearchSiyuanNotes { .. } => "siyuan_search_failed"@,
        PlannedAction::ReadSiyuanNote { .. } => "siyuan_read_failed"@,
        PlannedAction::WriteSiyuanKnowledge => "siyuan_write_failed"@,
        PlannedAction::ProjectAnswer => "project_answer_failed"@,
        PlannedAction::ContextAnswer => "context_answer_failed"@,
        PlannedAction::Explain => "runtime_output_failed"@,
        PlannedAction::AgentResolve => "agent_resolve_failed"@,
        _ => Seq::empty(),
    }
}

/// The short tag that names an action in artifact and log names.
pub open spec fn action_tag_spec(a: PlannedAction) -> Seq<char> {
    match a {
        PlannedAction::WriteSiyuanKnowledge => "siyuan-write"@,
        PlannedAction::ProjectAnswer => "project"@,
        PlannedAction::ContextAnswer => "context"@,
        PlannedAction::Explain => "explain"@,
        PlannedAction::AgentResolve => "agent-resolve"@,
        PlannedAction::RunCommand { .. } => "command"@,
        PlannedAction::ReadFile { .. } => "read"@,
        PlannedAction::WriteFile { .. } => "write"@,
        PlannedAction::DeletePath { .. } => "delete"@,
        PlannedAction::ListFiles { .. } => "list"@,
        PlannedAction::WriteMemory { .. } => "memory-write"@,
        PlannedAction::RecallMemory { .. } => "memory-recall"@,
        PlannedAction::SearchKnowledge { .. } => "knowledge"@,
        PlannedAction::SearchSiyuanNotes { .. } => "siyuan-search"@,
        PlannedAction::ReadSiyuanNote { .. } => "siyuan-read"@,
        _ => Seq::empty(),
    }
}

/// The tool name under which an action is recorded in a handoff.
pub open spec fn action_label_spec(a: PlannedAction) -> Seq<char> {
    match a {
        PlannedAction::RunCommand { .. } => "run_command"@,
        PlannedAction::ReadFile { .. } => "workspace_read"@,
        PlannedAction::WriteFile { .. } => "workspace_write"@,
        PlannedAction::ApplyPatch { .. } => "workspace_apply_patch"@,
        PlannedAction::DeletePath { .. } => "workspace_delete"@,
        PlannedAction::ListFiles { .. } => "workspace_list"@,
        PlannedAction::WriteMemory { .. } => "memory_write"@,
        PlannedAction::RecallMemory { .. } => "memory_recall"@,
        PlannedAction::SearchKnowledge { .. } => "knowledge_search"@,
        PlannedAction::SearchSiyuanNotes { .. } => "search_siyuan_notes"@,
        PlannedAction::ReadSiyuanNote { .. } => "read_siyuan_note"@,
        PlannedAction::MCPCall { .. } => "mcp_call"@,
        PlannedAction::WriteSiyuanKnowledge => "write_siyuan_knowledge"@,
        PlannedAction::ProjectAnswer => "project_answer"@,
        PlannedAction::ContextAnswer => "context_answer"@,
        PlannedAction::Explain => "explain"@,
        PlannedAction::AgentResolve => "agent_resolve"@,
    }
}

/// The error code reported when an action fails without a code of its own.
pub fn default_error_code(action: &PlannedAction) -> (code: String)
    requires
        is_registry_action(*action),
    ensures
        code@ == default_error_code_spec(*action),
{
    let s: &str = match action {
        PlannedAction::RunCommand { .. } => "command_failed",
        PlannedAction::ReadFile { .. } => "file_read_failed",
        PlannedAction::WriteFile { .. } => "file_write_failed",
        PlannedAction::DeletePath { .. } => "path_delete_failed",
        PlannedAction::ListFiles { .. } => "list_dir_failed",
        PlannedAction::WriteMemory { .. } => "memory_write_failed",
        PlannedAction::RecallMemory { .. } => "memory_recall_failed",
        PlannedAction::SearchKnowledge { .. } => "knowledge_search_failed",
        PlannedAction::SearchSiyuanNotes { .. } => "siyuan_search_failed",
        PlannedAction::ReadSiyuanNote { .. } => "siyuan_read_failed",
        PlannedAction::WriteSiyuanKnowledge => "siyuan_write_failed",
        PlannedAction::ProjectAnswer => "project_answer_failed",
        PlannedAction::ContextAnswer => "context_answer_failed",
        PlannedAction::Explain => "runtime_output_failed",
        PlannedAction::AgentResolve => "agent_resolve_failed",
        _ => "",
    };
    owned(s)
}

/// The short tag of an action.
pub fn action_tag(action: &PlannedAction) -> (tag: &'static str)
    requires
        is_registry_action(*action),
    ensures
        tag@ == action_tag_spec(*action),
{
    if let PlannedAction::WriteSiyuanKnowledge = action {
        return "siyuan-write";
    }
    if let PlannedAction::ProjectAnswer = action {
        return "project";
    }
    if let PlannedAction::ContextAnswer = action {
        return "context";
    }
    if let PlannedAction::Explain = action {
        return "explain";
    }
    if let PlannedAction::AgentResolve = action {
        return "agent-resolve";
    }
    action_tag_common(action)
}

/// The tag of an action that carries arguments.
fn action_tag_common(action: &PlannedAction) -> (tag: &'static str)
    requires
        is_registry_action(*action),
        !(*action is WriteSiyuanKnowledge || *action is ProjectAnswer || *action is ContextAnswer
            || *action is Explain || *action is AgentResolve),
    ensures
        tag@ == action_tag_spec(*action),
{
    match action {
        PlannedAction::RunCommand { .. } => "command",
        PlannedAction::ReadFile { .. } => "read",
        PlannedAction::WriteFile { .. } => "write",
        PlannedAction::DeletePath { .. } => "delete",
        PlannedAction::ListFiles { .. } => "list",
        PlannedAction::WriteMemory { .. } => "memory-write",
        PlannedAction::RecallMemory { .. } => "memory-recall",
        PlannedAction::SearchKnowledge { .. } => "knowledge",
        PlannedAction::SearchSiyuanNotes { .. } => "siyuan-search",
        PlannedAction::ReadSiyuanNote { .. } => "siyuan-read",
        _ => "",
    }
}

/// The tool name under which an action is recorded in a handoff.
pub fn action_label(action: &PlannedAction) -> (label: &'static str)
    ensures
        label@ == action_label_spec(*action),
{
    match action {
        PlannedAction::RunCommand { .. } => "run_command",
        PlannedAction::ReadFile { .. } => "workspace_read",
        PlannedAction::WriteFile { .. } => "workspace_write",
        PlannedAction::ApplyPatch { .. } => "workspace_apply_patch",
        PlannedAction::DeletePath { .. } => "workspace_delete",
        PlannedAction::ListFiles { .. } => "workspace_list",
        PlannedAction::WriteMemory { .. } => "memory_write",
        PlannedAction::RecallMemory { .. } => "memory_recall",
        PlannedAction::SearchKnowledge { .. } => "knowledge_search",
        PlannedAction::SearchSiyuanNotes { .. } => "search_siyuan_notes",
        PlannedAction::ReadSiyuanNote { .. } => "read_siyuan_note",
        PlannedAction::MCPCall { .. } => "mcp_call",
        PlannedAction::WriteSiyuanKnowledge => "write_siyuan_knowledge",
        PlannedAction::ProjectAnswer => "project_answer",
        PlannedAction::ContextAnswer => "context_answer",
        PlannedAction::Explain => "explain",
        PlannedAction::AgentResolve => "agent_resolve",
    }
}

} // verus!
