//! The tool registry: the definition of every native tool, which tools a
//! mode may see, and what the runtime reports of each capability and
//! connection slot.
use vstd::prelude::*;
use crate::contracts::{CapabilityListResponse, CapabilitySpec, ConnectorListResponse, ConnectorSlotSpec};
use crate::planner::{PlannedAction, is_registry_action};
use crate::contracts::RunRequest;
use crate::mcp_bridge::{MCPToolSpec, executable_specs_spec, mcp_tool_definitions, mcp_tool_model};
use crate::mcp_call::{json_string, json_string_text};
use crate::text::{owned, push_str, str_eq};

verus! {

/// The definition of one tool.
#[derive(Clone, Debug)]
pub struct ToolDefinition {
    pub tool_name: String,
    pub display_name: String,
    pub category: String,
    pub risk_level: String,
    pub input_schema: String,
    pub output_kind: String,
    pub requires_confirmation: bool,
}

/// What one tool call produced.
#[derive(Clone, Debug)]
pub struct ToolCallResult {
    pub summary: String,
    pub final_answer: String,
    pub artifact_path: Option<String>,
    pub detail_preview: String,
    pub raw_output_ref: Option<String>,
    pub result_chars: usize,
    pub single_result_budget_chars: usize,
    pub single_result_budget_hit: bool,
    pub error_code: Option<String>,
    pub elapsed_ms: u64,
    pub retryable: bool,
    pub success: bool,
    pub memory_write_summary: Option<String>,
    pub reasoning_summary: String,
    pub cache_status: String,
    pub cache_reason: String,
}

/// A tool call together with the tool that served it.
#[derive(Clone, Debug)]
pub struct ToolExecutionTrace {
    pub tool: ToolDefinition,
    pub action_summary: String,
    pub result: ToolCallResult,
}

/// The fields of a tool definition as character sequences.
pub type ToolModel = (Seq<char>, Seq<char>, Seq<char>, Seq<char>, Seq<char>, Seq<char>, bool);

/// The model of a tool definition.
pub open spec fn tool_model(t: ToolDefinition) -> ToolModel {
    (t.tool_name@, t.display_name@, t.category@, t.risk_level@, t.input_schema@, t.output_kind@, t.requires_confirmation)
}

pub open spec fn run_command_model() -> ToolModel {
    ("run_command"@, "执行命令"@, "system_command"@, "high"@, "command_text"@, "text_preview"@, true)
}

pub open spec fn read_file_model() -> ToolModel {
    ("workspace_read"@, "读取文件"@, "workspace_read"@, "low"@, "path"@, "text_preview"@, false)
}

pub open spec fn write_file_model() -> ToolModel {
    ("workspace_write"@, "写入文件"@, "workspace_write"@, "medium"@, "path_and_content"@, "write_result"@, false)
}

pub open spec fn delete_path_model() -> ToolModel {
    ("workspace_delete"@, "删除路径"@, "workspace_write"@, "irreversible"@, "path"@, "delete_result"@, true)
}

pub open spec fn list_files_model() -> ToolModel {
    ("workspace_list"@, "浏览目录"@, "workspace_read"@, "low"@, "optional_path"@, "list_preview"@, false)
}

pub open spec fn write_memory_model() -> ToolModel {
    ("memory_write"@, "写入记忆"@, "memory_write"@, "medium"@, "memory_entry"@, "memory_write_result"@, false)
}

pub open spec fn recall_memory_model() -> ToolModel {
    ("memory_recall"@, "召回记忆"@, "memory_read"@, "low"@, "query"@, "text_preview"@, false)
}

pub open spec fn search_knowledge_model() -> ToolModel {
    ("knowledge_search"@, "知识检索"@, "knowledge_read"@, "low"@, "query"@, "text_preview"@, false)
}

pub open spec fn search_siyuan_model() -> ToolModel {
    ("search_siyuan_notes"@, "思源摘要检索"@, "knowledge_read"@, "low"@, "query"@, "text_preview"@, false)
}

pub open spec fn read_siyuan_model() -> ToolModel {
    ("read_siyuan_note"@, "读取思源正文"@, "knowledge_read"@, "low"@, "path"@, "text_preview"@, false)
}

pub open spec fn write_siyuan_model() -> ToolModel {
    ("write_siyuan_knowledge"@, "写入思源知识"@, "knowledge_write"@, "medium"@, "none"@, "write_result"@, true)
}

pub open spec fn project_answer_model() -> ToolModel {
    ("project_answer"@, "项目说明"@, "assistant_answer"@, "low"@, "none"@, "text_preview"@, false)
}

pub open spec fn session_context_model() -> ToolModel {
    ("session_context"@, "会话续写"@, "assistant_answer"@, "low"@, "none"@, "text_preview"@, false)
}

pub open spec fn explain_model() -> ToolModel {
    ("explain"@, "能力说明"@, "assistant_answer"@, "low"@, "none"@, "text_preview"@, false)
}

pub open spec fn agent_resolve_model() -> ToolModel {
    ("agent_resolve"@, "智能体执行"@, "agent"@, "high"@, "none"@, "agent_trace"@, true)
}

/// The native tools in the order the catalog lists them.
pub open spec fn catalog_models() -> Seq<ToolModel> {
    seq![
        run_command_model(),
        read_file_model(),
        write_file_model(),
        delete_path_model(),
        list_files_model(),
        write_memory_model(),
        recall_memory_model(),
        search_knowledge_model(),
        search_siyuan_model(),
        read_siyuan_model(),
        write_siyuan_model(),
        project_answer_model(),
        session_context_model(),
        explain_model(),
    ]
}

/// The native tools that a mode may use, in catalog order.
pub open spec fn visible_models(mode: Seq<char>) -> Seq<ToolModel> {
    catalog_models().filter(|m: ToolModel| allows_spec(mode, m))
}

/// The tool that serves an action.
pub open spec fn resolve_tool_model(a: PlannedAction) -> ToolModel {
    match a {
        PlannedAction::RunCommand { .. } => run_command_model(),
        PlannedAction::ReadFile { .. } => read_file_model(),
        PlannedAction::WriteFile { .. } => write_file_model(),
        PlannedAction::DeletePath { .. } => delete_path_model(),
        PlannedAction::ListFiles { .. } => list_files_model(),
        PlannedAction::WriteMemory { .. } => write_memory_model(),
        PlannedAction::RecallMemory { .. } => recall_memory_model(),
        PlannedAction::SearchKnowledge { .. } => search_knowledge_model(),
        PlannedAction::SearchSiyuanNotes { .. } => search_siyuan_model(),
        PlannedAction::ReadSiyuanNote { .. } => read_siyuan_model(),
        PlannedAction::WriteSiyuanKnowledge => write_siyuan_model(),
        PlannedAction::ProjectAnswer => project_answer_model(),
        PlannedAction::ContextAnswer => session_context_model(),
        PlannedAction::Explain => explain_model(),
        _ => agent_resolve_model(),
    }
}

/// A tool whose category changes the workspace, the system or memory.
pub open spec fn is_mutating_spec(category: Seq<char>) -> bool {
    category == "workspace_write"@ || category == "system_command"@ || category == "memory_write"@
}

/// A tool that only the full-access mode may use.
pub open spec fn is_advanced_write_spec(name: Seq<char>) -> bool {
    name == "memory_write"@ || name == "write_siyuan_knowledge"@
}

/// Whether the mode `mode` may use the tool `t`.
pub open spec fn allows_spec(mode: Seq<char>, t: ToolModel) -> bool {
    if mode == "observe"@ {
        !is_mutating_spec(t.2)
    } else if mode == "full_access"@ {
        true
    } else {
        !is_advanced_write_spec(t.0)
    }
}

pub open spec fn side_effect_spec(category: Seq<char>) -> Seq<char> {
    if category == "workspace_read"@ || category == "knowledge_read"@ || category == "memory_read"@
        || category == "assistant_answer"@ {
        "read_only"@
    } else if category == "workspace_write"@ {
        "workspace_mutation"@
    } else if category == "memory_write"@ {
        "memory_mutation"@
    } else if category == "knowledge_write"@ {
        "connector_mutation"@
    } else if category == "system_command"@ {
        "system_side_effect"@
    } else if category == "agent"@ {
        "agent_side_effect"@
    } else {
        "local_side_effect"@
    }
}

pub open spec fn supports_modes_spec(name: Seq<char>) -> Seq<Seq<char>> {
    if name == "memory_write"@ || name == "write_siyuan_knowledge"@ {
        seq!["full_access"@]
    } else if name == "workspace_write"@ || name == "workspace_delete"@ || name == "run_command"@ {
        seq!["standard"@, "full_access"@]
    } else {
        seq!["observe"@, "standard"@, "full_access"@]
    }
}

pub open spec fn verification_policy_spec(name: Seq<char>) -> Seq<char> {
    if name == "workspace_write"@ {
        "confirm_write_effect"@
    } else if name == "workspace_delete"@ {
        "confirm_delete_effect"@
    } else if name == "run_command"@ {
        "inspect_command_result"@
    } else if name == "memory_write"@ {
        "confirm_memory_persisted"@
    } else if name == "knowledge_search"@ || name == "search_siyuan_notes"@ || name == "read_siyuan_note"@ {
        "check_result_relevance"@
    } else {
        "check_result_summary"@
    }
}

pub open spec fn connector_slot_spec_of(name: Seq<char>) -> Seq<char> {
    if name == "workspace_list"@ || name == "workspace_read"@ || name == "workspace_write"@
        || name == "workspace_delete"@ || name == "run_command"@ {
        "local_files_project"@
    } else if name == "knowledge_search"@ || name == "search_siyuan_notes"@ || name == "read_siyuan_note"@
        || name == "write_siyuan_knowledge"@ {
        "local_notes_knowledge"@
    } else {
        Seq::empty()
    }
}

pub open spec fn source_kind_spec(slot: Seq<char>) -> Seq<char> {
    if slot.len() == 0 {
        "runtime_native"@
    } else {
        "connector_backed"@
    }
}

/// What the runtime reports of a tool, field by field.
pub open spec fn capability_of(t: ToolModel, c: CapabilitySpec) -> bool {
    &&& c.capability_id@ == t.0
    &&& c.display_name@ == t.1
    &&& c.domain@ == t.2
    &&& c.risk_level@ == t.3
    &&& c.input_schema@ == t.4
    &&& c.output_kind@ == t.5
    &&& c.side_effect_level@ == side_effect_spec(t.2)
    &&& c.supports_modes@.map_values(|m: String| m@) == supports_modes_spec(t.0)
    &&& c.verification_policy@ == verification_policy_spec(t.0)
    &&& c.connector_slot@ == connector_slot_spec_of(t.0)
    &&& c.source_kind@ == source_kind_spec(connector_slot_spec_of(t.0))
    &&& c.requires_confirmation == t.6
}

// ---------------------------------------------------------------------------
// Tool definitions
// ---------------------------------------------------------------------------

/// A field-by-field copy of a tool definition.
pub fn copy_tool(t: &ToolDefinition) -> (c: ToolDefinition)
    ensures
        tool_model(c) == tool_model(*t),
{
    ToolDefinition {
        tool_name: t.tool_name.clone(),
        display_name: t.display_name.clone(),
        category: t.category.clone(),
        risk_level: t.risk_level.clone(),
        input_schema: t.input_schema.clone(),
        output_kind: t.output_kind.clone(),
        requires_confirmation: t.requires_confirmation,
    }
}

fn make_tool(
    tool_name: &str,
    display_name: &str,
    category: &str,
    risk_level: &str,
    input_schema: &str,
    output_kind: &str,
    requires_confirmation: bool,
) -> (t: ToolDefinition)
    ensures
        tool_model(t) == (tool_name@, display_name@, category@, risk_level@, input_schema@, output_kind@, requires_confirmation),
{
    ToolDefinition {
        tool_name: owned(tool_name),
        display_name: owned(display_name),
        category: owned(category),
        risk_level: owned(risk_level),
        input_schema: owned(input_schema),
        output_kind: owned(output_kind),
        requires_confirmation,
    }
}

fn run_command_tool() -> (t: ToolDefinition)
    ensures tool_model(t) == run_command_model(),
{
    make_tool("run_command", "执行命令", "system_command", "high", "command_text", "text_preview", true)
}

fn read_file_tool() -> (t: ToolDefinition)
    ensures tool_model(t) == read_file_model(),
{
    make_tool("workspace_read", "读取文件", "workspace_read", "low", "path", "text_preview", false)
}

fn write_file_tool() -> (t: ToolDefinition)
    ensures tool_model(t) == write_file_model(),
{
    make_tool("workspace_write", "写入文件", "workspace_write", "medium", "path_and_content", "write_result", false)
}

fn delete_path_tool() -> (t: ToolDefinition)
    ensures tool_model(t) == delete_path_model(),
{
    make_tool("workspace_delete", "删除路径", "workspace_write", "irreversible", "path", "delete_result", true)
}

fn list_files_tool() -> (t: ToolDefinition)
    ensures tool_model(t) == list_files_model(),
{
    make_tool("workspace_list", "浏览目录", "workspace_read", "low", "optional_path", "list_preview", false)
}

fn write_memory_tool() -> (t: ToolDefinition)
    ensures tool_model(t) == write_memory_model(),
{
    make_tool("memory_write", "写入记忆", "memory_write", "medium", "memory_entry", "memory_write_result", false)
}

fn recall_memory_tool() -> (t: ToolDefinition)
    ensures tool_model(t) == recall_memory_model(),
{
    make_tool("memory_recall", "召回记忆", "memory_read", "low", "query", "text_preview", false)
}

fn search_knowledge_tool() -> (t: ToolDefinition)
    ensures tool_model(t) == search_knowledge_model(),
{
    make_tool("knowledge_search", "知识检索", "knowledge_read", "low", "query", "text_preview", false)
}

fn search_siyuan_tool() -> (t: ToolDefinition)
    ensures tool_model(t) == search_siyuan_model(),
{
    make_tool("search_siyuan_notes", "思源摘要检索", "knowledge_read", "low", "query", "text_preview", false)
}

fn read_siyuan_tool() -> (t: ToolDefinition)
    ensures tool_model(t) == read_siyuan_model(),
{
    make_tool("read_siyuan_note", "读取思源正文", "knowledge_read", "low", "path", "text_preview", false)
}

fn write_siyuan_tool() -> (t: ToolDefinition)
    ensures tool_model(t) == write_siyuan_model(),
{
    make_tool("write_siyuan_knowledge", "写入思源知识", "knowledge_write", "medium", "none", "write_result", true)
}

fn project_answer_tool() -> (t: ToolDefinition)
    ensures tool_model(t) == project_answer_model(),
{
    make_tool("project_answer", "项目说明", "assistant_answer", "low", "none", "text_preview", false)
}

fn session_context_tool() -> (t: ToolDefinition)
    ensures tool_model(t) == session_context_model(),
{
    make_tool("session_context", "会话续写", "assistant_answer", "low", "none", "text_preview", false)
}

fn explain_tool() -> (t: ToolDefinition)
    ensures tool_model(t) == explain_model(),
{
    make_tool("explain", "能力说明", "assistant_answer", "low", "none", "text_preview", false)
}

fn agent_resolve_tool() -> (t: ToolDefinition)
    ensures tool_model(t) == agent_resolve_model(),
{
    make_tool("agent_resolve", "智能体执行", "agent", "high", "none", "agent_trace", true)
}

/// The tool that serves an action.
pub fn resolve_tool(action: &PlannedAction) -> (t: ToolDefinition)
    requires
        is_registry_action(*action),
    ensures
        tool_model(t) == resolve_tool_model(*action),
{
    match action {
        PlannedAction::RunCommand { .. } => run_command_tool(),
        PlannedAction::ReadFile { .. } => read_file_tool(),
        PlannedAction::WriteFile { .. } => write_file_tool(),
        PlannedAction::DeletePath { .. } => delete_path_tool(),
        PlannedAction::ListFiles { .. } => list_files_tool(),
        PlannedAction::WriteMemory { .. } => write_memory_tool(),
        PlannedAction::RecallMemory { .. } => recall_memory_tool(),
        PlannedAction::SearchKnowledge { .. } => search_knowledge_tool(),
        PlannedAction::SearchSiyuanNotes { .. } => search_siyuan_tool(),
        PlannedAction::ReadSiyuanNote { .. } => read_siyuan_tool(),
        PlannedAction::WriteSiyuanKnowledge => write_siyuan_tool(),
        PlannedAction::ProjectAnswer => project_answer_tool(),
        PlannedAction::ContextAnswer => session_context_tool(),
        PlannedAction::Explain => explain_tool(),
        _ => agent_resolve_tool(),
    }
}

/// Every native tool, in catalog order.
pub fn tool_catalog() -> (tools: Vec<ToolDefinition>)
    ensures
        tools@.map_values(|t: ToolDefinition| tool_model(t)) == catalog_models(),
{
    let mut tools: Vec<ToolDefinition> = Vec::new();
    tools.push(run_command_tool());
    tools.push(read_file_tool());
    tools.push(write_file_tool());
    tools.push(delete_path_tool());
    tools.push(list_files_tool());
    tools.push(write_memory_tool());
    tools.push(recall_memory_tool());
    tools.push(search_knowledge_tool());
    tools.push(search_siyuan_tool());
    tools.push(read_siyuan_tool());
    tools.push(write_siyuan_tool());
    tools.push(project_answer_tool());
    tools.push(session_context_tool());
    tools.push(explain_tool());
    assert(tools@.map_values(|t: ToolDefinition| tool_model(t)) =~= catalog_models());
    tools
}

/// Whether a tool changes the workspace, the system or memory.
pub fn is_mutating_tool(tool: &ToolDefinition) -> (res: bool)
    ensures
        res == is_mutating_spec(tool.category@),
{
    let c = tool.category.as_str();
    str_eq(c, "workspace_write") || str_eq(c, "system_command") || str_eq(c, "memory_write")
}

fn is_advanced_write_tool(tool: &ToolDefinition) -> (res: bool)
    ensures
        res == is_advanced_write_spec(tool.tool_name@),
{
    let n = tool.tool_name.as_str();
    str_eq(n, "memory_write") || str_eq(n, "write_siyuan_knowledge")
}

/// Whether the mode may use the tool: `observe` sees no mutating tool,
/// `full_access` sees all, any other mode all but the advanced writers.
pub fn allows_tool(mode: &str, tool: &ToolDefinition) -> (res: bool)
    ensures
        res == allows_spec(mode@, tool_model(*tool)),
{
    if str_eq(mode, "observe") {
        !is_mutating_tool(tool)
    } else if str_eq(mode, "full_access") {
        true
    } else {
        !is_advanced_write_tool(tool)
    }
}

/// The native tools that `mode` may use, in catalog order.
pub fn visible_tools(mode: &str) -> (tools: Vec<ToolDefinition>)
    ensures
        tools@.map_values(|t: ToolDefinition| tool_model(t)) == catalog_models().filter(
            |m: ToolModel| allows_spec(mode@, m),
        ),
{
    let catalog = tool_catalog();
    let ghost models = catalog_models();
    let ghost pred = |m: ToolModel| allows_spec(mode@, m);
    let mut out: Vec<ToolDefinition> = Vec::new();
    let mut i: usize = 0;
    while i < catalog.len()
        invariant
            i <= catalog@.len(),
            catalog@.map_values(|t: ToolDefinition| tool_model(t)) == models,
            out@.map_values(|t: ToolDefinition| tool_model(t)) == models.take(i as int).filter(pred),
            pred == (|m: ToolModel| allows_spec(mode@, m)),
        decreases catalog.len() - i,
    {
        let ghost before = out@;
        proof {
            assert(models.take(i + 1).drop_last() =~= models.take(i as int));
            assert(models[i as int] == tool_model(catalog@[i as int]));
            reveal(Seq::filter);
        }
        if allows_tool(mode, &catalog[i]) {
            out.push(copy_tool(&catalog[i]));
            assert(out@.map_values(|t: ToolDefinition| tool_model(t)) =~= before.map_values(
                |t: ToolDefinition| tool_model(t),
            ).push(models[i as int]));
        }
        i = i + 1;
    }
    assert(models.take(catalog@.len() as int) =~= models);
    out
}

// ---------------------------------------------------------------------------
// Capability reports
// ---------------------------------------------------------------------------

fn side_effect_level(tool: &ToolDefinition) -> (r: &'static str)
    ensures
        r@ == side_effect_spec(tool.category@),
{
    let c = tool.category.as_str();
    if str_eq(c, "workspace_read") || str_eq(c, "knowledge_read") || str_eq(c, "memory_read") || str_eq(
        c,
        "assistant_answer",
    ) {
        "read_only"
    } else if str_eq(c, "workspace_write") {
        "workspace_mutation"
    } else if str_eq(c, "memory_write") {
        "memory_mutation"
    } else if str_eq(c, "knowledge_write") {
        "connector_mutation"
    } else if str_eq(c, "system_command") {
        "system_side_effect"
    } else if str_eq(c, "agent") {
        "agent_side_effect"
    } else {
        "local_side_effect"
    }
}

fn supports_modes(tool: &ToolDefinition) -> (modes: Vec<String>)
    ensures
        modes@.map_values(|m: String| m@) == supports_modes_spec(tool.tool_name@),
{
    let n = tool.tool_name.as_str();
    let mut modes: Vec<String> = Vec::new();
    if str_eq(n, "memory_write") || str_eq(n, "write_siyuan_knowledge") {
        modes.push(owned("full_access"));
    } else if str_eq(n, "workspace_write") || str_eq(n, "workspace_delete") || str_eq(n, "run_command") {
        modes.push(owned("standard"));
        modes.push(owned("full_access"));
    } else {
        modes.push(owned("observe"));
        modes.push(owned("standard"));
        modes.push(owned("full_access"));
    }
    assert(modes@.map_values(|m: String| m@) =~= supports_modes_spec(tool.tool_name@));
    modes
}

fn verification_policy(tool: &ToolDefinition) -> (r: &'static str)
    ensures
        r@ == verification_policy_spec(tool.tool_name@),
{
    let n = tool.tool_name.as_str();
    if str_eq(n, "workspace_write") {
        "confirm_write_effect"
    } else if str_eq(n, "workspace_delete") {
        "confirm_delete_effect"
    } else if str_eq(n, "run_command") {
        "inspect_command_result"
    } else if str_eq(n, "memory_write") {
        "confirm_memory_persisted"
    } else if str_eq(n, "knowledge_search") || str_eq(n, "search_siyuan_notes") || str_eq(n, "read_siyuan_note") {
        "check_result_relevance"
    } else {
        "check_result_summary"
    }
}

fn connector_slot(tool: &ToolDefinition) -> (r: String)
    ensures
        r@ == connector_slot_spec_of(tool.tool_name@),
{
    let n = tool.tool_name.as_str();
    if str_eq(n, "workspace_list") || str_eq(n, "workspace_read") || str_eq(n, "workspace_write") || str_eq(
        n,
        "workspace_delete",
    ) || str_eq(n, "run_command") {
        owned("local_files_project")
    } else if str_eq(n, "knowledge_search") || str_eq(n, "search_siyuan_notes") || str_eq(n, "read_siyuan_note")
        || str_eq(n, "write_siyuan_knowledge") {
        owned("local_notes_knowledge")
    } else {
        String::new()
    }
}

fn source_kind(connector_slot: &str) -> (r: &'static str)
    ensures
        r@ == source_kind_spec(connector_slot@),
{
    if connector_slot.is_empty() {
        "runtime_native"
    } else {
        "connector_backed"
    }
}

/// What the runtime reports of a tool.
pub fn capability_spec(tool: &ToolDefinition) -> (c: CapabilitySpec)
    ensures
        capability_of(tool_model(*tool), c),
{
    let slot = connector_slot(tool);
    let kind = source_kind(slot.as_str());
    CapabilitySpec {
        capability_id: tool.tool_name.clone(),
        display_name: tool.display_name.clone(),
        domain: tool.category.clone(),
        risk_level: tool.risk_level.clone(),
        input_schema: tool.input_schema.clone(),
        output_kind: tool.output_kind.clone(),
        side_effect_level: owned(side_effect_level(tool)),
        supports_modes: supports_modes(tool),
        verification_policy: owned(verification_policy(tool)),
        source_kind: owned(kind),
        connector_slot: slot,
        requires_confirmation: tool.requires_confirmation,
    }
}

/// The capability reports of a list of tools, in the same order.
pub fn capability_specs(tools: &[ToolDefinition]) -> (items: Vec<CapabilitySpec>)
    ensures
        items@.len() == tools@.len(),
        forall|i: int| 0 <= i < tools@.len() ==> capability_of(tool_model(#[trigger] tools@[i]), items@[i]),
{
    let mut items: Vec<CapabilitySpec> = Vec::new();
    let mut i: usize = 0;
    while i < tools.len()
        invariant
            i <= tools@.len(),
            items@.len() == i,
            forall|j: int| 0 <= j < i ==> capability_of(tool_model(#[trigger] tools@[j]), items@[j]),
        decreases tools.len() - i,
    {
        items.push(capability_spec(&tools[i]));
        i = i + 1;
    }
    items
}

/// The field names a tool's input schema requires.
pub open spec fn schema_required_spec(schema: Seq<char>) -> Seq<Seq<char>> {
    if schema == "command_text"@ {
        seq!["command"@]
    } else if schema == "path"@ {
        seq!["path"@]
    } else if schema == "path_and_content"@ {
        seq!["path"@, "content"@]
    } else if schema == "memory_entry"@ {
        seq!["kind"@, "summary"@, "content"@]
    } else if schema == "query"@ {
        seq!["query"@]
    } else {
        seq![]
    }
}

/// The field names a tool's input schema requires.
pub fn tool_schema_required(input_schema: &str) -> (names: Vec<&'static str>)
    ensures
        names@.map_values(|n: &str| n@) == schema_required_spec(input_schema@),
{
    let mut names: Vec<&'static str> = Vec::new();
    if str_eq(input_schema, "command_text") {
        names.push("command");
    } else if str_eq(input_schema, "path") {
        names.push("path");
    } else if str_eq(input_schema, "path_and_content") {
        names.push("path");
        names.push("content");
    } else if str_eq(input_schema, "memory_entry") {
        names.push("kind");
        names.push("summary");
        names.push("content");
    } else if str_eq(input_schema, "query") {
        names.push("query");
    }
    assert(names@.map_values(|n: &str| n@) =~= schema_required_spec(input_schema@));
    names
}

/// The JSON object of a tool's input properties, as `serde_json` writes it
/// (keys in order, no spaces).
pub open spec fn schema_properties_spec(schema: Seq<char>) -> Seq<char> {
    if schema == "command_text"@ {
        "{\"command\":{\"description\":\"The command line string to execute\",\"type\":\"string\"}}"@
    } else if schema == "path"@ {
        "{\"path\":{\"description\":\"The file or directory path\",\"type\":\"string\"}}"@
    } else if schema == "path_and_content"@ {
        "{\"content\":{\"description\":\"The content to write\",\"type\":\"string\"},\"path\":{\"description\":\"The file path\",\"type\":\"string\"}}"@
    } else if schema == "optional_path"@ {
        "{\"path\":{\"description\":\"The file or directory path (optional)\",\"type\":\"string\"}}"@
    } else if schema == "memory_entry"@ {
        "{\"content\":{\"description\":\"The full content of the memory\",\"type\":\"string\"},\"kind\":{\"description\":\"The category of memory\",\"type\":\"string\"},\"summary\":{\"description\":\"A short summary of the memory\",\"type\":\"string\"}}"@
    } else if schema == "query"@ {
        "{\"query\":{\"description\":\"The search term or query string\",\"type\":\"string\"}}"@
    } else {
        "{}"@
    }
}

/// The JSON object of a tool's input properties (see `schema_properties_spec`).
pub fn tool_schema_properties(input_schema: &str) -> (r: &'static str)
    ensures
        r@ == schema_properties_spec(input_schema@),
{
    if str_eq(input_schema, "command_text") {
        "{\"command\":{\"description\":\"The command line string to execute\",\"type\":\"string\"}}"
    } else if str_eq(input_schema, "path") {
        "{\"path\":{\"description\":\"The file or directory path\",\"type\":\"string\"}}"
    } else if str_eq(input_schema, "path_and_content") {
        "{\"content\":{\"description\":\"The content to write\",\"type\":\"string\"},\"path\":{\"description\":\"The file path\",\"type\":\"string\"}}"
    } else if str_eq(input_schema, "optional_path") {
        "{\"path\":{\"description\":\"The file or directory path (optional)\",\"type\":\"string\"}}"
    } else if str_eq(input_schema, "memory_entry") {
        "{\"content\":{\"description\":\"The full content of the memory\",\"type\":\"string\"},\"kind\":{\"description\":\"The category of memory\",\"type\":\"string\"},\"summary\":{\"description\":\"A short summary of the memory\",\"type\":\"string\"}}"
    } else if str_eq(input_schema, "query") {
        "{\"query\":{\"description\":\"The search term or query string\",\"type\":\"string\"}}"
    } else {
        "{}"
    }
}

/// The names, each in double quotes, separated by commas.
pub open spec fn quoted_list(names: Seq<Seq<char>>) -> Seq<char>
    decreases names.len(),
{
    if names.len() == 0 {
        Seq::empty()
    } else if names.len() == 1 {
        "\""@ + names[0] + "\""@
    } else {
        quoted_list(names.drop_last()) + ",\""@ + names.last() + "\""@
    }
}

/// A JSON array of the given names, in order.
pub open spec fn json_name_array(names: Seq<Seq<char>>) -> Seq<char> {
    "["@ + quoted_list(names) + "]"@
}

/// The parameters object of a tool's function schema: its properties, the
/// names it requires when there are any, and the object type.
pub open spec fn schema_parameters_spec(schema: Seq<char>) -> Seq<char> {
    let required = schema_required_spec(schema);
    "{\"properties\":"@ + schema_properties_spec(schema) + (if required.len() == 0 {
        Seq::empty()
    } else {
        ",\"required\":"@ + json_name_array(required)
    }) + ",\"type\":\"object\"}"@
}

/// The function-calling schema of a tool, as `serde_json` writes it: a
/// function named by the tool, described by its display name, with the
/// parameters of its input schema.
pub open spec fn tool_json_schema_spec(t: ToolModel) -> Seq<char> {
    "{\"function\":{\"description\":"@ + json_string_text(t.1) + ",\"name\":"@ + json_string_text(t.0)
        + ",\"parameters\":"@ + schema_parameters_spec(t.4) + "},\"type\":\"function\"}"@
}

fn required_array(names: &Vec<&'static str>) -> (r: String)
    ensures
        r@ == json_name_array(names@.map_values(|n: &str| n@)),
{
    let ghost ns = names@.map_values(|n: &str| n@);
    let mut out = String::from_str("[");
    let mut i: usize = 0;
    while i < names.len()
        invariant
            i <= names@.len(),
            ns == names@.map_values(|n: &str| n@),
            out@ == "["@ + quoted_list(ns.subrange(0, i as int)),
        decreases names.len() - i,
    {
        let ghost before = out@;
        if i > 0 {
            push_str(&mut out, ",");
        }
        push_str(&mut out, "\"");
        push_str(&mut out, names[i]);
        push_str(&mut out, "\"");
        proof {
            let sub = ns.subrange(0, i as int + 1);
            assert(sub.drop_last() =~= ns.subrange(0, i as int));
            assert(sub.last() == names@[i as int]@);
            if i == 0 {
                assert(ns.subrange(0, 0) =~= Seq::<Seq<char>>::empty());
                assert(out@ =~= "["@ + quoted_list(sub));
            } else {
                reveal_strlit(",");
                reveal_strlit("\"");
                reveal_strlit(",\"");
                assert(out@ =~= "["@ + quoted_list(sub));
            }
        }
        i = i + 1;
    }
    proof {
        assert(ns.subrange(0, names@.len() as int) =~= ns);
    }
    push_str(&mut out, "]");
    out
}

/// The function-calling schema of a tool (see `tool_json_schema_spec`).
pub fn tool_definition_to_json_schema(tool: &ToolDefinition) -> (r: String)
    ensures
        r@ == tool_json_schema_spec(tool_model(*tool)),
{
    let mut out = String::from_str("{\"function\":{\"description\":");
    push_str(&mut out, json_string(tool.display_name.as_str()).as_str());
    push_str(&mut out, ",\"name\":");
    push_str(&mut out, json_string(tool.tool_name.as_str()).as_str());
    push_str(&mut out, ",\"parameters\":");
    let ghost before = out@;
    push_str(&mut out, "{\"properties\":");
    push_str(&mut out, tool_schema_properties(tool.input_schema.as_str()));
    let required = tool_schema_required(tool.input_schema.as_str());
    if required.len() > 0 {
        push_str(&mut out, ",\"required\":");
        push_str(&mut out, required_array(&required).as_str());
    }
    push_str(&mut out, ",\"type\":\"object\"}");
    proof {
        assert(out@ =~= before + schema_parameters_spec(tool.input_schema@));
    }
    push_str(&mut out, "},\"type\":\"function\"}");
    proof {
        assert(out@ =~= tool_json_schema_spec(tool_model(*tool)));
    }
    out
}

} // verus!

verus! {

// ---------------------------------------------------------------------------
// Connection slots
// ---------------------------------------------------------------------------

/// An external connection slot and the native tools that currently fill it.
#[derive(Clone, Debug)]
pub struct ExternalConnectionSlot {
    pub slot_id: String,
    pub display_name: String,
    pub priority: u8,
    pub status: String,
    pub scope: String,
    pub current_tools: Vec<String>,
    pub boundary: String,
    pub next_step: String,
}

/// The fields of a slot as character sequences (its scope is always `external_connection`).
pub type SlotModel = (Seq<char>, Seq<char>, u8, Seq<char>, Seq<Seq<char>>, Seq<char>, Seq<char>);

pub open spec fn slot_model(s: ExternalConnectionSlot) -> SlotModel {
    (s.slot_id@, s.display_name@, s.priority, s.status@, s.current_tools@.map_values(|t: String| t@), s.boundary@, s.next_step@)
}

pub open spec fn local_files_slot_model() -> SlotModel {
    (
        "local_files_project"@,
        "本地文件与项目目录"@,
        1,
        "active"@,
        seq!["workspace_list"@, "workspace_read"@, "workspace_write"@, "workspace_delete"@, "run_command"@],
        "继续作为主链路第一优先级，不引入外部 SaaS 依赖。"@,
        "后续只补项目目录理解与浏览器侧摘录衔接，不额外分叉连接器。"@,
    )
}

pub open spec fn local_notes_slot_model() -> SlotModel {
    (
        "local_notes_knowledge"@,
        "本地笔记与知识库"@,
        2,
        "active"@,
        seq!["knowledge_search"@, "search_siyuan_notes"@, "read_siyuan_note"@, "write_siyuan_knowledge"@],
        "继续坚持 SQLite 主索引、思源外挂正文库，不让笔记系统承接高频主存储。"@,
        "下一阶段优先补浏览器摘录入库，再继续完善笔记侧沉淀入口。"@,
    )
}

pub open spec fn browser_capture_slot_model() -> SlotModel {
    (
        "browser_capture_ingest"@,
        "浏览器摘录与网页入库"@,
        3,
        "reserved"@,
        seq!["knowledge_search"@, "write_siyuan_knowledge"@, "project_answer"@],
        "本阶段只保留知识读写接入口，不提前接重型浏览器插件或云同步。"@,
        "后续在现有知识读写链路旁补摘录导入入口，优先落到知识层而不是新数据库。"@,
    )
}

pub open spec fn personal_management_slot_model() -> SlotModel {
    (
        "calendar_reminder_management"@,
        "日历、提醒与更重的个人管理连接"@,
        4,
        "reserved"@,
        seq!["session_context"@, "project_answer"@],
        "当前阶段只保留规划位，不接日历、提醒、任务中心等重连接器。"@,
        "只有前 3 类连接稳定后，才考虑把个人管理动作接进执行层。"@,
    )
}

/// The four slots, by priority.
pub open spec fn slot_models() -> Seq<SlotModel> {
    seq![local_files_slot_model(), local_notes_slot_model(), browser_capture_slot_model(), personal_management_slot_model()]
}

pub open spec fn supported_actions_spec(slot_id: Seq<char>) -> Seq<Seq<char>> {
    if slot_id == "local_files_project"@ || slot_id == "local_notes_knowledge"@ {
        seq!["recheck"@]
    } else {
        seq![]
    }
}

/// What the runtime reports of an external connection slot, field by field.
pub open spec fn connector_of(s: SlotModel, c: ConnectorSlotSpec) -> bool {
    connector_fields(s, c) && c.scope@ == "external_connection"@
}

/// The report's fields taken from a slot, all but its scope.
pub open spec fn connector_fields(s: SlotModel, c: ConnectorSlotSpec) -> bool {
    &&& c.slot_id@ == s.0
    &&& c.display_name@ == s.1
    &&& c.priority == s.2
    &&& c.status@ == s.3
    &&& c.current_capabilities@.map_values(|t: String| t@) == s.4
    &&& c.supported_actions@.map_values(|t: String| t@) == supported_actions_spec(s.0)
    &&& c.boundary@ == s.5
    &&& c.next_step@ == s.6
}

/// Copies of string slices, in order.
pub fn owned_all(items: &[&str]) -> (out: Vec<String>)
    ensures
        out@.map_values(|t: String| t@) == items@.map_values(|t: &str| t@),
{
    let mut out: Vec<String> = Vec::new();
    let mut i: usize = 0;
    while i < items.len()
        invariant
            i <= items@.len(),
            out@.len() == i,
            forall|j: int| 0 <= j < i ==> (#[trigger] out@[j])@ == items@[j]@,
        decreases items.len() - i,
    {
        out.push(owned(items[i]));
        i = i + 1;
    }
    assert(out@.map_values(|t: String| t@) =~= items@.map_values(|t: &str| t@));
    out
}

/// Copies of strings, in order.
pub fn copy_strings(items: &Vec<String>) -> (out: Vec<String>)
    ensures
        out@.map_values(|t: String| t@) == items@.map_values(|t: String| t@),
{
    let mut out: Vec<String> = Vec::new();
    let mut i: usize = 0;
    while i < items.len()
        invariant
            i <= items@.len(),
            out@.len() == i,
            forall|j: int| 0 <= j < i ==> (#[trigger] out@[j])@ == items@[j]@,
        decreases items.len() - i,
    {
        out.push(items[i].clone());
        i = i + 1;
    }
    assert(out@.map_values(|t: String| t@) =~= items@.map_values(|t: String| t@));
    out
}

fn make_slot(
    slot_id: &str,
    display_name: &str,
    priority: u8,
    status: &str,
    current_tools: &[&str],
    boundary: &str,
    next_step: &str,
) -> (s: ExternalConnectionSlot)
    ensures
        slot_model(s) == (slot_id@, display_name@, priority, status@, current_tools@.map_values(|t: &str| t@), boundary@, next_step@),
        s.scope@ == "external_connection"@,
{
    ExternalConnectionSlot {
        slot_id: owned(slot_id),
        display_name: owned(display_name),
        priority,
        status: owned(status),
        scope: owned("external_connection"),
        current_tools: owned_all(current_tools),
        boundary: owned(boundary),
        next_step: owned(next_step),
    }
}

fn local_files_slot() -> (s: ExternalConnectionSlot)
    ensures
        slot_model(s) == local_files_slot_model(),
        s.scope@ == "external_connection"@,
{
    let tools = ["workspace_list", "workspace_read", "workspace_write", "workspace_delete", "run_command"];
    let s = make_slot(
        "local_files_project",
        "本地文件与项目目录",
        1,
        "active",
        &tools,
        "继续作为主链路第一优先级，不引入外部 SaaS 依赖。",
        "后续只补项目目录理解与浏览器侧摘录衔接，不额外分叉连接器。",
    );
    assert(tools@.map_values(|t: &str| t@) =~= local_files_slot_model().4);
    s
}

fn local_notes_slot() -> (s: ExternalConnectionSlot)
    ensures
        slot_model(s) == local_notes_slot_model(),
        s.scope@ == "external_connection"@,
{
    let tools = ["knowledge_search", "search_siyuan_notes", "read_siyuan_note", "write_siyuan_knowledge"];
    let s = make_slot(
        "local_notes_knowledge",
        "本地笔记与知识库",
        2,
        "active",
        &tools,
        "继续坚持 SQLite 主索引、思源外挂正文库，不让笔记系统承接高频主存储。",
        "下一阶段优先补浏览器摘录入库，再继续完善笔记侧沉淀入口。",
    );
    assert(tools@.map_values(|t: &str| t@) =~= local_notes_slot_model().4);
    s
}

fn browser_capture_slot() -> (s: ExternalConnectionSlot)
    ensures
        slot_model(s) == browser_capture_slot_model(),
        s.scope@ == "external_connection"@,
{
    let tools = ["knowledge_search", "write_siyuan_knowledge", "project_answer"];
    let s = make_slot(
        "browser_capture_ingest",
        "浏览器摘录与网页入库",
        3,
        "reserved",
        &tools,
        "本阶段只保留知识读写接入口，不提前接重型浏览器插件或云同步。",
        "后续在现有知识读写链路旁补摘录导入入口，优先落到知识层而不是新数据库。",
    );
    assert(tools@.map_values(|t: &str| t@) =~= browser_capture_slot_model().4);
    s
}

fn personal_management_slot() -> (s: ExternalConnectionSlot)
    ensures
        slot_model(s) == personal_management_slot_model(),
        s.scope@ == "external_connection"@,
{
    let tools = ["session_context", "project_answer"];
    let s = make_slot(
        "calendar_reminder_management",
        "日历、提醒与更重的个人管理连接",
        4,
        "reserved",
        &tools,
        "当前阶段只保留规划位，不接日历、提醒、任务中心等重连接器。",
        "只有前 3 类连接稳定后，才考虑把个人管理动作接进执行层。",
    );
    assert(tools@.map_values(|t: &str| t@) =~= personal_management_slot_model().4);
    s
}

/// The four external connection slots, by priority.
pub fn external_connection_slots() -> (slots: Vec<ExternalConnectionSlot>)
    ensures
        slots@.map_values(|s: ExternalConnectionSlot| slot_model(s)) == slot_models(),
        forall|j: int| 0 <= j < slots@.len() ==> (#[trigger] slots@[j]).scope@ == "external_connection"@,
{
    let mut slots: Vec<ExternalConnectionSlot> = Vec::new();
    slots.push(local_files_slot());
    slots.push(local_notes_slot());
    slots.push(browser_capture_slot());
    slots.push(personal_management_slot());
    assert(slots@.map_values(|s: ExternalConnectionSlot| slot_model(s)) =~= slot_models());
    slots
}

fn supported_actions(slot_id: &str) -> (actions: Vec<String>)
    ensures
        actions@.map_values(|t: String| t@) == supported_actions_spec(slot_id@),
{
    let mut actions: Vec<String> = Vec::new();
    if str_eq(slot_id, "local_files_project") || str_eq(slot_id, "local_notes_knowledge") {
        actions.push(owned("recheck"));
    }
    assert(actions@.map_values(|t: String| t@) =~= supported_actions_spec(slot_id@));
    actions
}

/// What the runtime reports of a slot.
pub fn connector_slot_spec(slot: &ExternalConnectionSlot) -> (c: ConnectorSlotSpec)
    ensures
        connector_fields(slot_model(*slot), c),
        c.scope@ == slot.scope@,
{
    ConnectorSlotSpec {
        slot_id: slot.slot_id.clone(),
        display_name: slot.display_name.clone(),
        priority: slot.priority,
        status: slot.status.clone(),
        scope: slot.scope.clone(),
        current_capabilities: copy_strings(&slot.current_tools),
        supported_actions: supported_actions(slot.slot_id.as_str()),
        boundary: slot.boundary.clone(),
        next_step: slot.next_step.clone(),
    }
}

/// The capability list of the native tools that `mode` may use.
pub fn capability_catalog(mode: &str) -> (r: CapabilityListResponse)
    ensures
        r.items@.len() == visible_models(mode@).len(),
        forall|i: int| 0 <= i < r.items@.len() ==> capability_of(#[trigger] visible_models(mode@)[i], r.items@[i]),
{
    let tools = visible_tools(mode);
    let items = capability_specs(tools.as_slice());
    proof {
        assert forall|i: int| 0 <= i < items@.len() implies capability_of(#[trigger] visible_models(mode@)[i], items@[i]) by {
            assert(tools@.map_values(|t: ToolDefinition| tool_model(t))[i] == tool_model(tools@[i]));
        }
    }
    CapabilityListResponse { items }
}

/// The report of every external connection slot, by priority.
pub fn connector_catalog() -> (r: ConnectorListResponse)
    ensures
        r.items@.len() == 4,
        forall|i: int| 0 <= i < 4 ==> connector_of(#[trigger] slot_models()[i], r.items@[i]),
{
    let slots = external_connection_slots();
    assert(slots@.map_values(|s: ExternalConnectionSlot| slot_model(s)).len() == slots@.len());
    assert(slots@.len() == 4);
    let mut items: Vec<ConnectorSlotSpec> = Vec::new();
    let mut i: usize = 0;
    while i < slots.len()
        invariant
            i <= slots@.len(),
            slots@.map_values(|s: ExternalConnectionSlot| slot_model(s)) == slot_models(),
            forall|j: int| 0 <= j < slots@.len() ==> (#[trigger] slots@[j]).scope@ == "external_connection"@,
            items@.len() == i,
            forall|j: int| 0 <= j < i ==> connector_of(#[trigger] slot_models()[j], items@[j]),
        decreases slots.len() - i,
    {
        assert(slot_models()[i as int] == slots@.map_values(|s: ExternalConnectionSlot| slot_model(s))[i as int]);
        items.push(connector_slot_spec(&slots[i]));
        i = i + 1;
    }
    ConnectorListResponse { items }
}

/// The capability list for a request: the native tools that its mode may
/// use, then the MCP tools it offers that may be called directly.
pub fn capability_catalog_for_request(request: &RunRequest, mcp_specs: Vec<MCPToolSpec>) -> (r: CapabilityListResponse)
    ensures
        ({
            let native = visible_models(request.mode@);
            let mcp = executable_specs_spec(mcp_specs@);
            &&& r.items@.len() == native.len() + mcp.len()
            &&& forall|i: int| 0 <= i < native.len() ==> capability_of(#[trigger] native[i], r.items@[i])
            &&& forall|k: int| 0 <= k < mcp.len() ==> capability_of(mcp_tool_model(#[trigger] mcp[k]), r.items@[native.len() + k])
        }),
{
    let mut tools = visible_tools(request.mode.as_str());
    let ghost native_tools = tools@;
    let mut extra = mcp_tool_definitions(mcp_specs);
    let ghost mcp_tools = extra@;
    tools.append(&mut extra);
    let items = capability_specs(tools.as_slice());
    proof {
        let native = visible_models(request.mode@);
        assert forall|i: int| 0 <= i < native.len() implies capability_of(#[trigger] native[i], items@[i]) by {
            assert(native_tools.map_values(|t: ToolDefinition| tool_model(t))[i] == tool_model(native_tools[i]));
            assert(tools@[i] == native_tools[i]);
        }
        let mcp = executable_specs_spec(mcp_specs@);
        assert forall|k: int| 0 <= k < mcp.len() implies capability_of(mcp_tool_model(#[trigger] mcp[k]), items@[native.len() + k]) by {
            assert(tools@[native_tools.len() + k] == mcp_tools[k]);
            assert(native_tools.map_values(|t: ToolDefinition| tool_model(t)).len() == native_tools.len());
        }
    }
    CapabilityListResponse { items }
}


/// The tools of the catalog a mode sees.
pub open spec fn mode_tools(mode: Seq<char>) -> Seq<ToolModel> {
    catalog_models().filter(|m: ToolModel| allows_spec(mode, m))
}

/// The observe mode sees no tool of a mutating category (workspace writes,
/// system commands, memory writes), and every mode sees only tools of the
/// catalog.
pub proof fn observe_mode_hides_mutating_categories_law(mode: Seq<char>)
    ensures
        forall|i: int| 0 <= i < mode_tools("observe"@).len() ==> !is_mutating_spec(#[trigger] mode_tools("observe"@)[i].2),
        forall|i: int| 0 <= i < mode_tools(mode).len() ==> catalog_models().contains(#[trigger] mode_tools(mode)[i]),
{
    broadcast use vstd::seq_lib::group_filter_ensures;
    let any = |m: ToolModel| allows_spec(mode, m);
    assert forall|i: int| 0 <= i < mode_tools(mode).len() implies catalog_models().contains(#[trigger] mode_tools(mode)[i]) by {
        assert(mode_tools(mode).contains(mode_tools(mode)[i]));
        catalog_models().lemma_filter_contains_rev(any, mode_tools(mode)[i]);
    }
}

} // verus!
