//! Assembling the context a prompt carries: the static role and mode text,
//! the project block, and the dynamic block with the session, memory and
//! knowledge digests, the tool preview, the hand-off hint, the observation
//! injection and the skill and evidence fields a policy selects. The host
//! recalls memory, builds the knowledge pack and the observation injection,
//! and reads the status documents.
use vstd::prelude::*;
use crate::capabilities::ToolDefinition;
use crate::context_policy::ContextAssemblyPolicy;
use crate::contracts::{RunRequest, WorkspaceDocSummary};
use crate::memory_layer::{digest_route_summary, route_summary_spec};
use crate::memory_recall::MemoryDigest;
use crate::session::SessionMemory;
use crate::text::{
    contains, has_sub, is_blank, join, join_strings, push_str, str_eq, summarize_text, summary_of, trim, trimmed,
    views,
};

verus! {

/// The role and mode text of a prompt.
#[derive(Clone, Debug)]
pub struct StaticPromptBlock {
    pub role_prompt: String,
    pub mode_prompt: String,
}

/// What a prompt says of the project.
#[derive(Clone, Debug)]
pub struct ProjectPromptBlock {
    pub workspace_root: String,
    pub repo_summary: String,
    pub doc_summary: String,
}

/// The dynamic part of a prompt.
#[derive(Clone, Debug)]
pub struct DynamicPromptBlock {
    pub user_input: String,
    pub assembly_profile: String,
    pub prompt_profile: String,
    pub includes_session: bool,
    pub includes_memory: bool,
    pub includes_knowledge: bool,
    pub includes_tool_preview: bool,
    pub skill_injection_enabled: bool,
    pub max_skill_level: String,
    pub injected_skill_level: String,
    pub injected_skill_ids: String,
    pub evidence_refs: String,
    pub phase_label: String,
    pub selection_reason: String,
    pub injection_summary: String,
    pub prefers_artifact_context: bool,
    pub session_summary: String,
    pub memory_digest: String,
    pub memory_has_system_views: bool,
    pub memory_has_current_objects: bool,
    pub memory_current_object_count: usize,
    pub memory_route: String,
    pub memory_selected_layers: String,
    pub memory_match_reason: String,
    pub memory_reuse_confidence: String,
    pub memory_skipped_layers: String,
    pub knowledge_digest: String,
    pub knowledge_pack_question_type: String,
    pub knowledge_pack_citations: String,
    pub knowledge_pack_match_reason: String,
    pub tool_preview: String,
    pub artifact_hint: String,
    pub observation_injection: String,
    pub observation_references: String,
    pub observation_budget_total: usize,
    pub observation_budget_used: usize,
    pub observation_budget_hit: bool,
    pub observation_budget_total_tokens: usize,
    pub observation_budget_used_tokens: usize,
    pub observation_budget_hit_tokens: bool,
    pub reasoning_summary: String,
    pub cache_status: String,
    pub cache_reason: String,
}

/// A dynamic block with every text empty, every flag off and every count zero.
pub open spec fn is_empty_block(b: DynamicPromptBlock) -> bool {
    &&& b.user_input@.len() == 0 && b.assembly_profile@.len() == 0 && b.prompt_profile@.len() == 0
    &&& !b.includes_session && !b.includes_memory && !b.includes_knowledge && !b.includes_tool_preview
    &&& !b.skill_injection_enabled && b.max_skill_level@.len() == 0 && b.injected_skill_level@.len() == 0
    &&& b.injected_skill_ids@.len() == 0 && b.evidence_refs@.len() == 0 && b.phase_label@.len() == 0
    &&& b.selection_reason@.len() == 0 && b.injection_summary@.len() == 0 && !b.prefers_artifact_context
    &&& b.session_summary@.len() == 0 && b.memory_digest@.len() == 0 && !b.memory_has_system_views
    &&& !b.memory_has_current_objects && b.memory_current_object_count == 0 && b.memory_route@.len() == 0
    &&& b.memory_selected_layers@.len() == 0 && b.memory_match_reason@.len() == 0
    &&& b.memory_reuse_confidence@.len() == 0 && b.memory_skipped_layers@.len() == 0
    &&& b.knowledge_digest@.len() == 0 && b.knowledge_pack_question_type@.len() == 0
    &&& b.knowledge_pack_citations@.len() == 0 && b.knowledge_pack_match_reason@.len() == 0
    &&& b.tool_preview@.len() == 0 && b.artifact_hint@.len() == 0 && b.observation_injection@.len() == 0
    &&& b.observation_references@.len() == 0 && b.observation_budget_total == 0 && b.observation_budget_used == 0
    &&& !b.observation_budget_hit && b.observation_budget_total_tokens == 0 && b.observation_budget_used_tokens == 0
    &&& !b.observation_budget_hit_tokens && b.reasoning_summary@.len() == 0 && b.cache_status@.len() == 0
    &&& b.cache_reason@.len() == 0
}

impl Default for DynamicPromptBlock {
    fn default() -> (b: Self)
        ensures
            is_empty_block(b),
    {
        DynamicPromptBlock {
            user_input: String::new(),
            assembly_profile: String::new(),
            prompt_profile: String::new(),
            includes_session: false,
            includes_memory: false,
            includes_knowledge: false,
            includes_tool_preview: false,
            skill_injection_enabled: false,
            max_skill_level: String::new(),
            injected_skill_level: String::new(),
            injected_skill_ids: String::new(),
            evidence_refs: String::new(),
            phase_label: String::new(),
            selection_reason: String::new(),
            injection_summary: String::new(),
            prefers_artifact_context: false,
            session_summary: String::new(),
            memory_digest: String::new(),
            memory_has_system_views: false,
            memory_has_current_objects: false,
            memory_current_object_count: 0,
            memory_route: String::new(),
            memory_selected_layers: String::new(),
            memory_match_reason: String::new(),
            memory_reuse_confidence: String::new(),
            memory_skipped_layers: String::new(),
            knowledge_digest: String::new(),
            knowledge_pack_question_type: String::new(),
            knowledge_pack_citations: String::new(),
            knowledge_pack_match_reason: String::new(),
            tool_preview: String::new(),
            artifact_hint: String::new(),
            observation_injection: String::new(),
            observation_references: String::new(),
            observation_budget_total: 0,
            observation_budget_used: 0,
            observation_budget_hit: false,
            observation_budget_total_tokens: 0,
            observation_budget_used_tokens: 0,
            observation_budget_hit_tokens: false,
            reasoning_summary: String::new(),
            cache_status: String::new(),
            cache_reason: String::new(),
        }
    }
}

// ---------------------------------------------------------------------------
// Static and project blocks
// ---------------------------------------------------------------------------

/// The role of the agent.
pub const ROLE_PROMPT: &'static str = "你是本地智能体，负责在当前工作区内完成真实任务。";

/// The text of a mode: observe, full access, or standard for any other.
pub open spec fn mode_prompt_spec(mode: Seq<char>) -> Seq<char> {
    if mode == "observe"@ {
        "当前模式为 `observe`。只允许观察、读取、检索和解释，不允许执行任何修改性动作。"@
    } else if mode == "full_access"@ {
        "当前模式为 `full_access`。允许执行全部已注册能力，但高危删除和危险命令仍必须经过风险确认。"@
    } else {
        "当前模式为 `standard`。允许常见开发读写与任务推进，但高级写入能力和高危动作仍受边界控制。"@
    }
}

/// The text of a mode (see `mode_prompt_spec`).
pub fn mode_prompt_text(mode: &str) -> (r: String)
    ensures
        r@ == mode_prompt_spec(mode@),
{
    if str_eq(mode, "observe") {
        String::from_str("当前模式为 `observe`。只允许观察、读取、检索和解释，不允许执行任何修改性动作。")
    } else if str_eq(mode, "full_access") {
        String::from_str("当前模式为 `full_access`。允许执行全部已注册能力，但高危删除和危险命令仍必须经过风险确认。")
    } else {
        String::from_str("当前模式为 `standard`。允许常见开发读写与任务推进，但高级写入能力和高危动作仍受边界控制。")
    }
}

/// The role and mode text of a request.
pub fn static_prompt_block(request: &RunRequest) -> (b: StaticPromptBlock)
    ensures
        b.role_prompt@ == ROLE_PROMPT@,
        b.mode_prompt@ == mode_prompt_spec(request.mode@),
{
    StaticPromptBlock { role_prompt: String::from_str(ROLE_PROMPT), mode_prompt: mode_prompt_text(request.mode.as_str()) }
}

/// One document summary as the project block lists it.
pub open spec fn doc_line(d: WorkspaceDocSummary) -> Seq<char> {
    d.path@ + ": "@ + d.summary@
}

/// The documents of the project block: their summaries joined and
/// summarized, or a note that none was found.
pub open spec fn doc_summary_spec(docs: Seq<WorkspaceDocSummary>) -> Seq<char> {
    if docs.len() == 0 {
        "当前没有命中高价值说明文件。"@
    } else {
        summary_of(join(docs.map_values(|d: WorkspaceDocSummary| doc_line(d)), " || "@))
    }
}

/// The documents of the project block (see `doc_summary_spec`).
pub fn repo_doc_summary(docs: &[WorkspaceDocSummary]) -> (r: String)
    ensures
        r@ == doc_summary_spec(docs@),
{
    if docs.len() == 0 {
        return String::from_str("当前没有命中高价值说明文件。");
    }
    let mut parts: Vec<String> = Vec::new();
    let mut i: usize = 0;
    while i < docs.len()
        invariant
            i <= docs@.len(),
            views(parts@) == docs@.take(i as int).map_values(|d: WorkspaceDocSummary| doc_line(d)),
        decreases docs.len() - i,
    {
        let mut line = docs[i].path.clone();
        push_str(&mut line, ": ");
        push_str(&mut line, docs[i].summary.as_str());
        let ghost before = parts@;
        parts.push(line);
        assert(views(parts@) =~= views(before).push(doc_line(docs@[i as int])));
        assert(views(parts@) =~= docs@.take(i + 1).map_values(|d: WorkspaceDocSummary| doc_line(d)));
        i = i + 1;
    }
    assert(docs@.take(docs@.len() as int) =~= docs@);
    let joined = join_strings(parts.as_slice(), " || ");
    assert(parts@.map_values(|s: String| s@) =~= views(parts@));
    summarize_text(joined.as_str())
}

/// The project block: the workspace root, the repository summary the host
/// gave, and the document summary.
pub fn project_prompt_block(workspace_root: &str, repo_summary: &str, docs: &[WorkspaceDocSummary]) -> (b: ProjectPromptBlock)
    ensures
        b.workspace_root@ == workspace_root@,
        b.repo_summary@ == repo_summary@,
        b.doc_summary@ == doc_summary_spec(docs@),
{
    ProjectPromptBlock {
        workspace_root: String::from_str(workspace_root),
        repo_summary: String::from_str(repo_summary),
        doc_summary: repo_doc_summary(docs),
    }
}

// ---------------------------------------------------------------------------
// Skill, evidence and injection fields
// ---------------------------------------------------------------------------

/// The skill level injected: the policy's maximum, or `disabled`.
pub open spec fn skill_level_spec(p: ContextAssemblyPolicy) -> Seq<char> {
    if p.skill_injection_enabled {
        p.max_skill_level@
    } else {
        "disabled"@
    }
}

/// The skill level injected (see `skill_level_spec`).
pub fn effective_skill_level(policy: &ContextAssemblyPolicy) -> (r: String)
    ensures
        r@ == skill_level_spec(*policy),
{
    if policy.skill_injection_enabled {
        policy.max_skill_level.clone()
    } else {
        String::from_str("disabled")
    }
}

/// A hint of the request when it is present and not blank, else the default.
pub open spec fn hint_or(hints: Map<Seq<char>, Seq<char>>, key: Seq<char>, default: Seq<char>) -> Seq<char> {
    if hints.contains_key(key) && !is_blank(hints[key]) {
        hints[key]
    } else {
        default
    }
}

fn hint_or_default(request: &RunRequest, key: &str, default: &str) -> (r: String)
    ensures
        r@ == hint_or(request.context_hints@, key@, default@),
{
    match request.context_hints.get(key) {
        Some(v) => {
            if !crate::text::blank(v.as_str()) {
                return v;
            }
            String::from_str(default)
        },
        None => String::from_str(default),
    }
}

/// The skills injected: `none` unless the policy enables injection, then
/// the request's `skill_ids` hint or `none`.
pub open spec fn skill_ids_spec(request: RunRequest, p: ContextAssemblyPolicy) -> Seq<char> {
    if !p.skill_injection_enabled {
        "none"@
    } else {
        hint_or(request.context_hints@, "skill_ids"@, "none"@)
    }
}

/// The skills injected (see `skill_ids_spec`).
pub fn injected_skill_ids(request: &RunRequest, policy: &ContextAssemblyPolicy) -> (r: String)
    ensures
        r@ == skill_ids_spec(*request, *policy),
{
    if !policy.skill_injection_enabled {
        return String::from_str("none");
    }
    hint_or_default(request, "skill_ids", "none")
}

/// The evidence referred to: `none` without memory or knowledge, else the
/// request's `evidence_refs` hint or `observation`.
pub open spec fn evidence_refs_spec(request: RunRequest, p: ContextAssemblyPolicy) -> Seq<char> {
    if !p.include_memory && !p.include_knowledge {
        "none"@
    } else {
        hint_or(request.context_hints@, "evidence_refs"@, "observation"@)
    }
}

/// The evidence referred to (see `evidence_refs_spec`).
pub fn evidence_refs(request: &RunRequest, policy: &ContextAssemblyPolicy) -> (r: String)
    ensures
        r@ == evidence_refs_spec(*request, *policy),
{
    if !policy.include_memory && !policy.include_knowledge {
        return String::from_str("none");
    }
    hint_or_default(request, "evidence_refs", "observation")
}

/// The labels of the blocks a policy injects, in their order.
pub open spec fn injection_parts(p: ContextAssemblyPolicy) -> Seq<Seq<char>> {
    let a: Seq<Seq<char>> = if p.include_session { seq!["session digest"@] } else { Seq::empty() };
    let b = if p.include_memory { a.push("memory digest"@) } else { a };
    let c = if p.include_knowledge { b.push("knowledge digest"@) } else { b };
    let d = if p.include_tool_preview { c.push("tool preview"@) } else { c };
    if p.prefer_artifact_context { d.push("artifact hint"@) } else { d }
}

/// What a policy injects, in words.
pub open spec fn injection_summary_spec(p: ContextAssemblyPolicy) -> Seq<char> {
    if injection_parts(p).len() == 0 {
        "当前 profile 未注入额外上下文块。"@
    } else {
        "当前 profile 注入："@ + join(injection_parts(p), " + "@)
    }
}

/// What a policy injects (see `injection_summary_spec`).
pub fn injection_summary(policy: &ContextAssemblyPolicy) -> (r: String)
    ensures
        r@ == injection_summary_spec(*policy),
{
    let mut parts: Vec<&str> = Vec::new();
    if policy.include_session {
        parts.push("session digest");
    }
    if policy.include_memory {
        parts.push("memory digest");
    }
    if policy.include_knowledge {
        parts.push("knowledge digest");
    }
    if policy.include_tool_preview {
        parts.push("tool preview");
    }
    if policy.prefer_artifact_context {
        parts.push("artifact hint");
    }
    assert(parts@.map_values(|s: &str| s@) =~= injection_parts(*policy));
    if parts.len() == 0 {
        return String::from_str("当前 profile 未注入额外上下文块。");
    }
    let mut out = String::from_str("当前 profile 注入：");
    let joined = crate::text::join_strs(parts.as_slice(), " + ");
    push_str(&mut out, joined.as_str());
    out
}

/// The identity fields a policy and a request give a dynamic block.
pub open spec fn identity_fields_spec(b: DynamicPromptBlock, request: RunRequest, p: ContextAssemblyPolicy) -> bool {
    &&& b.user_input@ == request.user_input@
    &&& b.assembly_profile@ == p.profile@
    &&& b.prompt_profile@ == p.prompt_profile@
    &&& b.includes_session == p.include_session
    &&& b.includes_memory == p.include_memory
    &&& b.includes_knowledge == p.include_knowledge
    &&& b.includes_tool_preview == p.include_tool_preview
    &&& b.skill_injection_enabled == p.skill_injection_enabled
    &&& b.max_skill_level@ == p.max_skill_level@
    &&& b.injected_skill_level@ == skill_level_spec(p)
    &&& b.injected_skill_ids@ == skill_ids_spec(request, p)
    &&& b.evidence_refs@ == evidence_refs_spec(request, p)
    &&& b.phase_label@ == p.phase_label@
    &&& b.selection_reason@ == p.selection_reason@
    &&& b.injection_summary@ == injection_summary_spec(p)
    &&& b.prefers_artifact_context == p.prefer_artifact_context
}

/// The identity fields of a dynamic block; the other fields stay as they were.
pub fn fill_identity_fields(block: &mut DynamicPromptBlock, request: &RunRequest, policy: &ContextAssemblyPolicy)
    ensures
        identity_fields_spec(*final(block), *request, *policy),
        final(block).session_summary == old(block).session_summary,
        final(block).memory_digest == old(block).memory_digest,
        final(block).knowledge_digest == old(block).knowledge_digest,
        final(block).tool_preview == old(block).tool_preview,
        final(block).artifact_hint == old(block).artifact_hint,
        final(block).observation_injection == old(block).observation_injection,
        final(block).reasoning_summary == old(block).reasoning_summary,
        final(block).cache_status == old(block).cache_status,
        final(block).cache_reason == old(block).cache_reason,
{
    block.user_input = request.user_input.clone();
    block.assembly_profile = policy.profile.clone();
    block.prompt_profile = policy.prompt_profile.clone();
    block.includes_session = policy.include_session;
    block.includes_memory = policy.include_memory;
    block.includes_knowledge = policy.include_knowledge;
    block.includes_tool_preview = policy.include_tool_preview;
    block.skill_injection_enabled = policy.skill_injection_enabled;
    block.max_skill_level = policy.max_skill_level.clone();
    block.injected_skill_level = effective_skill_level(policy);
    block.injected_skill_ids = injected_skill_ids(request, policy);
    block.evidence_refs = evidence_refs(request, policy);
    block.phase_label = policy.phase_label.clone();
    block.selection_reason = policy.selection_reason.clone();
    block.injection_summary = injection_summary(policy);
    block.prefers_artifact_context = policy.prefer_artifact_context;
}

// ---------------------------------------------------------------------------
// Session, tools and hand-off
// ---------------------------------------------------------------------------

/// The session digest: the session's prompt summary, or a note that the
/// policy does not inject it.
pub fn selected_session_summary(session_prompt_summary: &str, policy: &ContextAssemblyPolicy) -> (r: String)
    ensures
        r@ == if policy.include_session { session_prompt_summary@ } else { "当前阶段未注入会话摘要。"@ },
{
    if policy.include_session {
        String::from_str(session_prompt_summary)
    } else {
        String::from_str("当前阶段未注入会话摘要。")
    }
}

/// One native tool as the preview lists it.
pub open spec fn tool_entry(t: ToolDefinition) -> Seq<char> {
    t.display_name@ + "("@ + t.tool_name@ + ")"@
}

/// The native tools of a list (those not in the `mcp` category).
pub open spec fn native_tools(tools: Seq<ToolDefinition>) -> Seq<ToolDefinition> {
    tools.filter(|t: ToolDefinition| t.category@ != "mcp"@)
}

/// The preview of the native tools, summarized.
pub open spec fn tool_preview_spec(tools: Seq<ToolDefinition>) -> Seq<char> {
    summary_of(join(native_tools(tools).map_values(|t: ToolDefinition| tool_entry(t)), "、"@))
}

/// The preview of the native tools (see `tool_preview_spec`).
pub fn tool_preview(visible_tools: &[ToolDefinition]) -> (r: String)
    ensures
        r@ == tool_preview_spec(visible_tools@),
{
    let ghost f = |t: ToolDefinition| t.category@ != "mcp"@;
    let mut parts: Vec<String> = Vec::new();
    let mut i: usize = 0;
    while i < visible_tools.len()
        invariant
            i <= visible_tools@.len(),
            f == (|t: ToolDefinition| t.category@ != "mcp"@),
            views(parts@) == visible_tools@.take(i as int).filter(f).map_values(|t: ToolDefinition| tool_entry(t)),
        decreases visible_tools.len() - i,
    {
        let t = &visible_tools[i];
        proof {
            assert(visible_tools@.take(i + 1) =~= visible_tools@.take(i as int).push(visible_tools@[i as int]));
            visible_tools@.take(i as int).lemma_filter_push(visible_tools@[i as int], f);
        }
        if !str_eq(t.category.as_str(), "mcp") {
            let mut line = t.display_name.clone();
            push_str(&mut line, "(");
            push_str(&mut line, t.tool_name.as_str());
            push_str(&mut line, ")");
            let ghost before = parts@;
            parts.push(line);
            assert(views(parts@) =~= views(before).push(tool_entry(visible_tools@[i as int])));
            assert(views(parts@) =~= visible_tools@.take(i + 1).filter(f).map_values(|t: ToolDefinition| tool_entry(t)));
        } else {
            assert(views(parts@) =~= visible_tools@.take(i + 1).filter(f).map_values(|t: ToolDefinition| tool_entry(t)));
        }
        i = i + 1;
    }
    assert(visible_tools@.take(visible_tools@.len() as int) =~= visible_tools@);
    let joined = join_strings(parts.as_slice(), "、");
    assert(parts@.map_values(|s: String| s@) =~= views(parts@));
    summarize_text(joined.as_str())
}

/// The native preview followed by the request's MCP tool preview, when it
/// has one that is not blank.
pub open spec fn combined_preview_spec(native: Seq<char>, hints: Map<Seq<char>, Seq<char>>) -> Seq<char> {
    if hints.contains_key("mcp_tool_preview"@) && trim(hints["mcp_tool_preview"@]).len() > 0 {
        summary_of(native + " || "@ + trim(hints["mcp_tool_preview"@]))
    } else {
        native
    }
}

/// The native preview with the MCP tool preview (see `combined_preview_spec`).
pub fn combined_tool_preview(native_preview: String, request: &RunRequest) -> (r: String)
    ensures
        r@ == combined_preview_spec(native_preview@, request.context_hints@),
{
    match request.context_hints.get("mcp_tool_preview") {
        Some(v) => {
            let t = trimmed(v.as_str());
            if t.as_str().is_empty() {
                return native_preview;
            }
            let mut out = native_preview;
            push_str(&mut out, " || ");
            push_str(&mut out, t.as_str());
            summarize_text(out.as_str())
        },
        None => native_preview,
    }
}

/// The tool preview of a prompt, when the policy injects one.
pub open spec fn selected_tool_preview_spec(request: RunRequest, tools: Seq<ToolDefinition>, p: ContextAssemblyPolicy) -> Seq<char> {
    if p.include_tool_preview {
        combined_preview_spec(tool_preview_spec(tools), request.context_hints@)
    } else {
        "当前阶段未注入工具预览。"@
    }
}

/// The tool preview of a prompt (see `selected_tool_preview_spec`).
pub fn selected_tool_preview(request: &RunRequest, visible_tools: &[ToolDefinition], policy: &ContextAssemblyPolicy) -> (r: String)
    ensures
        r@ == selected_tool_preview_spec(*request, visible_tools@, *policy),
{
    if policy.include_tool_preview {
        combined_tool_preview(tool_preview(visible_tools), request)
    } else {
        String::from_str("当前阶段未注入工具预览。")
    }
}

/// The hand-off hint: the session's hand-off artifact when the policy
/// prefers artifacts and there is one.
pub fn selected_artifact_hint(session: &SessionMemory, policy: &ContextAssemblyPolicy) -> (r: String)
    ensures
        r@ == if policy.prefer_artifact_context && session.short_term.handoff_artifact_path@.len() > 0 {
            "优先参考交接包："@ + session.short_term.handoff_artifact_path@
        } else {
            "当前阶段未注入交接包提示。"@
        },
{
    if policy.prefer_artifact_context && !session.short_term.handoff_artifact_path.as_str().is_empty() {
        let mut out = String::from_str("优先参考交接包：");
        push_str(&mut out, session.short_term.handoff_artifact_path.as_str());
        return out;
    }
    String::from_str("当前阶段未注入交接包提示。")
}

// ---------------------------------------------------------------------------
// Memory
// ---------------------------------------------------------------------------

/// The memory part of a prompt.
#[derive(Clone, Debug)]
pub struct MemoryPromptSelection {
    pub digest: String,
    pub has_system_views: bool,
    pub has_current_objects: bool,
    pub current_object_count: usize,
    pub route: String,
    pub selected_layers: String,
    pub match_reason: String,
    pub reuse_confidence: String,
    pub skipped_layers: String,
}

/// The memory digest text: the route focus before the summary, when the
/// digest has a route.
pub open spec fn memory_digest_text(d: MemoryDigest) -> Seq<char> {
    let route = route_summary_spec(d.memory_route@, views(d.selected_layers@), views(d.skipped_layers@));
    if route.len() == 0 {
        d.summary@
    } else {
        "记忆入口已按最小路由装配："@ + route + " || "@ + d.summary@
    }
}

/// The memory digest text (see `memory_digest_text`).
pub fn format_memory_digest(digest: &MemoryDigest) -> (r: String)
    ensures
        r@ == memory_digest_text(*digest),
{
    let route = digest_route_summary(digest);
    if route.as_str().is_empty() {
        return digest.summary.clone();
    }
    let mut out = String::from_str("记忆入口已按最小路由装配：");
    push_str(&mut out, route.as_str());
    push_str(&mut out, " || ");
    push_str(&mut out, digest.summary.as_str());
    out
}

/// The memory part of a prompt: a note when the policy does not inject
/// memory, else what the recalled digest holds.
pub open spec fn memory_selection_spec(s: MemoryPromptSelection, p: ContextAssemblyPolicy, d: MemoryDigest) -> bool {
    if !p.include_memory {
        &&& s.digest@ == "当前阶段未注入长期记忆摘要。"@
        &&& !s.has_system_views && !s.has_current_objects && s.current_object_count == 0
        &&& s.route@ == "memory_disabled"@
        &&& s.selected_layers@.len() == 0
        &&& s.match_reason@ == "当前 profile 未启用长期记忆注入。"@
        &&& s.reuse_confidence@ == "low"@
        &&& s.skipped_layers@.len() == 0
    } else {
        &&& s.digest@ == memory_digest_text(d)
        &&& s.has_system_views == d.has_system_views
        &&& s.has_current_objects == d.has_current_objects
        &&& s.current_object_count == d.current_object_count
        &&& s.route@ == d.memory_route@
        &&& s.selected_layers@ == join(views(d.selected_layers@), ","@)
        &&& s.match_reason@ == d.match_reason@
        &&& s.reuse_confidence@ == d.reuse_confidence@
        &&& s.skipped_layers@ == join(views(d.skipped_layers@), ","@)
    }
}

/// The memory part of a prompt (see `memory_selection_spec`); the host
/// recalls the digest only when the policy injects memory.
pub fn selected_memory_selection(policy: &ContextAssemblyPolicy, digest: &MemoryDigest) -> (s: MemoryPromptSelection)
    ensures
        memory_selection_spec(s, *policy, *digest),
{
    if !policy.include_memory {
        return MemoryPromptSelection {
            digest: String::from_str("当前阶段未注入长期记忆摘要。"),
            has_system_views: false,
            has_current_objects: false,
            current_object_count: 0,
            route: String::from_str("memory_disabled"),
            selected_layers: String::new(),
            match_reason: String::from_str("当前 profile 未启用长期记忆注入。"),
            reuse_confidence: String::from_str("low"),
            skipped_layers: String::new(),
        };
    }
    let selected = join_strings(digest.selected_layers.as_slice(), ",");
    let skipped = join_strings(digest.skipped_layers.as_slice(), ",");
    assert(digest.selected_layers@.map_values(|s: String| s@) =~= views(digest.selected_layers@));
    assert(digest.skipped_layers@.map_values(|s: String| s@) =~= views(digest.skipped_layers@));
    MemoryPromptSelection {
        digest: format_memory_digest(digest),
        has_system_views: digest.has_system_views,
        has_current_objects: digest.has_current_objects,
        current_object_count: digest.current_object_count,
        route: digest.memory_route.clone(),
        selected_layers: selected,
        match_reason: digest.match_reason.clone(),
        reuse_confidence: digest.reuse_confidence.clone(),
        skipped_layers: skipped,
    }
}

// ---------------------------------------------------------------------------
// Knowledge
// ---------------------------------------------------------------------------

/// A hit of a knowledge pack: its path and what it is used for.
#[derive(Clone, Debug)]
pub struct PackHit {
    pub path: String,
    pub snippet: String,
    pub use_for: String,
}

/// The knowledge gathered for a question.
#[derive(Clone, Debug)]
pub struct KnowledgePack {
    pub question_type: String,
    pub match_reason: String,
    pub top_hits: Vec<PackHit>,
    pub supporting_hits: Vec<PackHit>,
    pub answer_hints: Vec<String>,
    pub citations: Vec<String>,
}

/// The knowledge part of a prompt.
#[derive(Clone, Debug)]
pub struct KnowledgePromptSelection {
    pub digest: String,
    pub question_type: String,
    pub citations: String,
    pub match_reason: String,
}

/// The profiles that show the knowledge pack itself.
pub open spec fn prefers_pack_spec(p: ContextAssemblyPolicy) -> bool {
    p.profile@ == "ask_profile"@ || p.profile@ == "learn_profile"@
}

/// Whether the policy shows the knowledge pack itself.
pub fn prefers_knowledge_pack(policy: &ContextAssemblyPolicy) -> (r: bool)
    ensures
        r == prefers_pack_spec(*policy),
{
    str_eq(policy.profile.as_str(), "ask_profile") || str_eq(policy.profile.as_str(), "learn_profile")
}

/// A text of the pack, or `未提供` when it is blank.
pub open spec fn blank_pack_spec(v: Seq<char>) -> Seq<char> {
    if is_blank(v) {
        "未提供"@
    } else {
        v
    }
}

/// A text of the pack, or `未提供` when it is blank.
pub fn blank_pack_text(value: &str) -> (r: String)
    ensures
        r@ == blank_pack_spec(value@),
{
    if crate::text::blank(value) {
        String::from_str("未提供")
    } else {
        String::from_str(value)
    }
}

/// A main hit as the pack digest shows it.
pub open spec fn top_hit_text(h: PackHit) -> Seq<char> {
    h.path@ + "（"@ + h.use_for@ + "）"@
}

/// A supporting hit as the pack digest shows it.
pub open spec fn hit_path(h: PackHit) -> Seq<char> {
    h.path@
}

/// The digest of a knowledge pack: its type, reason, hits, hints and
/// citations, summarized.
pub open spec fn pack_digest_spec(pack: KnowledgePack) -> Seq<char> {
    summary_of(
        "knowledge pack：问题类型="@ + pack.question_type@ + "；命中理由="@ + pack.match_reason@ + "；主命中="@
            + join(pack.top_hits@.map_values(|h: PackHit| top_hit_text(h)), " || "@) + "；辅助命中="@ + blank_pack_spec(
            join(pack.supporting_hits@.map_values(|h: PackHit| hit_path(h)), "、"@)) + "；回答提示="@ + blank_pack_spec(
            join(views(pack.answer_hints@), " | "@)) + "；引证="@ + join(views(pack.citations@), "、"@),
    )
}

fn join_hits(hits: &[PackHit], top: bool, sep: &str) -> (r: String)
    ensures
        top ==> r@ == join(hits@.map_values(|h: PackHit| top_hit_text(h)), sep@),
        !top ==> r@ == join(hits@.map_values(|h: PackHit| hit_path(h)), sep@),
{
    let mut parts: Vec<String> = Vec::new();
    let mut i: usize = 0;
    while i < hits.len()
        invariant
            i <= hits@.len(),
            top ==> views(parts@) == hits@.take(i as int).map_values(|h: PackHit| top_hit_text(h)),
            !top ==> views(parts@) == hits@.take(i as int).map_values(|h: PackHit| hit_path(h)),
        decreases hits.len() - i,
    {
        let mut line = hits[i].path.clone();
        if top {
            push_str(&mut line, "（");
            push_str(&mut line, hits[i].use_for.as_str());
            push_str(&mut line, "）");
        }
        let ghost before = parts@;
        parts.push(line);
        assert(top ==> views(parts@) =~= views(before).push(top_hit_text(hits@[i as int])));
        assert(!top ==> views(parts@) =~= views(before).push(hit_path(hits@[i as int])));
        assert(top ==> views(parts@) =~= hits@.take(i + 1).map_values(|h: PackHit| top_hit_text(h)));
        assert(!top ==> views(parts@) =~= hits@.take(i + 1).map_values(|h: PackHit| hit_path(h)));
        i = i + 1;
    }
    assert(hits@.take(hits@.len() as int) =~= hits@);
    let r = join_strings(parts.as_slice(), sep);
    assert(parts@.map_values(|s: String| s@) =~= views(parts@));
    r
}

fn join_texts(list: &[String], sep: &str) -> (r: String)
    ensures
        r@ == join(views(list@), sep@),
{
    let r = join_strings(list, sep);
    assert(list@.map_values(|s: String| s@) =~= views(list@));
    r
}

/// The digest of a knowledge pack (see `pack_digest_spec`).
pub fn format_knowledge_pack_digest(pack: &KnowledgePack) -> (r: String)
    ensures
        r@ == pack_digest_spec(*pack),
{
    let top = join_hits(pack.top_hits.as_slice(), true, " || ");
    let supporting = join_hits(pack.supporting_hits.as_slice(), false, "、");
    let hints = join_texts(pack.answer_hints.as_slice(), " | ");
    let citations = join_texts(pack.citations.as_slice(), "、");
    let mut out = String::from_str("knowledge pack：问题类型=");
    push_str(&mut out, pack.question_type.as_str());
    push_str(&mut out, "；命中理由=");
    push_str(&mut out, pack.match_reason.as_str());
    push_str(&mut out, "；主命中=");
    push_str(&mut out, top.as_str());
    push_str(&mut out, "；辅助命中=");
    let s = blank_pack_text(supporting.as_str());
    push_str(&mut out, s.as_str());
    push_str(&mut out, "；回答提示=");
    let h = blank_pack_text(hints.as_str());
    push_str(&mut out, h.as_str());
    push_str(&mut out, "；引证=");
    push_str(&mut out, citations.as_str());
    summarize_text(out.as_str())
}

/// A main hit as the plain digest shows it.
pub open spec fn plain_hit_text(h: PackHit) -> Seq<char> {
    h.path@ + ": "@ + h.snippet@
}

/// The knowledge digest of a pack: a note without hits, the pack digest for
/// the asking and learning profiles, else the hits summarized.
pub open spec fn knowledge_digest_spec(pack: KnowledgePack, p: ContextAssemblyPolicy) -> Seq<char> {
    if pack.top_hits@.len() == 0 {
        "当前没有命中相关本地知识片段。"@
    } else if prefers_pack_spec(p) {
        pack_digest_spec(pack)
    } else {
        summary_of(join(pack.top_hits@.map_values(|h: PackHit| plain_hit_text(h)), " || "@))
    }
}

/// The knowledge digest of a pack (see `knowledge_digest_spec`).
pub fn format_knowledge_digest(pack: &KnowledgePack, policy: &ContextAssemblyPolicy) -> (r: String)
    ensures
        r@ == knowledge_digest_spec(*pack, *policy),
{
    if pack.top_hits.len() == 0 {
        return String::from_str("当前没有命中相关本地知识片段。");
    }
    if prefers_knowledge_pack(policy) {
        return format_knowledge_pack_digest(pack);
    }
    let mut parts: Vec<String> = Vec::new();
    let mut i: usize = 0;
    while i < pack.top_hits.len()
        invariant
            i <= pack.top_hits@.len(),
            views(parts@) == pack.top_hits@.take(i as int).map_values(|h: PackHit| plain_hit_text(h)),
        decreases pack.top_hits.len() - i,
    {
        let mut line = pack.top_hits[i].path.clone();
        push_str(&mut line, ": ");
        push_str(&mut line, pack.top_hits[i].snippet.as_str());
        let ghost before = parts@;
        parts.push(line);
        assert(views(parts@) =~= views(before).push(plain_hit_text(pack.top_hits@[i as int])));
        assert(views(parts@) =~= pack.top_hits@.take(i + 1).map_values(|h: PackHit| plain_hit_text(h)));
        i = i + 1;
    }
    assert(pack.top_hits@.take(pack.top_hits@.len() as int) =~= pack.top_hits@);
    let joined = join_texts(parts.as_slice(), " || ");
    summarize_text(joined.as_str())
}

/// The phrases that mark a project status question for the knowledge part.
pub open spec fn status_query_tokens() -> Seq<Seq<char>> {
    seq![
        "停在什么状态"@, "为什么不能继续"@, "默认推进"@, "为什么停"@, "暂停点"@, "重启"@, "当前阶段"@, "还差什么"@,
        "下一步做什么"@,
    ]
}

fn status_query_token(i: usize) -> (t: &'static str)
    requires
        i < 9,
    ensures
        t@ == status_query_tokens()[i as int],
{
    match i {
        0 => "停在什么状态",
        1 => "为什么不能继续",
        2 => "默认推进",
        3 => "为什么停",
        4 => "暂停点",
        5 => "重启",
        6 => "当前阶段",
        7 => "还差什么",
        _ => "下一步做什么",
    }
}

/// The question asks for the project's status.
pub open spec fn status_query_spec(u: Seq<char>) -> bool {
    exists|i: int| 0 <= i < status_query_tokens().len() && #[trigger] has_sub(u, status_query_tokens()[i])
}

/// Whether the question asks for the project's status.
pub fn is_project_status_query(u: &str) -> (r: bool)
    ensures
        r == status_query_spec(u@),
{
    let mut i: usize = 0;
    while i < 9
        invariant
            i <= 9,
            status_query_tokens().len() == 9,
            forall|j: int| 0 <= j < i ==> !#[trigger] has_sub(u@, status_query_tokens()[j]),
        decreases 9 - i,
    {
        if contains(u, status_query_token(i)) {
            return true;
        }
        i = i + 1;
    }
    false
}

/// A status document as the knowledge digest shows it.
pub fn status_digest_entry(path: &str, snippet: &str) -> (r: String)
    ensures
        r@ == path@ + ": "@ + snippet@,
{
    let mut out = String::from_str(path);
    push_str(&mut out, ": ");
    push_str(&mut out, snippet);
    out
}

/// The knowledge part of a status question answered from the project's
/// status documents: taken for the project answer prompt when the question
/// asks for the status and some document was read.
pub open spec fn status_selection_applies(p: ContextAssemblyPolicy, u: Seq<char>, entries: Seq<Seq<char>>) -> bool {
    p.prompt_profile@ == "project_answer"@ && status_query_spec(u) && entries.len() > 0
}

/// The knowledge part of a prompt: a note when the policy does not inject
/// knowledge; the status documents for a status question of the project
/// answer prompt (`entries` are the documents read, `existing` the status
/// documents present, of which three are cited); else the knowledge pack.
pub open spec fn knowledge_selection_spec(
    s: KnowledgePromptSelection,
    p: ContextAssemblyPolicy,
    u: Seq<char>,
    entries: Seq<Seq<char>>,
    existing: Seq<Seq<char>>,
    pack: KnowledgePack,
) -> bool {
    if !p.include_knowledge {
        s.digest@ == "当前阶段未注入知识摘要。"@ && s.question_type@.len() == 0 && s.citations@.len() == 0
            && s.match_reason@.len() == 0
    } else if status_selection_applies(p, u, entries) {
        &&& s.digest@ == summary_of(join(entries, " || "@))
        &&& s.question_type@ == "project_status"@
        &&& s.citations@ == join(existing.take(if existing.len() <= 3 { existing.len() as int } else { 3 }), ","@)
        &&& s.match_reason@ == "当前问题更像项目状态问答，优先使用 current-state 与阶段文档。"@
    } else {
        &&& s.digest@ == knowledge_digest_spec(pack, p)
        &&& s.question_type@ == pack.question_type@
        &&& s.citations@ == join(views(pack.citations@), ","@)
        &&& s.match_reason@ == pack.match_reason@
    }
}

/// The knowledge part of a prompt (see `knowledge_selection_spec`).
pub fn selected_knowledge_selection(
    request: &RunRequest,
    policy: &ContextAssemblyPolicy,
    status_entries: &[String],
    existing_status_paths: &[String],
    pack: &KnowledgePack,
) -> (s: KnowledgePromptSelection)
    ensures
        knowledge_selection_spec(s, *policy, request.user_input@, views(status_entries@), views(existing_status_paths@),
            *pack),
{
    if !policy.include_knowledge {
        return KnowledgePromptSelection {
            digest: String::from_str("当前阶段未注入知识摘要。"),
            question_type: String::new(),
            citations: String::new(),
            match_reason: String::new(),
        };
    }
    if str_eq(policy.prompt_profile.as_str(), "project_answer") && is_project_status_query(request.user_input.as_str())
        && status_entries.len() > 0 {
        let joined = join_texts(status_entries, " || ");
        let n: usize = if existing_status_paths.len() <= 3 { existing_status_paths.len() } else { 3 };
        let mut cited: Vec<String> = Vec::new();
        let mut i: usize = 0;
        while i < n
            invariant
                i <= n <= existing_status_paths@.len(),
                views(cited@) == views(existing_status_paths@).take(i as int),
            decreases n - i,
        {
            let ghost before = cited@;
            cited.push(existing_status_paths[i].clone());
            assert(views(cited@) =~= views(before).push(existing_status_paths@[i as int]@));
            assert(views(cited@) =~= views(existing_status_paths@).take(i + 1));
            i = i + 1;
        }
        let citations = join_texts(cited.as_slice(), ",");
        return KnowledgePromptSelection {
            digest: summarize_text(joined.as_str()),
            question_type: String::from_str("project_status"),
            citations,
            match_reason: String::from_str("当前问题更像项目状态问答，优先使用 current-state 与阶段文档。"),
        };
    }
    KnowledgePromptSelection {
        digest: format_knowledge_digest(pack, policy),
        question_type: pack.question_type.clone(),
        citations: join_texts(pack.citations.as_slice(), ","),
        match_reason: pack.match_reason.clone(),
    }
}

// ---------------------------------------------------------------------------
// Observation and the dynamic block
// ---------------------------------------------------------------------------

/// What the observation layer injected and how much of its budget it used.
#[derive(Clone, Debug)]
pub struct ObservationInjection {
    pub injected_text: String,
    pub references: Vec<String>,
    pub budget_total_chars: usize,
    pub used_chars: usize,
    pub budget_hit: bool,
    pub budget_total_tokens: usize,
    pub used_tokens: usize,
    pub budget_hit_tokens: bool,
}

/// The default observation budget and whether the question itself is
/// looked up: 1200 characters with the question when memory or knowledge is
/// injected, else 300 without it.
pub fn observation_plan(policy: &ContextAssemblyPolicy) -> (r: (usize, bool))
    ensures
        r == if policy.include_memory || policy.include_knowledge { (1200usize, true) } else { (300usize, false) },
{
    if policy.include_memory || policy.include_knowledge {
        (1200, true)
    } else {
        (300, false)
    }
}

/// Why the context was assembled as it was, with each digest, summarized.
pub open spec fn reasoning_spec(
    session: Seq<char>,
    memory: Seq<char>,
    knowledge: Seq<char>,
    observation: Seq<char>,
    selection_reason: Seq<char>,
    artifact: Seq<char>,
) -> Seq<char> {
    summary_of(
        "当前上下文调度原因："@ + selection_reason
            + "。先结合会话摘要判断当前意图，再参考长期记忆、本地知识与 observation 分层注入组织回答。会话："@ + session
            + " || 记忆："@ + memory + " || 知识："@ + knowledge + " || Observation："@ + observation + " || Artifact："@
            + artifact,
    )
}

/// Why the context was assembled as it was (see `reasoning_spec`).
pub fn reasoning_summary(
    session_summary: &str,
    memory_digest: &str,
    knowledge_digest: &str,
    observation_injection: &str,
    selection_reason: &str,
    artifact_hint: &str,
) -> (r: String)
    ensures
        r@ == reasoning_spec(session_summary@, memory_digest@, knowledge_digest@, observation_injection@,
            selection_reason@, artifact_hint@),
{
    let mut out = String::from_str("当前上下文调度原因：");
    push_str(&mut out, selection_reason);
    push_str(&mut out, "。先结合会话摘要判断当前意图，再参考长期记忆、本地知识与 observation 分层注入组织回答。会话：");
    push_str(&mut out, session_summary);
    push_str(&mut out, " || 记忆：");
    push_str(&mut out, memory_digest);
    push_str(&mut out, " || 知识：");
    push_str(&mut out, knowledge_digest);
    push_str(&mut out, " || Observation：");
    push_str(&mut out, observation_injection);
    push_str(&mut out, " || Artifact：");
    push_str(&mut out, artifact_hint);
    summarize_text(out.as_str())
}

/// The parts of a dynamic block that were selected before it is built.
#[derive(Clone, Debug)]
pub struct PromptParts {
    pub session_summary: String,
    pub memory: MemoryPromptSelection,
    pub knowledge: KnowledgePromptSelection,
    pub tool_preview: String,
    pub artifact_hint: String,
    pub observation: ObservationInjection,
}

/// The dynamic block of a prompt: the identity fields, the selected parts,
/// the observation figures, the reasoning and the cache status.
pub fn build_dynamic_block(
    request: &RunRequest,
    policy: &ContextAssemblyPolicy,
    cache_status: &str,
    cache_reason: &str,
    parts: &PromptParts,
) -> (b: DynamicPromptBlock)
    ensures
        identity_fields_spec(b, *request, *policy),
        b.session_summary@ == parts.session_summary@,
        b.memory_digest@ == parts.memory.digest@,
        b.memory_has_system_views == parts.memory.has_system_views,
        b.memory_has_current_objects == parts.memory.has_current_objects,
        b.memory_current_object_count == parts.memory.current_object_count,
        b.memory_route@ == parts.memory.route@,
        b.memory_selected_layers@ == parts.memory.selected_layers@,
        b.memory_match_reason@ == parts.memory.match_reason@,
        b.memory_reuse_confidence@ == parts.memory.reuse_confidence@,
        b.memory_skipped_layers@ == parts.memory.skipped_layers@,
        b.knowledge_digest@ == parts.knowledge.digest@,
        b.knowledge_pack_question_type@ == parts.knowledge.question_type@,
        b.knowledge_pack_citations@ == parts.knowledge.citations@,
        b.knowledge_pack_match_reason@ == parts.knowledge.match_reason@,
        b.tool_preview@ == parts.tool_preview@,
        b.artifact_hint@ == parts.artifact_hint@,
        b.observation_injection@ == parts.observation.injected_text@,
        b.observation_references@ == join(views(parts.observation.references@), ","@),
        b.observation_budget_total == parts.observation.budget_total_chars,
        b.observation_budget_used == parts.observation.used_chars,
        b.observation_budget_hit == parts.observation.budget_hit,
        b.observation_budget_total_tokens == parts.observation.budget_total_tokens,
        b.observation_budget_used_tokens == parts.observation.used_tokens,
        b.observation_budget_hit_tokens == parts.observation.budget_hit_tokens,
        b.reasoning_summary@ == reasoning_spec(parts.session_summary@, parts.memory.digest@, parts.knowledge.digest@,
            parts.observation.injected_text@, policy.selection_reason@, parts.artifact_hint@),
        b.cache_status@ == cache_status@,
        b.cache_reason@ == cache_reason@,
{
    let mut block = DynamicPromptBlock::default();
    fill_identity_fields(&mut block, request, policy);
    block.session_summary = parts.session_summary.clone();
    block.memory_digest = parts.memory.digest.clone();
    block.memory_has_system_views = parts.memory.has_system_views;
    block.memory_has_current_objects = parts.memory.has_current_objects;
    block.memory_current_object_count = parts.memory.current_object_count;
    block.memory_route = parts.memory.route.clone();
    block.memory_selected_layers = parts.memory.selected_layers.clone();
    block.memory_match_reason = parts.memory.match_reason.clone();
    block.memory_reuse_confidence = parts.memory.reuse_confidence.clone();
    block.memory_skipped_layers = parts.memory.skipped_layers.clone();
    block.knowledge_digest = parts.knowledge.digest.clone();
    block.knowledge_pack_question_type = parts.knowledge.question_type.clone();
    block.knowledge_pack_citations = parts.knowledge.citations.clone();
    block.knowledge_pack_match_reason = parts.knowledge.match_reason.clone();
    block.tool_preview = parts.tool_preview.clone();
    block.artifact_hint = parts.artifact_hint.clone();
    block.observation_injection = parts.observation.injected_text.clone();
    block.observation_references = join_texts(parts.observation.references.as_slice(), ",");
    block.observation_budget_total = parts.observation.budget_total_chars;
    block.observation_budget_used = parts.observation.used_chars;
    block.observation_budget_hit = parts.observation.budget_hit;
    block.observation_budget_total_tokens = parts.observation.budget_total_tokens;
    block.observation_budget_used_tokens = parts.observation.used_tokens;
    block.observation_budget_hit_tokens = parts.observation.budget_hit_tokens;
    block.reasoning_summary = reasoning_summary(
        parts.session_summary.as_str(),
        parts.memory.digest.as_str(),
        parts.knowledge.digest.as_str(),
        parts.observation.injected_text.as_str(),
        block.selection_reason.as_str(),
        parts.artifact_hint.as_str(),
    );
    block.cache_status = String::from_str(cache_status);
    block.cache_reason = String::from_str(cache_reason);
    block
}

/// A prompt's full context.
#[derive(Clone, Debug)]
pub struct RuntimeContextEnvelope {
    pub user_input: String,
    pub mode: String,
    pub workspace_root: String,
    pub static_block: StaticPromptBlock,
    pub project_block: ProjectPromptBlock,
    pub dynamic_block: DynamicPromptBlock,
}

/// A prompt's full context from its blocks.
pub fn build_runtime_context(
    request: &RunRequest,
    project_block: ProjectPromptBlock,
    dynamic_block: DynamicPromptBlock,
) -> (e: RuntimeContextEnvelope)
    ensures
        e.user_input@ == request.user_input@,
        e.mode@ == request.mode@,
        e.workspace_root@ == request.workspace_ref.root_path@,
        e.static_block.role_prompt@ == ROLE_PROMPT@,
        e.static_block.mode_prompt@ == mode_prompt_spec(request.mode@),
        e.project_block == project_block,
        e.dynamic_block == dynamic_block,
{
    RuntimeContextEnvelope {
        user_input: request.user_input.clone(),
        mode: request.mode.clone(),
        workspace_root: request.workspace_ref.root_path.clone(),
        static_block: static_prompt_block(request),
        project_block,
        dynamic_block,
    }
}

} // verus!
