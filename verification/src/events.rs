//! Construction of run events from a request and a metadata table, and the
//! memory-recall event that a run carries after its plan.
use vstd::prelude::*;
use crate::contracts::{
    ConfirmationRequest, RunEvent, RunRequest, RuntimeContextSnapshot, RuntimeRunResponse,
    ToolCallSnapshot, VerificationSnapshot,
};
use crate::context_builder::{DynamicPromptBlock, ProjectPromptBlock, RuntimeContextEnvelope, StaticPromptBlock};
use crate::metadata::Metadata;
use crate::text::{
    dec, has_prefix, join, lines_of, nonblank_lines, nth_or_empty, push_str, split_pieces,
    split_str, starts_with, str_eq, trimmed_nonblank, u64_text, views, join_strings,
};

verus! {

/// The version stamped on every governance record of long-term memory.
pub const MEMORY_GOVERNANCE_VERSION: &'static str = "v1";

/// The digest that a recall with no hit produces.
pub const NO_MEMORY_HIT: &'static str = "当前没有命中相关长期记忆。";

/// Which prompt a metadata table describes, by its assembly profile.
#[derive(Clone, Copy, Debug, PartialEq, Eq)]
pub enum PromptSource {
    /// The prompt of the agent resolve loop.
    AgentResolve,
    /// The prompt of a context answer.
    ContextAnswer,
    /// The prompt of a project answer.
    ProjectAnswer,
    /// No prompt can be assembled from the table.
    Absent,
}

/// The prompt that the table describes: the agent resolve prompt for a
/// profile that begins with `agent_resolve`; otherwise none without a
/// workspace root; otherwise the context answer prompt for a profile that
/// begins with `context_answer`, else the project answer prompt.
pub open spec fn prompt_source_spec(m: Metadata) -> PromptSource {
    let profile = m.text("assembly_profile"@);
    if has_prefix(profile, "agent_resolve"@) {
        PromptSource::AgentResolve
    } else if !m@.contains_key("context_workspace_root"@) {
        PromptSource::Absent
    } else if has_prefix(profile, "context_answer"@) {
        PromptSource::ContextAnswer
    } else {
        PromptSource::ProjectAnswer
    }
}

/// The first three blank-line separated sections of a prompt.
pub open spec fn prompt_sections(prompt: Seq<char>) -> (Seq<char>, Seq<char>, Seq<char>) {
    let parts = split_str(prompt, "\n\n"@);
    (nth_or_empty(parts, 0), nth_or_empty(parts, 1), nth_or_empty(parts, 2))
}

/// The static, project and dynamic prompt sections that an event records:
/// those of the prompt rendered for the table, or empty when it describes none.
pub open spec fn prompt_parts(m: Metadata, prompt: Seq<char>) -> (Seq<char>, Seq<char>, Seq<char>) {
    if prompt_source_spec(m) == PromptSource::Absent {
        (Seq::empty(), Seq::empty(), Seq::empty())
    } else {
        prompt_sections(prompt)
    }
}

/// The context snapshot carries something worth reporting.
pub open spec fn context_present(m: Metadata, parts: (Seq<char>, Seq<char>, Seq<char>)) -> bool {
    ||| m.text("context_workspace_root"@).len() > 0
    ||| m.text("context_mode"@).len() > 0
    ||| m.text("session_summary"@).len() > 0
    ||| m.text("memory_digest"@).len() > 0
    ||| m.text("knowledge_digest"@).len() > 0
    ||| m.text("tool_preview"@).len() > 0
    ||| m.text("reasoning_summary"@).len() > 0
    ||| m.text("cache_status"@).len() > 0
    ||| m.text("cache_reason"@).len() > 0
    ||| m.text("assembly_profile"@).len() > 0
    ||| m.text("phase_label"@).len() > 0
    ||| m.text("selection_reason"@).len() > 0
    ||| m.text("artifact_hint"@).len() > 0
    ||| parts.0.len() > 0
    ||| parts.1.len() > 0
    ||| parts.2.len() > 0
}

/// Every field of the snapshot is read from the table, or is a prompt section.
pub open spec fn context_fields(
    s: RuntimeContextSnapshot,
    m: Metadata,
    parts: (Seq<char>, Seq<char>, Seq<char>),
) -> bool {
    &&& s.workspace_root@ == m.text("context_workspace_root"@)
    &&& s.mode@ == m.text("context_mode"@)
    &&& s.session_summary@ == m.text("session_summary"@)
    &&& s.memory_digest@ == m.text("memory_digest"@)
    &&& s.knowledge_digest@ == m.text("knowledge_digest"@)
    &&& s.tool_preview@ == m.text("tool_preview"@)
    &&& s.reasoning_summary@ == m.text("reasoning_summary"@)
    &&& s.cache_status@ == m.text("cache_status"@)
    &&& s.cache_reason@ == m.text("cache_reason"@)
    &&& s.assembly_profile@ == m.text("assembly_profile"@)
    &&& s.includes_session == m.flag("includes_session"@)
    &&& s.includes_memory == m.flag("includes_memory"@)
    &&& s.includes_knowledge == m.flag("includes_knowledge"@)
    &&& s.includes_tool_preview == m.flag("includes_tool_preview"@)
    &&& s.phase_label@ == m.text("phase_label"@)
    &&& s.selection_reason@ == m.text("selection_reason"@)
    &&& s.prefers_artifact_context == m.flag("prefers_artifact_context"@)
    &&& s.artifact_hint@ == m.text("artifact_hint"@)
    &&& s.prompt_static@ == parts.0
    &&& s.prompt_project@ == parts.1
    &&& s.prompt_dynamic@ == parts.2
}

/// The context snapshot of an event: present exactly when it carries something.
pub open spec fn context_snapshot_of(
    o: Option<RuntimeContextSnapshot>,
    m: Metadata,
    parts: (Seq<char>, Seq<char>, Seq<char>),
) -> bool {
    match o {
        Some(s) => context_present(m, parts) && context_fields(s, m, parts),
        None => !context_present(m, parts),
    }
}

/// The tool call snapshot of an event: the tool fields of the table, present
/// when a name, display name, category, schema or output kind is given.
pub open spec fn tool_snapshot_of(o: Option<ToolCallSnapshot>, m: Metadata) -> bool {
    let present = m.text("tool_name"@).len() > 0 || m.text("tool_display_name"@).len() > 0
        || m.text("tool_category"@).len() > 0 || m.text("input_schema"@).len() > 0
        || m.text("output_kind"@).len() > 0;
    match o {
        Some(s) => present && s.tool_name@ == m.text("tool_name"@) && s.display_name@ == m.text(
            "tool_display_name"@,
        ) && s.category@ == m.text("tool_category"@) && s.risk_level@ == m.text("risk_level"@)
            && s.input_schema@ == m.text("input_schema"@) && s.output_kind@ == m.text("output_kind"@)
            && s.requires_confirmation == m.flag("requires_confirmation"@),
        None => !present,
    }
}

/// The evidence lines recorded under `verification_evidence`.
pub open spec fn evidence_of(m: Metadata) -> Seq<Seq<char>> {
    trimmed_nonblank(lines_of(m.text("verification_evidence"@)))
}

/// The verification snapshot of an event: the verification fields of the
/// table, present when any of them says something.
pub open spec fn verification_snapshot_of(o: Option<VerificationSnapshot>, m: Metadata) -> bool {
    let present = m.text("verification_code"@).len() > 0 || m.text("verification_summary"@).len() > 0
        || m.flag("verification_passed"@) || m.text("verification_policy"@).len() > 0
        || evidence_of(m).len() > 0;
    match o {
        Some(s) => present && s.code@ == m.text("verification_code"@) && s.summary@ == m.text(
            "verification_summary"@,
        ) && s.passed == m.flag("verification_passed"@) && s.policy@ == m.text("verification_policy"@)
            && views(s.evidence@) == evidence_of(m),
        None => !present,
    }
}

/// `e` is the event of the given type, stage and texts for the request,
/// carrying the table `m`, stamped with `timestamp`; its id ends in
/// `id_sequence` and the timestamp.
pub open spec fn event_matches(
    e: RunEvent,
    request: RunRequest,
    id_sequence: u32,
    event_type: Seq<char>,
    stage: Seq<char>,
    summary: Seq<char>,
    detail: Seq<char>,
    m: Metadata,
    timestamp: Seq<char>,
    prompt: Seq<char>,
) -> bool {
    &&& e.event_id@ == request.run_id@ + "-"@ + dec(id_sequence as nat) + "-"@ + timestamp
    &&& e.kind@ == "run_event"@
    &&& e.source@ == "runtime"@
    &&& e.record_type@ == m.text("record_type"@)
    &&& e.source_type@ == m.text("source_type"@)
    &&& e.agent_id@ == "primary"@
    &&& e.agent_label@ == "主智能体"@
    &&& e.event_type@ == event_type
    &&& e.trace_id@ == request.trace_id@
    &&& e.session_id@ == request.session_id@
    &&& e.run_id@ == request.run_id@
    &&& e.timestamp@ == timestamp
    &&& e.stage@ == stage
    &&& e.summary@ == summary
    &&& e.detail@ == detail
    &&& e.tool_name@ == m.text("tool_name"@)
    &&& e.tool_display_name@ == m.text("tool_display_name"@)
    &&& e.tool_category@ == m.text("tool_category"@)
    &&& e.output_kind@ == m.text("output_kind"@)
    &&& e.result_summary@ == m.text("result_summary"@)
    &&& e.artifact_path@ == m.text("artifact_path"@)
    &&& e.risk_level@ == m.text("risk_level"@)
    &&& e.confirmation_id@ == m.text("confirmation_id"@)
    &&& e.final_answer@ == m.text("final_answer"@)
    &&& e.completion_status@ == m.text("completion_status"@)
    &&& e.completion_reason@ == m.text("completion_reason"@)
    &&& e.verification_summary@ == m.text("verification_summary"@)
    &&& e.checkpoint_written == m.flag("checkpoint_written"@)
    &&& context_snapshot_of(e.context_snapshot, m, prompt_parts(m, prompt))
    &&& tool_snapshot_of(e.tool_call_snapshot, m)
    &&& verification_snapshot_of(e.verification_snapshot, m)
    &&& e.metadata@ == m@
}

/// Which prompt the table describes (see `prompt_source_spec`).
pub fn prompt_source(metadata: &Metadata) -> (r: PromptSource)
    ensures
        r == prompt_source_spec(*metadata),
{
    let profile = metadata.text_of("assembly_profile");
    if starts_with(profile.as_str(), "agent_resolve") {
        PromptSource::AgentResolve
    } else if !metadata.contains_key("context_workspace_root") {
        PromptSource::Absent
    } else if starts_with(profile.as_str(), "context_answer") {
        PromptSource::ContextAnswer
    } else {
        PromptSource::ProjectAnswer
    }
}

/// The first three blank-line separated sections of a prompt.
pub fn split_prompt_sections(prompt: &str) -> (r: (String, String, String))
    ensures
        (r.0@, r.1@, r.2@) == prompt_sections(prompt@),
{
    proof { reveal_strlit("\n\n"); }
    let parts = split_pieces(prompt, "\n\n");
    let ghost pv = views(parts@);
    let a = if parts.len() > 0 { parts[0].clone() } else { String::new() };
    let b = if parts.len() > 1 { parts[1].clone() } else { String::new() };
    let c = if parts.len() > 2 { parts[2].clone() } else { String::new() };
    proof {
        if parts@.len() > 0 { assert(pv[0] == parts@[0]@); }
        if parts@.len() > 1 { assert(pv[1] == parts@[1]@); }
        if parts@.len() > 2 { assert(pv[2] == parts@[2]@); }
    }
    (a, b, c)
}

fn prompt_snapshot_parts(metadata: &Metadata, prompt: &str) -> (r: (String, String, String))
    ensures
        (r.0@, r.1@, r.2@) == prompt_parts(*metadata, prompt@),
{
    match prompt_source(metadata) {
        PromptSource::Absent => (String::new(), String::new(), String::new()),
        _ => split_prompt_sections(prompt),
    }
}

/// The user input a table records: `user_input`, else `task_title`, else
/// `final_answer`, else nothing.
pub open spec fn prompt_user_input_spec(m: Metadata) -> Seq<char> {
    if m@.contains_key("user_input"@) {
        m@["user_input"@]
    } else if m@.contains_key("task_title"@) {
        m@["task_title"@]
    } else {
        m.text("final_answer"@)
    }
}

/// The user input a table records (see `prompt_user_input_spec`).
pub fn prompt_user_input(metadata: &Metadata) -> (r: String)
    ensures
        r@ == prompt_user_input_spec(*metadata),
{
    match metadata.get("user_input") {
        Some(v) => v,
        None => match metadata.get("task_title") {
            Some(v) => v,
            None => metadata.text_of("final_answer"),
        },
    }
}

/// The role prompt of a prompt rebuilt from an event's table.
pub const SNAPSHOT_ROLE_PROMPT: &'static str = "你是本地智能体，负责在当前工作区内完成真实任务。";

/// The static block of a prompt rebuilt from a table: the role prompt and no mode prompt.
pub fn prompt_static_block() -> (b: StaticPromptBlock)
    ensures
        b.role_prompt@ == SNAPSHOT_ROLE_PROMPT@,
        b.mode_prompt@.len() == 0,
{
    StaticPromptBlock { role_prompt: String::from_str(SNAPSHOT_ROLE_PROMPT), mode_prompt: String::new() }
}

/// The project block of a prompt rebuilt from a table: its workspace root only.
pub fn prompt_project_block(metadata: &Metadata) -> (b: ProjectPromptBlock)
    ensures
        b.workspace_root@ == metadata.text("context_workspace_root"@),
        b.repo_summary@.len() == 0,
        b.doc_summary@.len() == 0,
{
    ProjectPromptBlock {
        workspace_root: metadata.text_of("context_workspace_root"),
        repo_summary: String::new(),
        doc_summary: String::new(),
    }
}

/// A dynamic block rebuilt from a table: the user input, profile, inclusion
/// flags, phase, selection reason, digests, tool preview, artifact hint,
/// reasoning and cache fields read from the table; everything else empty.
pub open spec fn snapshot_dynamic_block(b: DynamicPromptBlock, m: Metadata) -> bool {
    &&& b.user_input@ == prompt_user_input_spec(m)
    &&& b.assembly_profile@ == m.text("assembly_profile"@)
    &&& b.includes_session == m.flag("includes_session"@)
    &&& b.includes_memory == m.flag("includes_memory"@)
    &&& b.includes_knowledge == m.flag("includes_knowledge"@)
    &&& b.includes_tool_preview == m.flag("includes_tool_preview"@)
    &&& b.phase_label@ == m.text("phase_label"@)
    &&& b.selection_reason@ == m.text("selection_reason"@)
    &&& b.prefers_artifact_context == m.flag("prefers_artifact_context"@)
    &&& b.session_summary@ == m.text("session_summary"@)
    &&& b.memory_digest@ == m.text("memory_digest"@)
    &&& b.knowledge_digest@ == m.text("knowledge_digest"@)
    &&& b.tool_preview@ == m.text("tool_preview"@)
    &&& b.artifact_hint@ == m.text("artifact_hint"@)
    &&& b.reasoning_summary@ == m.text("reasoning_summary"@)
    &&& b.cache_status@ == m.text("cache_status"@)
    &&& b.cache_reason@ == m.text("cache_reason"@)
    &&& b.prompt_profile@.len() == 0 && !b.skill_injection_enabled && b.max_skill_level@.len() == 0
    &&& b.injected_skill_level@.len() == 0 && b.injected_skill_ids@.len() == 0 && b.evidence_refs@.len() == 0
    &&& b.injection_summary@.len() == 0 && !b.memory_has_system_views && !b.memory_has_current_objects
    &&& b.memory_current_object_count == 0 && b.memory_route@.len() == 0 && b.memory_selected_layers@.len() == 0
    &&& b.memory_match_reason@.len() == 0 && b.memory_reuse_confidence@.len() == 0
    &&& b.memory_skipped_layers@.len() == 0 && b.knowledge_pack_question_type@.len() == 0
    &&& b.knowledge_pack_citations@.len() == 0 && b.knowledge_pack_match_reason@.len() == 0
    &&& b.observation_injection@.len() == 0 && b.observation_references@.len() == 0
    &&& b.observation_budget_total == 0 && b.observation_budget_used == 0 && !b.observation_budget_hit
    &&& b.observation_budget_total_tokens == 0 && b.observation_budget_used_tokens == 0
    &&& !b.observation_budget_hit_tokens
}

/// The dynamic block of a prompt rebuilt from a table (see `snapshot_dynamic_block`).
pub fn prompt_dynamic_block(metadata: &Metadata) -> (b: DynamicPromptBlock)
    ensures
        snapshot_dynamic_block(b, *metadata),
{
    let mut b = DynamicPromptBlock::default();
    b.user_input = prompt_user_input(metadata);
    b.assembly_profile = metadata.text_of("assembly_profile");
    b.includes_session = metadata.flag_of("includes_session");
    b.includes_memory = metadata.flag_of("includes_memory");
    b.includes_knowledge = metadata.flag_of("includes_knowledge");
    b.includes_tool_preview = metadata.flag_of("includes_tool_preview");
    b.phase_label = metadata.text_of("phase_label");
    b.selection_reason = metadata.text_of("selection_reason");
    b.prefers_artifact_context = metadata.flag_of("prefers_artifact_context");
    b.session_summary = metadata.text_of("session_summary");
    b.memory_digest = metadata.text_of("memory_digest");
    b.knowledge_digest = metadata.text_of("knowledge_digest");
    b.tool_preview = metadata.text_of("tool_preview");
    b.artifact_hint = metadata.text_of("artifact_hint");
    b.reasoning_summary = metadata.text_of("reasoning_summary");
    b.cache_status = metadata.text_of("cache_status");
    b.cache_reason = metadata.text_of("cache_reason");
    b
}

/// The context a prompt is rebuilt from when an event's table is rendered:
/// none without a workspace root; otherwise the table's user input, mode and
/// workspace root with the blocks above.
pub fn prompt_snapshot_envelope(metadata: &Metadata) -> (r: Option<RuntimeContextEnvelope>)
    ensures
        r is None <==> !metadata@.contains_key("context_workspace_root"@),
        r matches Some(env) ==> {
            &&& env.user_input@ == prompt_user_input_spec(*metadata)
            &&& env.mode@ == metadata.text("context_mode"@)
            &&& env.workspace_root@ == metadata@["context_workspace_root"@]
            &&& env.static_block.role_prompt@ == SNAPSHOT_ROLE_PROMPT@
            &&& env.static_block.mode_prompt@.len() == 0
            &&& env.project_block.workspace_root@ == metadata@["context_workspace_root"@]
            &&& env.project_block.repo_summary@.len() == 0
            &&& env.project_block.doc_summary@.len() == 0
            &&& snapshot_dynamic_block(env.dynamic_block, *metadata)
        },
{
    let workspace_root = match metadata.get("context_workspace_root") {
        Some(v) => v,
        None => return None,
    };
    Some(RuntimeContextEnvelope {
        user_input: prompt_user_input(metadata),
        mode: metadata.text_of("context_mode"),
        workspace_root,
        static_block: prompt_static_block(),
        project_block: prompt_project_block(metadata),
        dynamic_block: prompt_dynamic_block(metadata),
    })
}

fn has_context_snapshot(s: &RuntimeContextSnapshot) -> (r: bool)
    ensures
        r == (s.workspace_root@.len() > 0 || s.mode@.len() > 0 || s.session_summary@.len() > 0
            || s.memory_digest@.len() > 0 || s.knowledge_digest@.len() > 0 || s.tool_preview@.len() > 0
            || s.reasoning_summary@.len() > 0 || s.cache_status@.len() > 0 || s.cache_reason@.len() > 0
            || s.assembly_profile@.len() > 0 || s.phase_label@.len() > 0 || s.selection_reason@.len() > 0
            || s.artifact_hint@.len() > 0 || s.prompt_static@.len() > 0 || s.prompt_project@.len() > 0
            || s.prompt_dynamic@.len() > 0),
{
    !s.workspace_root.as_str().is_empty() || !s.mode.as_str().is_empty()
        || !s.session_summary.as_str().is_empty() || !s.memory_digest.as_str().is_empty()
        || !s.knowledge_digest.as_str().is_empty() || !s.tool_preview.as_str().is_empty()
        || !s.reasoning_summary.as_str().is_empty() || !s.cache_status.as_str().is_empty()
        || !s.cache_reason.as_str().is_empty() || !s.assembly_profile.as_str().is_empty()
        || !s.phase_label.as_str().is_empty() || !s.selection_reason.as_str().is_empty()
        || !s.artifact_hint.as_str().is_empty() || !s.prompt_static.as_str().is_empty()
        || !s.prompt_project.as_str().is_empty() || !s.prompt_dynamic.as_str().is_empty()
}

fn context_snapshot(metadata: &Metadata, prompt: &str) -> (r: Option<RuntimeContextSnapshot>)
    ensures
        context_snapshot_of(r, *metadata, prompt_parts(*metadata, prompt@)),
{
    let (prompt_static, prompt_project, prompt_dynamic) = prompt_snapshot_parts(metadata, prompt);
    let snapshot = RuntimeContextSnapshot {
        workspace_root: metadata.text_of("context_workspace_root"),
        mode: metadata.text_of("context_mode"),
        session_summary: metadata.text_of("session_summary"),
        memory_digest: metadata.text_of("memory_digest"),
        knowledge_digest: metadata.text_of("knowledge_digest"),
        tool_preview: metadata.text_of("tool_preview"),
        reasoning_summary: metadata.text_of("reasoning_summary"),
        cache_status: metadata.text_of("cache_status"),
        cache_reason: metadata.text_of("cache_reason"),
        assembly_profile: metadata.text_of("assembly_profile"),
        includes_session: metadata.flag_of("includes_session"),
        includes_memory: metadata.flag_of("includes_memory"),
        includes_knowledge: metadata.flag_of("includes_knowledge"),
        includes_tool_preview: metadata.flag_of("includes_tool_preview"),
        phase_label: metadata.text_of("phase_label"),
        selection_reason: metadata.text_of("selection_reason"),
        prefers_artifact_context: metadata.flag_of("prefers_artifact_context"),
        artifact_hint: metadata.text_of("artifact_hint"),
        prompt_static,
        prompt_project,
        prompt_dynamic,
    };
    if has_context_snapshot(&snapshot) {
        Some(snapshot)
    } else {
        None
    }
}

fn has_tool_call_snapshot(s: &ToolCallSnapshot) -> (r: bool)
    ensures
        r == (s.tool_name@.len() > 0 || s.display_name@.len() > 0 || s.category@.len() > 0
            || s.input_schema@.len() > 0 || s.output_kind@.len() > 0),
{
    !s.tool_name.as_str().is_empty() || !s.display_name.as_str().is_empty()
        || !s.category.as_str().is_empty() || !s.input_schema.as_str().is_empty()
        || !s.output_kind.as_str().is_empty()
}

fn tool_call_snapshot(metadata: &Metadata) -> (r: Option<ToolCallSnapshot>)
    ensures
        tool_snapshot_of(r, *metadata),
{
    let snapshot = ToolCallSnapshot {
        tool_name: metadata.text_of("tool_name"),
        display_name: metadata.text_of("tool_display_name"),
        category: metadata.text_of("tool_category"),
        risk_level: metadata.text_of("risk_level"),
        input_schema: metadata.text_of("input_schema"),
        output_kind: metadata.text_of("output_kind"),
        requires_confirmation: metadata.flag_of("requires_confirmation"),
    };
    if has_tool_call_snapshot(&snapshot) {
        Some(snapshot)
    } else {
        None
    }
}

fn has_verification_snapshot(s: &VerificationSnapshot) -> (r: bool)
    ensures
        r == (s.code@.len() > 0 || s.summary@.len() > 0 || s.passed || s.policy@.len() > 0
            || s.evidence@.len() > 0),
{
    !s.code.as_str().is_empty() || !s.summary.as_str().is_empty() || s.passed
        || !s.policy.as_str().is_empty() || s.evidence.len() > 0
}

fn verification_snapshot(metadata: &Metadata) -> (r: Option<VerificationSnapshot>)
    ensures
        verification_snapshot_of(r, *metadata),
{
    let evidence_text = metadata.text_of("verification_evidence");
    let evidence = nonblank_lines(evidence_text.as_str());
    let snapshot = VerificationSnapshot {
        code: metadata.text_of("verification_code"),
        summary: metadata.text_of("verification_summary"),
        passed: metadata.flag_of("verification_passed"),
        policy: metadata.text_of("verification_policy"),
        evidence,
    };
    assert(views(snapshot.evidence@).len() == snapshot.evidence@.len());
    if has_verification_snapshot(&snapshot) {
        Some(snapshot)
    } else {
        None
    }
}

fn event_id(run_id: &str, sequence: u32, timestamp: &str) -> (id: String)
    ensures
        id@ == run_id@ + "-"@ + dec(sequence as nat) + "-"@ + timestamp@,
{
    let mut id = String::new();
    push_str(&mut id, run_id);
    push_str(&mut id, "-");
    let n = u64_text(sequence as u64);
    push_str(&mut id, n.as_str());
    push_str(&mut id, "-");
    push_str(&mut id, timestamp);
    id
}

/// The event of the given type and stage for the request, carrying
/// `metadata`; `timestamp` is the time of the event and `prompt` the prompt
/// rendered for the table's assembly profile (see `prompt_source`).
pub fn make_event(
    request: &RunRequest,
    sequence: u32,
    event_type: &str,
    stage: &str,
    summary: &str,
    detail: &str,
    metadata: Metadata,
    timestamp: &str,
    prompt: &str,
) -> (e: RunEvent)
    ensures
        event_matches(e, *request, sequence, event_type@, stage@, summary@, detail@, metadata, timestamp@, prompt@),
        e.sequence == sequence,
{
    let verification = verification_snapshot(&metadata);
    let context = context_snapshot(&metadata, prompt);
    let tool = tool_call_snapshot(&metadata);
    RunEvent {
        event_id: event_id(request.run_id.as_str(), sequence, timestamp),
        kind: String::from_str("run_event"),
        source: String::from_str("runtime"),
        record_type: metadata.text_of("record_type"),
        source_type: metadata.text_of("source_type"),
        agent_id: String::from_str("primary"),
        agent_label: String::from_str("主智能体"),
        event_type: String::from_str(event_type),
        trace_id: request.trace_id.clone(),
        session_id: request.session_id.clone(),
        run_id: request.run_id.clone(),
        sequence,
        timestamp: String::from_str(timestamp),
        stage: String::from_str(stage),
        summary: String::from_str(summary),
        detail: String::from_str(detail),
        tool_name: metadata.text_of("tool_name"),
        tool_display_name: metadata.text_of("tool_display_name"),
        tool_category: metadata.text_of("tool_category"),
        output_kind: metadata.text_of("output_kind"),
        result_summary: metadata.text_of("result_summary"),
        artifact_path: metadata.text_of("artifact_path"),
        risk_level: metadata.text_of("risk_level"),
        confirmation_id: metadata.text_of("confirmation_id"),
        final_answer: metadata.text_of("final_answer"),
        completion_status: metadata.text_of("completion_status"),
        completion_reason: metadata.text_of("completion_reason"),
        verification_summary: metadata.text_of("verification_summary"),
        checkpoint_written: metadata.flag_of("checkpoint_written"),
        context_snapshot: context,
        tool_call_snapshot: tool,
        verification_snapshot: verification,
        metadata,
    }
}

/// The table of a confirmation request event.
pub open spec fn confirmation_metadata(c: ConfirmationRequest) -> Map<Seq<char>, Seq<char>> {
    Map::<Seq<char>, Seq<char>>::empty()
        .insert("confirmation_id"@, c.confirmation_id@)
        .insert("risk_level"@, c.risk_level@)
        .insert("action_summary"@, c.action_summary@)
        .insert("reason"@, c.reason@)
        .insert("impact_scope"@, c.impact_scope@)
        .insert("target_paths"@, join(views(c.target_paths@), "\n"@))
        .insert("reversible"@, if c.reversible { "true"@ } else { "false"@ })
        .insert("hazards"@, join(views(c.hazards@), "\n"@))
        .insert("alternatives"@, join(views(c.alternatives@), "\n"@))
        .insert("kind"@, c.kind@)
        .insert("task_title"@, c.action_summary@)
        .insert("next_step"@, "等待用户确认后再继续"@)
}

/// The event that pauses a run until the user confirms `confirmation`.
pub fn make_confirmation_event(
    request: &RunRequest,
    sequence: u32,
    confirmation: &ConfirmationRequest,
    timestamp: &str,
    prompt: &str,
) -> (e: RunEvent)
    ensures
        e.sequence == sequence,
        e.metadata@ == confirmation_metadata(*confirmation),
        event_matches(
            e,
            *request,
            sequence,
            "confirmation_required"@,
            "PausedForConfirmation"@,
            "需要人工确认后才能继续"@,
            confirmation.reason@,
            e.metadata,
            timestamp@,
            prompt@,
        ),
{
    let mut metadata = Metadata::new();
    metadata.set("confirmation_id", confirmation.confirmation_id.as_str());
    metadata.set("risk_level", confirmation.risk_level.as_str());
    metadata.set("action_summary", confirmation.action_summary.as_str());
    metadata.set("reason", confirmation.reason.as_str());
    metadata.set("impact_scope", confirmation.impact_scope.as_str());
    let targets = join_strings(confirmation.target_paths.as_slice(), "\n");
    metadata.set("target_paths", targets.as_str());
    metadata.set("reversible", if confirmation.reversible { "true" } else { "false" });
    let hazards = join_strings(confirmation.hazards.as_slice(), "\n");
    metadata.set("hazards", hazards.as_str());
    let alternatives = join_strings(confirmation.alternatives.as_slice(), "\n");
    metadata.set("alternatives", alternatives.as_str());
    metadata.set("kind", confirmation.kind.as_str());
    metadata.set("task_title", confirmation.action_summary.as_str());
    metadata.set("next_step", "等待用户确认后再继续");
    assert(metadata@ =~= confirmation_metadata(*confirmation));
    make_event(
        request,
        sequence,
        "confirmation_required",
        "PausedForConfirmation",
        "需要人工确认后才能继续",
        confirmation.reason.as_str(),
        metadata,
        timestamp,
        prompt,
    )
}

/// The title of a memory recall event for the digest.
pub open spec fn recall_title_spec(digest: Seq<char>) -> Seq<char> {
    if digest == NO_MEMORY_HIT@ {
        "未命中长期记忆"@
    } else {
        "已完成记忆召回"@
    }
}

/// The governance reason of a memory recall for the digest.
pub open spec fn recall_reason_spec(digest: Seq<char>) -> Seq<char> {
    if digest == NO_MEMORY_HIT@ {
        "当前查询未命中可复用长期记忆，已输出空召回结果。"@
    } else {
        "已按当前输入完成长期记忆召回，并将摘要注入上下文。"@
    }
}

/// The table of a memory recall event: the source table with the recall's
/// governance record laid over it.
pub open spec fn recall_metadata_spec(
    source: Map<Seq<char>, Seq<char>>,
    digest: Seq<char>,
    timestamp: Seq<char>,
) -> Map<Seq<char>, Seq<char>> {
    source.insert("layer"@, "long_term_memory"@)
        .insert("record_type"@, "recall_digest"@)
        .insert("memory_kind"@, "recall_digest"@)
        .insert("governance_status"@, "recalled"@)
        .insert("memory_action"@, "recall"@)
        .insert("governance_version"@, MEMORY_GOVERNANCE_VERSION@)
        .insert("governance_reason"@, recall_reason_spec(digest))
        .insert("governance_source"@, "runtime_memory_recall"@)
        .insert("governance_at"@, timestamp)
        .insert("source_type"@, "runtime"@)
        .insert("source_event_type"@, "memory_recalled"@)
        .insert("source_artifact_path"@, Seq::empty())
        .insert("archive_reason"@, Seq::empty())
        .insert("title"@, recall_title_spec(digest))
        .insert("reason"@, recall_reason_spec(digest))
        .insert("result_summary"@, digest)
}

fn memory_recall_title(digest: &str) -> (r: String)
    ensures
        r@ == recall_title_spec(digest@),
{
    if str_eq(digest, NO_MEMORY_HIT) {
        String::from_str("未命中长期记忆")
    } else {
        String::from_str("已完成记忆召回")
    }
}

fn memory_recall_reason(digest: &str) -> (r: String)
    ensures
        r@ == recall_reason_spec(digest@),
{
    if str_eq(digest, NO_MEMORY_HIT) {
        String::from_str("当前查询未命中可复用长期记忆，已输出空召回结果。")
    } else {
        String::from_str("已按当前输入完成长期记忆召回，并将摘要注入上下文。")
    }
}

fn memory_recall_metadata(source: &Metadata, digest: &str, timestamp: &str) -> (m: Metadata)
    ensures
        m@ == recall_metadata_spec(source@, digest@, timestamp@),
{
    proof { reveal_strlit(""); }
    assert(""@ =~= Seq::<char>::empty());
    let mut m = source.duplicate();
    m.set("layer", "long_term_memory");
    m.set("record_type", "recall_digest");
    m.set("memory_kind", "recall_digest");
    m.set("governance_status", "recalled");
    m.set("memory_action", "recall");
    m.set("governance_version", MEMORY_GOVERNANCE_VERSION);
    let reason = memory_recall_reason(digest);
    m.set("governance_reason", reason.as_str());
    m.set("governance_source", "runtime_memory_recall");
    m.set("governance_at", timestamp);
    m.set("source_type", "runtime");
    m.set("source_event_type", "memory_recalled");
    m.set("source_artifact_path", "");
    m.set("archive_reason", "");
    let title = memory_recall_title(digest);
    m.set("title", title.as_str());
    m.set("reason", reason.as_str());
    m.set("result_summary", digest);
    assert(m@ =~= recall_metadata_spec(source@, digest@, timestamp@));
    m
}

/// The memory recall event for a table that carries a `memory_digest`:
/// none when the digest is empty.
pub fn make_memory_recall_event(
    request: &RunRequest,
    sequence: u32,
    metadata: &Metadata,
    timestamp: &str,
    prompt: &str,
) -> (r: Option<RunEvent>)
    ensures
        match r {
            None => metadata.text("memory_digest"@).len() == 0,
            Some(e) => {
                let d = metadata.text("memory_digest"@);
                &&& d.len() > 0
                &&& e.sequence == sequence
                &&& e.metadata@ == recall_metadata_spec(metadata@, d, timestamp@)
                &&& event_matches(e, *request, sequence, "memory_recalled"@, "Plan"@,
                    recall_title_spec(d), d, e.metadata, timestamp@, prompt@)
            },
        },
{
    let digest = metadata.text_of("memory_digest");
    if digest.as_str().is_empty() {
        return None;
    }
    let title = memory_recall_title(digest.as_str());
    let recall = memory_recall_metadata(metadata, digest.as_str(), timestamp);
    Some(make_event(
        request,
        sequence,
        "memory_recalled",
        "Plan",
        title.as_str(),
        digest.as_str(),
        recall,
        timestamp,
        prompt,
    ))
}

/// `i` is the first position of an event of type `t`.
pub open spec fn first_of_type(events: Seq<RunEvent>, t: Seq<char>, i: int) -> bool {
    &&& 0 <= i < events.len()
    &&& events[i].event_type@ == t
    &&& forall|j: int| 0 <= j < i ==> events[j].event_type@ != t
}

/// Some event has type `t`.
pub open spec fn has_event_type(events: Seq<RunEvent>, t: Seq<char>) -> bool {
    exists|j: int| 0 <= j < events.len() && #[trigger] events[j].event_type@ == t
}

/// The event with its sequence number set to `n`.
pub open spec fn with_sequence(e: RunEvent, n: int) -> RunEvent {
    RunEvent { sequence: n as u32, ..e }
}

/// The events numbered from 1 in order.
pub open spec fn resequenced(events: Seq<RunEvent>) -> Seq<RunEvent> {
    Seq::new(events.len(), |j: int| with_sequence(events[j], j + 1))
}

fn first_event_of_type(events: &Vec<RunEvent>, t: &str) -> (r: Option<usize>)
    ensures
        match r {
            Some(i) => first_of_type(events@, t@, i as int),
            None => !has_event_type(events@, t@),
        },
{
    let mut i: usize = 0;
    while i < events.len()
        invariant
            i <= events@.len(),
            forall|j: int| 0 <= j < i ==> events@[j].event_type@ != t@,
        decreases events.len() - i,
    {
        if str_eq(events[i].event_type.as_str(), t) {
            return Some(i);
        }
        i = i + 1;
    }
    None
}

/// Numbers the events from 1 in order.
pub fn resequence_events(events: &mut Vec<RunEvent>)
    requires
        old(events)@.len() <= u32::MAX,
    ensures
        final(events)@ == resequenced(old(events)@),
{
    let ghost original = events@;
    let mut i: usize = 0;
    while i < events.len()
        invariant
            i <= events@.len(),
            events@.len() == original.len(),
            original.len() <= u32::MAX,
            forall|j: int| 0 <= j < i ==> events@[j] == with_sequence(original[j], j + 1),
            forall|j: int| i <= j < events@.len() ==> events@[j] == original[j],
        decreases events.len() - i,
    {
        events[i].sequence = (i + 1) as u32;
        i = i + 1;
    }
    assert(events@ =~= resequenced(original));
}

/// The response with a memory recall event after its first plan, when it has
/// none yet and that plan's table carries a memory digest; events are then
/// numbered anew from 1.
pub fn with_runtime_memory_recall_event(
    request: &RunRequest,
    response: RuntimeRunResponse,
    timestamp: &str,
    prompt: &str,
) -> (r: RuntimeRunResponse)
    requires
        response.events@.len() < u32::MAX,
    ensures
        ({
            let ev = response.events@;
            if has_event_type(ev, "memory_recalled"@) || !has_event_type(ev, "plan_ready"@) {
                r == response
            } else {
                forall|i: int| #[trigger] first_of_type(ev, "plan_ready"@, i) ==> {
                    let d = ev[i].metadata.text("memory_digest"@);
                    if d.len() == 0 {
                        r == response
                    } else {
                        &&& r.result == response.result
                        &&& r.confirmation_request == response.confirmation_request
                        &&& r.events@.len() == ev.len() + 1
                        &&& forall|j: int| 0 <= j <= i ==> r.events@[j] == with_sequence(ev[j], j + 1)
                        &&& forall|j: int| i < j < ev.len() ==> r.events@[j + 1] == with_sequence(ev[j], j + 2)
                        &&& r.events@[i + 1].sequence == i + 2
                        &&& r.events@[i + 1].metadata@ == recall_metadata_spec(ev[i].metadata@, d, timestamp@)
                        &&& event_matches(r.events@[i + 1], *request, 0, "memory_recalled"@, "Plan"@,
                            recall_title_spec(d), d, r.events@[i + 1].metadata, timestamp@, prompt@)
                    }
                }
            }
        }),
{
    match first_event_of_type(&response.events, "memory_recalled") {
        Some(_) => { return response; },
        None => {},
    }
    let anchor = first_event_of_type(&response.events, "plan_ready");
    match anchor {
        None => response,
        Some(index) => {
            let made = make_memory_recall_event(request, 0, &response.events[index].metadata, timestamp, prompt);
            match made {
                None => response,
                Some(event) => {
                    let mut response = response;
                    let ghost ev = response.events@;
                    response.events.insert(index + 1, event);
                    let ghost inserted = response.events@;
                    resequence_events(&mut response.events);
                    proof {
                        assert forall|i: int| #[trigger] first_of_type(ev, "plan_ready"@, i) implies i == index by {
                            if i < index {
                                assert(ev[i].event_type@ != "plan_ready"@);
                            }
                            if index < i {
                                assert(ev[index as int].event_type@ != "plan_ready"@);
                            }
                        }
                        assert forall|j: int| 0 <= j <= index implies response.events@[j] == with_sequence(ev[j], j + 1) by {
                            assert(inserted[j] == ev[j]);
                        }
                        assert forall|j: int| index < j < ev.len() implies response.events@[j + 1] == with_sequence(ev[j], j + 2) by {
                            assert(inserted[j + 1] == ev[j]);
                        }
                    }
                    response
                },
            }
        },
    }
}


/// Resequencing numbers the events 1, 2, ... in their order and changes
/// nothing else of them.
pub proof fn resequence_numbers_law(events: Seq<RunEvent>)
    requires
        events.len() <= u32::MAX,
    ensures
        resequenced(events).len() == events.len(),
        forall|i: int| 0 <= i < events.len() ==> #[trigger] resequenced(events)[i].sequence == i + 1,
        forall|i: int| 0 <= i < events.len() ==> #[trigger] resequenced(events)[i] == (RunEvent {
            sequence: resequenced(events)[i].sequence,
            ..events[i]
        }),
{
    assert forall|i: int| 0 <= i < events.len() implies #[trigger] resequenced(events)[i].sequence == i + 1 by {
        assert(0 <= i + 1 <= u32::MAX);
    }
}

} // verus!
