//! The request, event and result records that the runtime exchanges with its host.
use vstd::prelude::*;
use crate::metadata::Metadata;

verus! {

/// The runtime's name as reported to the host.
pub const RUNTIME_NAME: &'static str = "runtime-host";

/// The state the runtime reports when no run is active.
#[derive(Clone, Debug)]
pub struct RuntimeSnapshot {
    pub state: &'static str,
    pub current_run_id: Option<String>,
}

#[derive(Clone, Debug)]
pub struct ModelRef {
    pub provider_id: String,
    pub model_id: String,
    pub display_name: String,
}

#[derive(Clone, Debug)]
pub struct ProviderRef {
    pub provider_id: String,
    pub display_name: String,
    pub base_url: String,
    pub chat_completions_path: String,
    pub models_path: String,
    pub api_key: String,
}

#[derive(Clone, Debug)]
pub struct WorkspaceRef {
    pub workspace_id: String,
    pub name: String,
    pub root_path: String,
    pub is_active: bool,
}

#[derive(Clone, Debug)]
pub struct RepoContextSnapshot {
    pub workspace_root: String,
    pub repo_root: Option<String>,
    pub git_available: bool,
    pub git_snapshot: Option<GitSnapshot>,
    pub doc_summaries: Vec<WorkspaceDocSummary>,
    pub warnings: Vec<String>,
    pub collected_at: String,
}

#[derive(Clone, Debug)]
pub struct GitSnapshot {
    pub current_branch: Option<String>,
    pub default_branch: Option<String>,
    pub is_dirty: bool,
    pub recent_commits: Vec<GitCommitSummary>,
}

#[derive(Clone, Debug)]
pub struct GitCommitSummary {
    pub commit_id: String,
    pub short_message: String,
    pub author: Option<String>,
    pub timestamp: Option<String>,
}

#[derive(Clone, Debug)]
pub struct WorkspaceDocSummary {
    pub path: String,
    pub kind: String,
    pub exists: bool,
    pub summary: String,
    pub truncated: bool,
}

#[derive(Clone, Debug)]
pub struct ConfirmationDecision {
    pub confirmation_id: String,
    pub run_id: String,
    pub decision: String,
    pub note: String,
    pub remember: bool,
}

#[derive(Clone, Debug)]
pub struct ConfirmationRequest {
    pub confirmation_id: String,
    pub run_id: String,
    pub risk_level: String,
    pub action_summary: String,
    pub reason: String,
    pub impact_scope: String,
    pub target_paths: Vec<String>,
    pub reversible: bool,
    pub hazards: Vec<String>,
    pub alternatives: Vec<String>,
    pub kind: String,
}

#[derive(Clone, Debug)]
pub struct ErrorInfo {
    pub error_code: String,
    pub message: String,
    pub summary: String,
    pub retryable: bool,
    pub source: String,
    pub stage: String,
    pub metadata: Metadata,
}

#[derive(Clone, Debug)]
pub struct RunRequest {
    pub request_id: String,
    pub run_id: String,
    pub session_id: String,
    pub trace_id: String,
    pub user_input: String,
    pub mode: String,
    pub model_ref: ModelRef,
    pub provider_ref: ProviderRef,
    pub workspace_ref: WorkspaceRef,
    pub context_hints: Metadata,
    pub resume_from_checkpoint_id: String,
    pub resume_strategy: String,
    pub confirmation_decision: Option<ConfirmationDecision>,
}

#[derive(Clone, Debug)]
pub struct RuntimeContextSnapshot {
    pub workspace_root: String,
    pub mode: String,
    pub session_summary: String,
    pub memory_digest: String,
    pub knowledge_digest: String,
    pub tool_preview: String,
    pub reasoning_summary: String,
    pub cache_status: String,
    pub cache_reason: String,
    pub assembly_profile: String,
    pub includes_session: bool,
    pub includes_memory: bool,
    pub includes_knowledge: bool,
    pub includes_tool_preview: bool,
    pub phase_label: String,
    pub selection_reason: String,
    pub prefers_artifact_context: bool,
    pub artifact_hint: String,
    pub prompt_static: String,
    pub prompt_project: String,
    pub prompt_dynamic: String,
}

#[derive(Clone, Debug)]
pub struct ToolCallSnapshot {
    pub tool_name: String,
    pub display_name: String,
    pub category: String,
    pub risk_level: String,
    pub input_schema: String,
    pub output_kind: String,
    pub requires_confirmation: bool,
}

#[derive(Clone, Debug)]
pub struct VerificationSnapshot {
    pub code: String,
    pub summary: String,
    pub passed: bool,
    pub policy: String,
    pub evidence: Vec<String>,
}

#[derive(Clone, Debug)]
pub struct RunEvent {
    pub event_id: String,
    pub kind: String,
    pub source: String,
    pub record_type: String,
    pub source_type: String,
    pub agent_id: String,
    pub agent_label: String,
    pub event_type: String,
    pub trace_id: String,
    pub session_id: String,
    pub run_id: String,
    pub sequence: u32,
    pub timestamp: String,
    pub stage: String,
    pub summary: String,
    pub detail: String,
    pub tool_name: String,
    pub tool_display_name: String,
    pub tool_category: String,
    pub output_kind: String,
    pub result_summary: String,
    pub artifact_path: String,
    pub risk_level: String,
    pub confirmation_id: String,
    pub final_answer: String,
    pub completion_status: String,
    pub completion_reason: String,
    pub verification_summary: String,
    pub checkpoint_written: bool,
    pub context_snapshot: Option<RuntimeContextSnapshot>,
    pub tool_call_snapshot: Option<ToolCallSnapshot>,
    pub verification_snapshot: Option<VerificationSnapshot>,
    pub metadata: Metadata,
}

#[derive(Clone, Debug)]
pub struct RunResult {
    pub request_id: String,
    pub run_id: String,
    pub session_id: String,
    pub trace_id: String,
    pub kind: String,
    pub source: String,
    pub status: String,
    pub final_answer: String,
    pub summary: String,
    pub error: Option<ErrorInfo>,
    pub memory_write_summary: Option<String>,
    pub final_stage: String,
    pub checkpoint_id: Option<String>,
    pub resumable: Option<bool>,
}

#[derive(Clone, Debug)]
pub struct RuntimeRunResponse {
    pub events: Vec<RunEvent>,
    pub result: RunResult,
    pub confirmation_request: Option<ConfirmationRequest>,
}

/// What the runtime reports of one capability.
#[derive(Clone, Debug)]
pub struct CapabilitySpec {
    pub capability_id: String,
    pub display_name: String,
    pub domain: String,
    pub risk_level: String,
    pub input_schema: String,
    pub output_kind: String,
    pub side_effect_level: String,
    pub supports_modes: Vec<String>,
    pub verification_policy: String,
    pub source_kind: String,
    pub connector_slot: String,
    pub requires_confirmation: bool,
}

#[derive(Clone, Debug)]
pub struct CapabilityListResponse {
    pub items: Vec<CapabilitySpec>,
}

/// What the runtime reports of one external connection slot.
#[derive(Clone, Debug)]
pub struct ConnectorSlotSpec {
    pub slot_id: String,
    pub display_name: String,
    pub priority: u8,
    pub status: String,
    pub scope: String,
    pub current_capabilities: Vec<String>,
    pub supported_actions: Vec<String>,
    pub boundary: String,
    pub next_step: String,
}

#[derive(Clone, Debug)]
pub struct ConnectorListResponse {
    pub items: Vec<ConnectorSlotSpec>,
}

impl RuntimeSnapshot {
    /// The snapshot of a runtime with no active run: stage `Analyze`, no run id.
    pub fn idle() -> (s: Self)
        ensures
            s.state@ == "Analyze"@,
            s.current_run_id is None,
    {
        RuntimeSnapshot { state: "Analyze", current_run_id: None }
    }
}

} // verus!
