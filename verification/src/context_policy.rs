//! Which context blocks a prompt gets for a given input, action and session state.
use vstd::prelude::*;
use crate::planner::PlannedAction;
use crate::session::SessionMemory;
use crate::text::{contains_any, has_any, owned, str_eq};

verus! {

/// Which context blocks to assemble, and why.
#[derive(Clone, Debug)]
pub struct ContextAssemblyPolicy {
    pub profile: String,
    pub prompt_profile: String,
    pub include_session: bool,
    pub include_memory: bool,
    pub include_knowledge: bool,
    pub include_tool_preview: bool,
    pub skill_injection_enabled: bool,
    pub max_skill_level: String,
    pub phase_label: String,
    pub selection_reason: String,
    pub prefer_artifact_context: bool,
}

/// The fields of a policy as values.
pub struct PolicyModel {
    pub profile: Seq<char>,
    pub prompt_profile: Seq<char>,
    pub include_session: bool,
    pub include_memory: bool,
    pub include_knowledge: bool,
    pub include_tool_preview: bool,
    pub skill_injection_enabled: bool,
    pub max_skill_level: Seq<char>,
    pub phase_label: Seq<char>,
    pub selection_reason: Seq<char>,
    pub prefer_artifact_context: bool,
}

pub open spec fn policy_model(p: ContextAssemblyPolicy) -> PolicyModel {
    PolicyModel {
        profile: p.profile@,
        prompt_profile: p.prompt_profile@,
        include_session: p.include_session,
        include_memory: p.include_memory,
        include_knowledge: p.include_knowledge,
        include_tool_preview: p.include_tool_preview,
        skill_injection_enabled: p.skill_injection_enabled,
        max_skill_level: p.max_skill_level@,
        phase_label: p.phase_label@,
        selection_reason: p.selection_reason@,
        prefer_artifact_context: p.prefer_artifact_context,
    }
}

pub open spec fn project_ask_model() -> PolicyModel {
    PolicyModel {
        profile: "ask_profile"@,
        prompt_profile: "project_answer"@,
        include_session: true,
        include_memory: false,
        include_knowledge: true,
        include_tool_preview: false,
        skill_injection_enabled: false,
        max_skill_level: "disabled"@,
        phase_label: "ask"@,
        selection_reason: "当前更像解释、比较或项目问答，优先加载会话摘要和项目知识最小包。"@,
        prefer_artifact_context: false,
    }
}

pub open spec fn project_answer_model() -> PolicyModel {
    PolicyModel {
        profile: "ask_profile"@,
        prompt_profile: "project_answer"@,
        include_session: true,
        include_memory: false,
        include_knowledge: true,
        include_tool_preview: false,
        skill_injection_enabled: false,
        max_skill_level: "disabled"@,
        phase_label: "ask"@,
        selection_reason: "当前是项目说明或状态问答，优先使用会话摘要和项目知识片段。"@,
        prefer_artifact_context: false,
    }
}

pub open spec fn context_answer_model() -> PolicyModel {
    PolicyModel {
        profile: "ask_profile"@,
        prompt_profile: "context_answer"@,
        include_session: true,
        include_memory: false,
        include_knowledge: false,
        include_tool_preview: false,
        skill_injection_enabled: false,
        max_skill_level: "disabled"@,
        phase_label: "ask"@,
        selection_reason: "当前是续推、解释或轻问答，优先使用短期会话摘要直接回答。"@,
        prefer_artifact_context: false,
    }
}

pub open spec fn act_model() -> PolicyModel {
    PolicyModel {
        profile: "act_profile"@,
        prompt_profile: "agent_resolve"@,
        include_session: true,
        include_memory: false,
        include_knowledge: false,
        include_tool_preview: true,
        skill_injection_enabled: true,
        max_skill_level: "level1:index-summary"@,
        phase_label: "act"@,
        selection_reason: "当前需要执行或推进动作，优先加载目标文件线索、工具预览和短期状态。"@,
        prefer_artifact_context: false,
    }
}

pub open spec fn learn_model() -> PolicyModel {
    PolicyModel {
        profile: "learn_profile"@,
        prompt_profile: "agent_resolve"@,
        include_session: false,
        include_memory: true,
        include_knowledge: true,
        include_tool_preview: false,
        skill_injection_enabled: false,
        max_skill_level: "disabled"@,
        phase_label: "learn"@,
        selection_reason: "当前是知识或记忆相关动作，优先收紧到可复用知识与记忆摘要。"@,
        prefer_artifact_context: false,
    }
}

pub open spec fn explain_model() -> PolicyModel {
    PolicyModel {
        profile: "ask_profile"@,
        prompt_profile: "context_answer"@,
        include_session: false,
        include_memory: false,
        include_knowledge: false,
        include_tool_preview: true,
        skill_injection_enabled: false,
        max_skill_level: "disabled"@,
        phase_label: "ask"@,
        selection_reason: "当前是在解释能力边界，只保留工具预览即可。"@,
        prefer_artifact_context: false,
    }
}

pub open spec fn confirmation_override_model() -> PolicyModel {
    PolicyModel {
        profile: "repair_profile"@,
        prompt_profile: "agent_resolve"@,
        include_session: true,
        include_memory: false,
        include_knowledge: false,
        include_tool_preview: false,
        skill_injection_enabled: false,
        max_skill_level: "disabled"@,
        phase_label: "repair"@,
        selection_reason: "当前存在待确认事项，优先带入短期状态恢复原主线，不注入无关知识。"@,
        prefer_artifact_context: false,
    }
}

pub open spec fn handoff_override_model() -> PolicyModel {
    PolicyModel {
        profile: "repair_profile"@,
        prompt_profile: "agent_resolve"@,
        include_session: true,
        include_memory: true,
        include_knowledge: false,
        include_tool_preview: true,
        skill_injection_enabled: true,
        max_skill_level: "level1:index-summary"@,
        phase_label: "repair"@,
        selection_reason: "当前存在长任务交接包，优先结合会话状态、记忆摘要和交接 artifact 续跑。"@,
        prefer_artifact_context: true,
    }
}

pub open spec fn recovery_override_model() -> PolicyModel {
    PolicyModel {
        profile: "repair_profile"@,
        prompt_profile: "agent_resolve"@,
        include_session: true,
        include_memory: true,
        include_knowledge: false,
        include_tool_preview: true,
        skill_injection_enabled: true,
        max_skill_level: "level1:index-summary"@,
        phase_label: "repair"@,
        selection_reason: "当前存在失败或阻塞信号，优先加载短期状态、失败线索和最近交接信息。"@,
        prefer_artifact_context: true,
    }
}

/// The tokens that mark a question about the project itself.
pub open spec fn project_knowledge_tokens() -> Seq<Seq<char>> {
    seq!["项目"@, "仓库"@, "架构"@, "文档"@, "知识"@, "思源"@, "阶段"@, "进度"@, "运行时"@]
}

pub open spec fn needs_recovery_spec(s: SessionMemory) -> bool {
    s.short_term.open_issue@.len() > 0 || s.short_term.last_run_status@ == "failed"@
}

pub open spec fn has_pending_confirmation_spec(s: SessionMemory) -> bool {
    s.short_term.pending_confirmation@.len() > 0
}

pub open spec fn has_handoff_spec(s: SessionMemory) -> bool {
    s.short_term.handoff_artifact_path@.len() > 0
}

/// A policy after the session overrides: recovery beats a handoff, which beats
/// a pending confirmation; without any of them the policy stands.
pub open spec fn with_overrides(base: PolicyModel, s: SessionMemory) -> PolicyModel {
    if needs_recovery_spec(s) {
        recovery_override_model()
    } else if has_handoff_spec(s) {
        handoff_override_model()
    } else if has_pending_confirmation_spec(s) {
        confirmation_override_model()
    } else {
        base
    }
}

pub open spec fn ask_model(user_input: Seq<char>) -> PolicyModel {
    if has_any(user_input, project_knowledge_tokens()) {
        project_ask_model()
    } else {
        context_answer_model()
    }
}

pub open spec fn action_model(a: PlannedAction) -> PolicyModel {
    match a {
        PlannedAction::ProjectAnswer => project_answer_model(),
        PlannedAction::ContextAnswer => context_answer_model(),
        PlannedAction::Explain => explain_model(),
        PlannedAction::SearchKnowledge { .. } | PlannedAction::SearchSiyuanNotes { .. }
        | PlannedAction::ReadSiyuanNote { .. } | PlannedAction::WriteSiyuanKnowledge
        | PlannedAction::WriteMemory { .. } | PlannedAction::RecallMemory { .. } => learn_model(),
        _ => act_model(),
    }
}

fn make_policy(
    profile: &str,
    prompt_profile: &str,
    include_session: bool,
    include_memory: bool,
    include_knowledge: bool,
    include_tool_preview: bool,
    skill_injection_enabled: bool,
    max_skill_level: &str,
    phase_label: &str,
    selection_reason: &str,
    prefer_artifact_context: bool,
) -> (p: ContextAssemblyPolicy)
    ensures
        policy_model(p) == (PolicyModel {
            profile: profile@,
            prompt_profile: prompt_profile@,
            include_session,
            include_memory,
            include_knowledge,
            include_tool_preview,
            skill_injection_enabled,
            max_skill_level: max_skill_level@,
            phase_label: phase_label@,
            selection_reason: selection_reason@,
            prefer_artifact_context,
        }),
{
    ContextAssemblyPolicy {
        profile: owned(profile),
        prompt_profile: owned(prompt_profile),
        include_session,
        include_memory,
        include_knowledge,
        include_tool_preview,
        skill_injection_enabled,
        max_skill_level: owned(max_skill_level),
        phase_label: owned(phase_label),
        selection_reason: owned(selection_reason),
        prefer_artifact_context,
    }
}

/// The policy for planning: project questions load project knowledge, all
/// else answers from the session; then the session overrides apply.
pub fn planning_context_policy(user_input: &str, session: &SessionMemory) -> (p: ContextAssemblyPolicy)
    ensures
        policy_model(p) == with_overrides(ask_model(user_input@), *session),
{
    apply_session_overrides(base_ask_policy(user_input), session)
}

/// The policy for executing an action; then the session overrides apply.
pub fn action_context_policy(action: &PlannedAction, session: &SessionMemory) -> (p: ContextAssemblyPolicy)
    ensures
        policy_model(p) == with_overrides(action_model(*action), *session),
{
    apply_session_overrides(base_action_policy(action), session)
}

/// The policy for a project answer.
pub fn project_answer_policy() -> (p: ContextAssemblyPolicy)
    ensures
        policy_model(p) == project_answer_model(),
{
    base_project_answer_policy()
}

/// The policy for a context answer.
pub fn context_answer_policy() -> (p: ContextAssemblyPolicy)
    ensures
        policy_model(p) == context_answer_model(),
{
    base_context_answer_policy()
}

fn base_action_policy(action: &PlannedAction) -> (p: ContextAssemblyPolicy)
    ensures
        policy_model(p) == action_model(*action),
{
    match action {
        PlannedAction::ProjectAnswer => base_project_answer_policy(),
        PlannedAction::ContextAnswer => base_context_answer_policy(),
        PlannedAction::Explain => explain_policy(),
        PlannedAction::SearchKnowledge { .. } | PlannedAction::SearchSiyuanNotes { .. }
        | PlannedAction::ReadSiyuanNote { .. } | PlannedAction::WriteSiyuanKnowledge
        | PlannedAction::WriteMemory { .. } | PlannedAction::RecallMemory { .. } => learn_policy(),
        _ => act_policy(),
    }
}

fn base_ask_policy(user_input: &str) -> (p: ContextAssemblyPolicy)
    ensures
        policy_model(p) == ask_model(user_input@),
{
    if needs_project_knowledge(user_input) {
        make_policy(
            "ask_profile",
            "project_answer",
            true,
            false,
            true,
            false,
            false,
            "disabled",
            "ask",
            "当前更像解释、比较或项目问答，优先加载会话摘要和项目知识最小包。",
            false,
        )
    } else {
        base_context_answer_policy()
    }
}

fn base_project_answer_policy() -> (p: ContextAssemblyPolicy)
    ensures
        policy_model(p) == project_answer_model(),
{
    make_policy(
        "ask_profile",
        "project_answer",
        true,
        false,
        true,
        false,
        false,
        "disabled",
        "ask",
        "当前是项目说明或状态问答，优先使用会话摘要和项目知识片段。",
        false,
    )
}

fn base_context_answer_policy() -> (p: ContextAssemblyPolicy)
    ensures
        policy_model(p) == context_answer_model(),
{
    make_policy(
        "ask_profile",
        "context_answer",
        true,
        false,
        false,
        false,
        false,
        "disabled",
        "ask",
        "当前是续推、解释或轻问答，优先使用短期会话摘要直接回答。",
        false,
    )
}

fn act_policy() -> (p: ContextAssemblyPolicy)
    ensures
        policy_model(p) == act_model(),
{
    make_policy(
        "act_profile",
        "agent_resolve",
        true,
        false,
        false,
        true,
        true,
        "level1:index-summary",
        "act",
        "当前需要执行或推进动作，优先加载目标文件线索、工具预览和短期状态。",
        false,
    )
}

fn learn_policy() -> (p: ContextAssemblyPolicy)
    ensures
        policy_model(p) == learn_model(),
{
    make_policy(
        "learn_profile",
        "agent_resolve",
        false,
        true,
        true,
        false,
        false,
        "disabled",
        "learn",
        "当前是知识或记忆相关动作，优先收紧到可复用知识与记忆摘要。",
        false,
    )
}

fn explain_policy() -> (p: ContextAssemblyPolicy)
    ensures
        policy_model(p) == explain_model(),
{
    make_policy(
        "ask_profile",
        "context_answer",
        false,
        false,
        false,
        true,
        false,
        "disabled",
        "ask",
        "当前是在解释能力边界，只保留工具预览即可。",
        false,
    )
}

fn apply_session_overrides(policy: ContextAssemblyPolicy, session: &SessionMemory) -> (p: ContextAssemblyPolicy)
    ensures
        policy_model(p) == with_overrides(policy_model(policy), *session),
{
    let mut policy = policy;
    if has_pending_confirmation(session) {
        apply_confirmation_override(&mut policy);
    }
    if has_handoff(session) {
        apply_handoff_override(&mut policy);
    }
    if needs_recovery(session) {
        apply_recovery_override(&mut policy);
    }
    policy
}

fn apply_confirmation_override(policy: &mut ContextAssemblyPolicy)
    ensures
        policy_model(*final(policy)) == confirmation_override_model(),
{
    policy.profile = owned("repair_profile");
    policy.prompt_profile = owned("agent_resolve");
    policy.include_session = true;
    policy.include_memory = false;
    policy.include_knowledge = false;
    policy.include_tool_preview = false;
    policy.skill_injection_enabled = false;
    policy.max_skill_level = owned("disabled");
    policy.phase_label = owned("repair");
    policy.selection_reason = owned("当前存在待确认事项，优先带入短期状态恢复原主线，不注入无关知识。");
    policy.prefer_artifact_context = false;
}

fn apply_handoff_override(policy: &mut ContextAssemblyPolicy)
    ensures
        policy_model(*final(policy)) == handoff_override_model(),
{
    policy.profile = owned("repair_profile");
    policy.prompt_profile = owned("agent_resolve");
    policy.include_session = true;
    policy.include_memory = true;
    policy.include_knowledge = false;
    policy.include_tool_preview = true;
    policy.skill_injection_enabled = true;
    policy.max_skill_level = owned("level1:index-summary");
    policy.phase_label = owned("repair");
    policy.selection_reason = owned("当前存在长任务交接包，优先结合会话状态、记忆摘要和交接 artifact 续跑。");
    policy.prefer_artifact_context = true;
}

fn apply_recovery_override(policy: &mut ContextAssemblyPolicy)
    ensures
        policy_model(*final(policy)) == recovery_override_model(),
{
    policy.profile = owned("repair_profile");
    policy.prompt_profile = owned("agent_resolve");
    policy.include_session = true;
    policy.include_memory = true;
    policy.include_knowledge = false;
    policy.include_tool_preview = true;
    policy.skill_injection_enabled = true;
    policy.max_skill_level = owned("level1:index-summary");
    policy.phase_label = owned("repair");
    policy.selection_reason = owned("当前存在失败或阻塞信号，优先加载短期状态、失败线索和最近交接信息。");
    policy.prefer_artifact_context = true;
}

fn needs_recovery(session: &SessionMemory) -> (res: bool)
    ensures
        res == needs_recovery_spec(*session),
{
    !session.short_term.open_issue.as_str().is_empty() || str_eq(session.short_term.last_run_status.as_str(), "failed")
}

fn has_pending_confirmation(session: &SessionMemory) -> (res: bool)
    ensures
        res == has_pending_confirmation_spec(*session),
{
    !session.short_term.pending_confirmation.as_str().is_empty()
}

fn has_handoff(session: &SessionMemory) -> (res: bool)
    ensures
        res == has_handoff_spec(*session),
{
    !session.short_term.handoff_artifact_path.as_str().is_empty()
}

fn needs_project_knowledge(user_input: &str) -> (res: bool)
    ensures
        res == has_any(user_input@, project_knowledge_tokens()),
{
    let tokens = ["项目", "仓库", "架构", "文档", "知识", "思源", "阶段", "进度", "运行时"];
    assert(tokens@.map_values(|p: &str| p@) =~= project_knowledge_tokens());
    contains_any(user_input, &tokens)
}

} // verus!
