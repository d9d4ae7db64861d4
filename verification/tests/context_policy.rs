use runtime_core::context_policy::{action_context_policy, project_answer_policy};
use runtime_core::planner::PlannedAction;
use runtime_core::session::{SessionMemory, ShortTermMemory};

fn empty_session() -> SessionMemory {
    SessionMemory {
        session_id: "session-1".to_string(),
        short_term: ShortTermMemory::default(),
        recent_turns: Vec::new(),
        compressed_summary: String::new(),
    }
}

#[test]
fn project_answer_uses_ask_profile() {
    let policy = project_answer_policy();
    assert_eq!(policy.profile, "ask_profile");
    assert_eq!(policy.prompt_profile, "project_answer");
    assert!(!policy.skill_injection_enabled);
}

#[test]
fn agent_resolve_uses_act_profile() {
    let policy = action_context_policy(&PlannedAction::AgentResolve, &empty_session());
    assert_eq!(policy.profile, "act_profile");
    assert_eq!(policy.prompt_profile, "agent_resolve");
    assert!(policy.include_tool_preview);
}

#[test]
fn knowledge_action_uses_learn_profile() {
    let policy = action_context_policy(
        &PlannedAction::SearchKnowledge {
            query: "runtime".to_string(),
        },
        &empty_session(),
    );
    assert_eq!(policy.profile, "learn_profile");
    assert!(policy.include_memory);
    assert!(policy.include_knowledge);
}

#[test]
fn recovery_override_forces_repair_profile() {
    let session = SessionMemory {
        session_id: "session-1".to_string(),
        short_term: ShortTermMemory {
            open_issue: "temporary failure".to_string(),
            last_run_status: "failed".to_string(),
            ..Default::default()
        },
        recent_turns: Vec::new(),
        compressed_summary: String::new(),
    };
    let policy = action_context_policy(&PlannedAction::AgentResolve, &session);
    assert_eq!(policy.profile, "repair_profile");
    assert_eq!(policy.phase_label, "repair");
    assert!(!policy.include_knowledge);
}
