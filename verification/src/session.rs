//! The short-term state of a conversation that the runtime keeps per session.
use vstd::prelude::*;

verus! {

/// One finished turn of a session.
#[derive(Clone, Debug)]
pub struct SessionTurn {
    pub user_input: String,
    pub final_answer: String,
    pub summary: String,
    pub timestamp: String,
}

/// The working state of a session.
#[derive(Clone, Debug)]
pub struct ShortTermMemory {
    pub current_goal: String,
    pub current_plan: String,
    pub open_issue: String,
    pub pending_confirmation: String,
    pub handoff_artifact_path: String,
    pub last_run_status: String,
}

impl Default for ShortTermMemory {
    fn default() -> (m: Self)
        ensures
            m.current_goal@.len() == 0,
            m.current_plan@.len() == 0,
            m.open_issue@.len() == 0,
            m.pending_confirmation@.len() == 0,
            m.handoff_artifact_path@.len() == 0,
            m.last_run_status@.len() == 0,
    {
        ShortTermMemory {
            current_goal: String::new(),
            current_plan: String::new(),
            open_issue: String::new(),
            pending_confirmation: String::new(),
            handoff_artifact_path: String::new(),
            last_run_status: String::new(),
        }
    }
}

/// A session: its id, working state, recent turns and their compressed summary.
#[derive(Clone, Debug)]
pub struct SessionMemory {
    pub session_id: String,
    pub short_term: ShortTermMemory,
    pub recent_turns: Vec<SessionTurn>,
    pub compressed_summary: String,
}

impl Default for SessionMemory {
    fn default() -> (m: Self)
        ensures
            m.session_id@.len() == 0,
            m.short_term.current_goal@.len() == 0,
            m.short_term.current_plan@.len() == 0,
            m.short_term.open_issue@.len() == 0,
            m.short_term.pending_confirmation@.len() == 0,
            m.short_term.handoff_artifact_path@.len() == 0,
            m.short_term.last_run_status@.len() == 0,
            m.recent_turns@.len() == 0,
            m.compressed_summary@.len() == 0,
    {
        SessionMemory {
            session_id: String::new(),
            short_term: ShortTermMemory::default(),
            recent_turns: Vec::new(),
            compressed_summary: String::new(),
        }
    }
}

} // verus!
