use vstd::prelude::*;

pub mod text;
pub mod metadata;
pub mod contracts;
pub mod planner;
pub mod capabilities;
pub mod execution;
pub mod session;
pub mod context_policy;
pub mod compaction;
pub mod events;
pub mod checkpoint;
pub mod context_answer;
pub mod answer_sanitize;
pub mod answer_cache;
pub mod sensitive;
pub mod knowledge;
pub mod knowledge_store;
pub mod mcp_bridge;
pub mod memory;
pub mod memory_recall;
pub mod memory_layer;
pub mod memory_router;
pub mod handoff;
pub mod agent_resolve;
pub mod command;
pub mod mcp_call;
pub mod project_answer;
pub mod workspace;
pub mod search;
pub mod listing;
pub mod context_builder;
pub mod memory_actions;
pub mod patch;
pub mod action_decode;
pub mod direct_answers;
pub mod memory_objects;
pub mod run_outcome;
pub mod run_events;
pub mod siyuan;
pub mod artifacts;
pub mod paths;

verus! {

} // verus!
