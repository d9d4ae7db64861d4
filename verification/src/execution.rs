//! The outcome of executing one planned action, and the verification report
//! that judges it.
use vstd::prelude::*;
use crate::text::owned;

verus! {

/// What the execution of one action produced.
#[derive(Clone, Debug)]
pub struct ActionExecution {
    pub action_summary: String,
    pub result_summary: String,
    pub final_answer: String,
    pub detail_preview: String,
    pub raw_output: String,
    pub result_chars: usize,
    pub single_result_budget_chars: usize,
    pub single_result_budget_hit: bool,
    pub success: bool,
    pub memory_write_summary: Option<String>,
    pub reasoning_summary: String,
    pub cache_status: String,
    pub cache_reason: String,
}

/// The view of an optional string.
pub open spec fn opt_view(o: Option<String>) -> Option<Seq<char>> {
    match o {
        Some(s) => Some(s@),
        None => None,
    }
}

/// An execution record with the given texts, no preview, raw output or budget figures.
pub open spec fn plain_execution(
    e: ActionExecution,
    action_summary: Seq<char>,
    result_summary: Seq<char>,
    final_answer: Seq<char>,
    success: bool,
    memory_write_summary: Option<Seq<char>>,
    reasoning_summary: Seq<char>,
    cache_status: Seq<char>,
    cache_reason: Seq<char>,
) -> bool {
    &&& e.action_summary@ == action_summary
    &&& e.result_summary@ == result_summary
    &&& e.final_answer@ == final_answer
    &&& e.detail_preview@ == Seq::<char>::empty()
    &&& e.raw_output@ == Seq::<char>::empty()
    &&& e.result_chars == 0
    &&& e.single_result_budget_chars == 0
    &&& !e.single_result_budget_hit
    &&& e.success == success
    &&& opt_view(e.memory_write_summary) == memory_write_summary
    &&& e.reasoning_summary@ == reasoning_summary
    &&& e.cache_status@ == cache_status
    &&& e.cache_reason@ == cache_reason
}

impl ActionExecution {
    /// A successful execution that did not consult the answer cache.
    pub fn bypass_ok(
        action_summary: String,
        result_summary: String,
        final_answer: String,
        reasoning_summary: String,
        cache_reason: &str,
    ) -> (e: Self)
        ensures
            plain_execution(e, action_summary@, result_summary@, final_answer@, true, None, reasoning_summary@, "bypass"@, cache_reason@),
    {
        Self::bypass(action_summary, result_summary, final_answer, true, None, reasoning_summary, cache_reason)
    }

    /// A failed execution that did not consult the answer cache.
    pub fn bypass_fail(
        action_summary: String,
        result_summary: String,
        final_answer: String,
        reasoning_summary: String,
        cache_reason: &str,
    ) -> (e: Self)
        ensures
            plain_execution(e, action_summary@, result_summary@, final_answer@, false, None, reasoning_summary@, "bypass"@, cache_reason@),
    {
        Self::bypass(action_summary, result_summary, final_answer, false, None, reasoning_summary, cache_reason)
    }

    /// A successful memory write: its summary is both the result summary and the memory write summary.
    pub fn bypass_ok_with_memory_summary(
        action_summary: String,
        memory_write_summary: String,
        final_answer: String,
        reasoning_summary: String,
        cache_reason: &str,
    ) -> (e: Self)
        ensures
            plain_execution(
                e,
                action_summary@,
                memory_write_summary@,
                final_answer@,
                true,
                Some(memory_write_summary@),
                reasoning_summary@,
                "bypass"@,
                cache_reason@,
            ),
    {
        let copy = memory_write_summary.clone();
        Self::bypass(action_summary, copy, final_answer, true, Some(memory_write_summary), reasoning_summary, cache_reason)
    }

    /// An execution that did not consult the answer cache.
    pub fn bypass(
        action_summary: String,
        result_summary: String,
        final_answer: String,
        success: bool,
        memory_write_summary: Option<String>,
        reasoning_summary: String,
        cache_reason: &str,
    ) -> (e: Self)
        ensures
            plain_execution(
                e,
                action_summary@,
                result_summary@,
                final_answer@,
                success,
                opt_view(memory_write_summary),
                reasoning_summary@,
                "bypass"@,
                cache_reason@,
            ),
    {
        Self {
            action_summary,
            result_summary,
            final_answer,
            detail_preview: String::new(),
            raw_output: String::new(),
            result_chars: 0,
            single_result_budget_chars: 0,
            single_result_budget_hit: false,
            success,
            memory_write_summary,
            reasoning_summary,
            cache_status: owned("bypass"),
            cache_reason: owned(cache_reason),
        }
    }

    /// A successful execution with the cache status and reason given.
    pub fn cached_ok(
        action_summary: String,
        result_summary: String,
        final_answer: String,
        reasoning_summary: String,
        cache_status: String,
        cache_reason: String,
    ) -> (e: Self)
        ensures
            plain_execution(e, action_summary@, result_summary@, final_answer@, true, None, reasoning_summary@, cache_status@, cache_reason@),
    {
        Self::cached(action_summary, result_summary, final_answer, true, None, reasoning_summary, cache_status, cache_reason)
    }

    /// An execution with the cache status and reason given.
    pub fn cached(
        action_summary: String,
        result_summary: String,
        final_answer: String,
        success: bool,
        memory_write_summary: Option<String>,
        reasoning_summary: String,
        cache_status: String,
        cache_reason: String,
    ) -> (e: Self)
        ensures
            plain_execution(
                e,
                action_summary@,
                result_summary@,
                final_answer@,
                success,
                opt_view(memory_write_summary),
                reasoning_summary@,
                cache_status@,
                cache_reason@,
            ),
    {
        Self {
            action_summary,
            result_summary,
            final_answer,
            detail_preview: String::new(),
            raw_output: String::new(),
            result_chars: 0,
            single_result_budget_chars: 0,
            single_result_budget_hit: false,
            success,
            memory_write_summary,
            reasoning_summary,
            cache_status,
            cache_reason,
        }
    }
}

/// The judgement of one executed action.
#[derive(Clone, Debug)]
pub struct VerificationOutcome {
    pub passed: bool,
    pub code: String,
    pub browser_failure_type: String,
    pub browser_page_id: String,
    pub browser_selector: String,
    pub browser_recovery_attempted: bool,
    pub browser_recovery_exhausted: bool,
    pub policy: String,
    pub task_type: String,
    pub evidence: Vec<String>,
    pub evidence_count: usize,
    pub has_citation: bool,
    pub fact_inference_split: bool,
    pub capability_risk_checked: bool,
    pub permission_boundary_respected: bool,
    pub skill_hit_effective: bool,
    pub skill_hit_reason: String,
    pub guard_downgraded: bool,
    pub guard_decision_ref: String,
    pub summary: String,
    pub next_step: String,
}

/// A verification outcome with the figures of the executed tool call.
#[derive(Clone, Debug)]
pub struct VerificationReport {
    pub outcome: VerificationOutcome,
    pub tool_elapsed_ms: u64,
    pub result_chars: usize,
    pub single_result_budget_chars: usize,
    pub single_result_budget_hit: bool,
}

/// Whether a run may close as completed, and why.
#[derive(Clone, Debug)]
pub struct CompletionDecision {
    pub status: String,
    pub reason: String,
}

pub open spec fn completion_status_spec(code: Seq<char>, passed: bool) -> Seq<char> {
    if code == "verified_with_recovery"@ || passed {
        "completed"@
    } else {
        "failed"@
    }
}

pub open spec fn completion_reason_spec(code: Seq<char>, passed: bool) -> Seq<char> {
    if code == "verified_with_recovery"@ {
        "当前任务经单次受控恢复后通过验证。"@
    } else if passed {
        "当前任务满足收口条件。"@
    } else {
        "当前任务未通过验证，不能按完成收口。"@
    }
}

/// A run completes when its verification passed or passed after one recovery.
pub fn decide_completion(report: &VerificationReport) -> (d: CompletionDecision)
    ensures
        d.status@ == completion_status_spec(report.outcome.code@, report.outcome.passed),
        d.reason@ == completion_reason_spec(report.outcome.code@, report.outcome.passed),
{
    if crate::text::str_eq(report.outcome.code.as_str(), "verified_with_recovery") {
        CompletionDecision {
            status: owned("completed"),
            reason: owned("当前任务经单次受控恢复后通过验证。"),
        }
    } else if report.outcome.passed {
        CompletionDecision { status: owned("completed"), reason: owned("当前任务满足收口条件。") }
    } else {
        CompletionDecision {
            status: owned("failed"),
            reason: owned("当前任务未通过验证，不能按完成收口。"),
        }
    }
}

} // verus!
