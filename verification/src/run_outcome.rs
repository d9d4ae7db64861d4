//! How a run reports its end: the finish status, the error of a failed
//! action, and the titles and next steps its events show.
use vstd::prelude::*;
use crate::capabilities::ToolExecutionTrace;
use crate::contracts::{ErrorInfo, RunRequest, RunResult};
use crate::execution::CompletionDecision;
use crate::metadata::Metadata;

verus! {

/// The status a run finishes with.
pub fn finish_status(success: bool) -> (r: &'static str)
    ensures
        r@ == if success { "completed"@ } else { "failed"@ },
{
    if success { "completed" } else { "failed" }
}

/// The next step after an action completed.
pub fn action_completed_next_step(success: bool) -> (r: String)
    ensures
        r@ == if success { "准备整理结果并验证"@ } else { "准备收口失败结果"@ },
{
    if success {
        String::from_str("准备整理结果并验证")
    } else {
        String::from_str("准备收口失败结果")
    }
}

/// The title of the verification event.
pub fn verification_summary_title(success: bool) -> (r: &'static str)
    ensures
        r@ == if success { "已形成验证结果"@ } else { "已形成失败验证结果"@ },
{
    if success { "已形成验证结果" } else { "已形成失败验证结果" }
}

/// The error a failed action leaves on the run: its error code (or
/// `action_execution_failed`), answer, summary and retryability, raised by
/// the runtime at the finish stage; none when the action succeeded.
pub fn build_failure_error(trace: &ToolExecutionTrace) -> (r: Option<ErrorInfo>)
    ensures
        trace.result.success ==> r is None,
        !trace.result.success ==> (r matches Some(e) && e.error_code@ == match trace.result.error_code {
            Some(c) => c@,
            None => "action_execution_failed"@,
        } && e.message@ == trace.result.final_answer@ && e.summary@ == trace.result.summary@ && e.retryable
            == trace.result.retryable && e.source@ == "runtime"@ && e.stage@ == "Finish"@ && e.metadata@
            == Map::<Seq<char>, Seq<char>>::empty()),
{
    if trace.result.success {
        return None;
    }
    let code = match &trace.result.error_code {
        Some(c) => c.clone(),
        None => String::from_str("action_execution_failed"),
    };
    Some(ErrorInfo {
        error_code: code,
        message: trace.result.final_answer.clone(),
        summary: trace.result.summary.clone(),
        retryable: trace.result.retryable,
        source: String::from_str("runtime"),
        stage: String::from_str("Finish"),
        metadata: Metadata::new(),
    })
}

/// The result a finished run returns: the request's identity, the status
/// the completion decision gave, the action's answer, summary and memory
/// summary, and the error (if any), closed at the finish stage with no
/// checkpoint.
pub fn build_run_result(
    request: &RunRequest,
    trace: &ToolExecutionTrace,
    completion: &CompletionDecision,
    error: Option<ErrorInfo>,
) -> (r: RunResult)
    ensures
        r.request_id@ == request.request_id@,
        r.run_id@ == request.run_id@,
        r.session_id@ == request.session_id@,
        r.trace_id@ == request.trace_id@,
        r.kind@ == "run_result"@,
        r.source@ == "runtime"@,
        r.status@ == completion.status@,
        r.final_answer@ == trace.result.final_answer@,
        r.summary@ == trace.result.summary@,
        r.error == error,
        match (r.memory_write_summary, trace.result.memory_write_summary) {
            (Some(a), Some(b)) => a@ == b@,
            (None, None) => true,
            _ => false,
        },
        r.final_stage@ == "Finish"@,
        r.checkpoint_id is None,
        r.resumable is None,
{
    let memory_write_summary = match &trace.result.memory_write_summary {
        Some(s) => Some(s.clone()),
        None => None,
    };
    RunResult {
        request_id: request.request_id.clone(),
        run_id: request.run_id.clone(),
        session_id: request.session_id.clone(),
        trace_id: request.trace_id.clone(),
        kind: String::from_str("run_result"),
        source: String::from_str("runtime"),
        status: completion.status.clone(),
        final_answer: trace.result.final_answer.clone(),
        summary: trace.result.summary.clone(),
        error,
        memory_write_summary,
        final_stage: String::from_str("Finish"),
        checkpoint_id: None,
        resumable: None,
    }
}

/// What the risk check made of a request.
#[derive(Clone, Copy, Debug, PartialEq, Eq)]
pub enum RiskOutcome {
    /// The action may run.
    Proceed,
    /// The action waits for a person to confirm it.
    RequireConfirmation,
    /// The mode forbids the action.
    Blocked,
}

/// The next step the analysis event announces, by the risk outcome.
pub fn analysis_next_step(risk: RiskOutcome) -> (r: String)
    ensures
        r@ == match risk {
            RiskOutcome::Blocked => "受模式策略限制，准备收口"@,
            RiskOutcome::RequireConfirmation => "需要等待人工确认"@,
            RiskOutcome::Proceed => "准备生成执行计划"@,
        },
{
    match risk {
        RiskOutcome::Blocked => String::from_str("受模式策略限制，准备收口"),
        RiskOutcome::RequireConfirmation => String::from_str("需要等待人工确认"),
        RiskOutcome::Proceed => String::from_str("准备生成执行计划"),
    }
}

/// What the main loop does after an iteration.
#[derive(Clone, Copy, Debug, PartialEq, Eq)]
pub enum LoopStep {
    /// No more observation is needed: the iteration closes and the result is verified.
    Verify,
    /// More was wanted but the iteration budget is spent: the budget event
    /// is raised and the result is verified.
    BudgetExhausted,
    /// More is wanted and budget remains: a next plan is built; when one is,
    /// the iteration closes and a replan is requested, else the result is verified.
    Replan,
}

/// The main loop's step after an iteration, from whether the result asks
/// for another step and whether the iteration budget is spent.
pub fn next_loop_step(should_replan: bool, budget_exhausted: bool) -> (r: LoopStep)
    ensures
        !should_replan ==> r == LoopStep::Verify,
        should_replan && budget_exhausted ==> r == LoopStep::BudgetExhausted,
        should_replan && !budget_exhausted ==> r == LoopStep::Replan,
{
    if !should_replan {
        LoopStep::Verify
    } else if budget_exhausted {
        LoopStep::BudgetExhausted
    } else {
        LoopStep::Replan
    }
}

/// The reason the iteration-completed event gives: moving on to
/// verification, or to a further action.
pub fn iteration_completed_reason(replanning: bool) -> (r: &'static str)
    ensures
        r@ == if replanning { "当前动作已完成，进入补充动作"@ } else { "当前动作已完成，准备进入验证"@ },
{
    if replanning { "当前动作已完成，进入补充动作" } else { "当前动作已完成，准备进入验证" }
}

/// The reason a replan is requested.
pub const REPLAN_REASON: &'static str = "上一步结果显示仍需补充观察";

} // verus!
