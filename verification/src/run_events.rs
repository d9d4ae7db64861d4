//! The events a run emits as its main loop proceeds: started, analysed,
//! each iteration's plan, action and close, a replan or the end of the
//! budget, and the memory written at the finish. Each carries the run's
//! base table (task, plan and repository fields) with its own additions.
use vstd::prelude::*;
use crate::capabilities::ToolExecutionTrace;
use crate::contracts::{RunEvent, RunRequest};
use crate::events::{event_matches, make_event};
use crate::metadata::Metadata;
use crate::run_outcome::{action_completed_next_step, analysis_next_step, RiskOutcome};
use crate::text::{dec, push_str, u64_text, usize_text};

verus! {

/// The base table of a run's events: the task title and the current plan
/// (iteration, budget, goal, step, stop condition), then the repository's
/// fields, which win on a shared key.
pub open spec fn base_metadata_spec(
    task_title: Seq<char>,
    iteration_index: u32,
    max_iterations: u32,
    goal: Seq<char>,
    current_step: Seq<char>,
    stop_condition: Seq<char>,
    repo: Map<Seq<char>, Seq<char>>,
) -> Map<Seq<char>, Seq<char>> {
    Map::<Seq<char>, Seq<char>>::empty()
        .insert("task_title"@, task_title)
        .insert("iteration_index"@, dec(iteration_index as nat))
        .insert("max_iterations"@, dec(max_iterations as nat))
        .insert("plan_goal"@, goal)
        .insert("plan_current_step"@, current_step)
        .insert("plan_stop_condition"@, stop_condition)
        .union_prefer_right(repo)
}

/// The base table of a run's events (see `base_metadata_spec`).
pub fn base_run_metadata(
    task_title: &str,
    iteration_index: u32,
    max_iterations: u32,
    goal: &str,
    current_step: &str,
    stop_condition: &str,
    repo: &Metadata,
) -> (m: Metadata)
    ensures
        m@ == base_metadata_spec(task_title@, iteration_index, max_iterations, goal@, current_step@, stop_condition@, repo@),
{
    let mut m = Metadata::new();
    m.set("task_title", task_title);
    let i = u64_text(iteration_index as u64);
    m.set("iteration_index", i.as_str());
    let n = u64_text(max_iterations as u64);
    m.set("max_iterations", n.as_str());
    m.set("plan_goal", goal);
    m.set("plan_current_step", current_step);
    m.set("plan_stop_condition", stop_condition);
    m.extend(repo);
    m
}

/// The event that opens a run.
pub fn run_started_event(
    request: &RunRequest,
    sequence: u32,
    base: &Metadata,
    visible_tool_count: usize,
    timestamp: &str,
    prompt: &str,
) -> (e: RunEvent)
    ensures
        e.sequence == sequence,
        e.metadata@ == base@.insert("next_step"@, "分析用户输入"@).insert("visible_tool_count"@, dec(visible_tool_count as nat)),
        event_matches(e, *request, sequence, "run_started"@, "Analyze"@, "开始处理任务"@,
            "Go 控制面已经把本次任务提交给 Rust 运行时。"@, e.metadata, timestamp@, prompt@),
{
    let mut m = base.duplicate();
    m.set("next_step", "分析用户输入");
    let count = usize_text(visible_tool_count);
    m.set("visible_tool_count", count.as_str());
    make_event(request, sequence, "run_started", "Analyze", "开始处理任务", "Go 控制面已经把本次任务提交给 Rust 运行时。", m,
        timestamp, prompt)
}

/// The event after the input was analysed: the next step the risk check
/// leads to, and the number of recent turns when the session has a summary.
pub fn analysis_ready_event(
    request: &RunRequest,
    sequence: u32,
    base: &Metadata,
    risk: RiskOutcome,
    session_turns: Option<usize>,
    analysis_detail: &str,
    timestamp: &str,
    prompt: &str,
) -> (e: RunEvent)
    ensures
        e.sequence == sequence,
        e.metadata@ == ({
            let m = base@.insert("next_step"@, match risk {
                RiskOutcome::Blocked => "受模式策略限制，准备收口"@,
                RiskOutcome::RequireConfirmation => "需要等待人工确认"@,
                RiskOutcome::Proceed => "准备生成执行计划"@,
            });
            match session_turns {
                Some(n) => m.insert("session_turn_count"@, dec(n as nat)),
                None => m,
            }
        }),
        event_matches(e, *request, sequence, "analysis_ready"@, "Analyze"@, "已分析用户输入"@, analysis_detail@, e.metadata,
            timestamp@, prompt@),
{
    let mut m = base.duplicate();
    let step = analysis_next_step(risk);
    m.set("next_step", step.as_str());
    match session_turns {
        Some(n) => {
            let count = usize_text(n);
            m.set("session_turn_count", count.as_str());
        },
        None => {},
    }
    make_event(request, sequence, "analysis_ready", "Analyze", "已分析用户输入", analysis_detail, m, timestamp, prompt)
}

/// The event that opens an iteration of the plan, detailed by its current step.
pub fn iteration_started_event(
    request: &RunRequest,
    sequence: u32,
    base: &Metadata,
    current_step: &str,
    timestamp: &str,
    prompt: &str,
) -> (e: RunEvent)
    ensures
        e.sequence == sequence,
        e.metadata@ == base@.insert("reason"@, "开始执行当前计划迭代"@).insert("next_step"@, "执行当前动作"@),
        event_matches(e, *request, sequence, "plan_iteration_started"@, "Plan"@, "开始执行计划迭代"@, current_step@,
            e.metadata, timestamp@, prompt@),
{
    let mut m = base.duplicate();
    m.set("reason", "开始执行当前计划迭代");
    m.set("next_step", "执行当前动作");
    make_event(request, sequence, "plan_iteration_started", "Plan", "开始执行计划迭代", current_step, m, timestamp, prompt)
}

/// The event once the iteration's plan is known: the tool it will call.
pub fn plan_ready_event(
    request: &RunRequest,
    sequence: u32,
    action_metadata: &Metadata,
    trace: &ToolExecutionTrace,
    timestamp: &str,
    prompt: &str,
) -> (e: RunEvent)
    ensures
        e.sequence == sequence,
        e.metadata@ == action_metadata@.insert("next_step"@, "执行 "@ + trace.tool.display_name@),
        event_matches(e, *request, sequence, "plan_ready"@, "Plan"@, "已生成当前执行计划"@, trace.action_summary@, e.metadata,
            timestamp@, prompt@),
{
    let mut m = action_metadata.duplicate();
    let mut step = String::from_str("执行 ");
    push_str(&mut step, trace.tool.display_name.as_str());
    m.set("next_step", step.as_str());
    make_event(request, sequence, "plan_ready", "Plan", "已生成当前执行计划", trace.action_summary.as_str(), m, timestamp,
        prompt)
}

/// The event before the tool is called: the workspace, mode and the tool's risk.
pub fn action_requested_event(
    request: &RunRequest,
    sequence: u32,
    action_metadata: &Metadata,
    trace: &ToolExecutionTrace,
    timestamp: &str,
    prompt: &str,
) -> (e: RunEvent)
    ensures
        e.sequence == sequence,
        e.metadata@ == action_metadata@.insert("workspace_id"@, request.workspace_ref.workspace_id@).insert("mode"@,
            request.mode@).insert("tool_risk_level"@, trace.tool.risk_level@).insert("next_step"@, "等待工具执行结果"@),
        event_matches(e, *request, sequence, "action_requested"@, "Execute"@, "准备调用 "@ + trace.tool.display_name@,
            trace.action_summary@, e.metadata, timestamp@, prompt@),
{
    let mut m = action_metadata.duplicate();
    m.set("workspace_id", request.workspace_ref.workspace_id.as_str());
    m.set("mode", request.mode.as_str());
    m.set("tool_risk_level", trace.tool.risk_level.as_str());
    m.set("next_step", "等待工具执行结果");
    let mut title = String::from_str("准备调用 ");
    push_str(&mut title, trace.tool.display_name.as_str());
    make_event(request, sequence, "action_requested", "Execute", title.as_str(), trace.action_summary.as_str(), m, timestamp,
        prompt)
}

/// The event after the tool returned: its summary, its artifact if any,
/// and the next step its success leads to.
pub fn action_completed_event(
    request: &RunRequest,
    sequence: u32,
    action_metadata: &Metadata,
    trace: &ToolExecutionTrace,
    timestamp: &str,
    prompt: &str,
) -> (e: RunEvent)
    ensures
        e.sequence == sequence,
        e.metadata@ == ({
            let m = action_metadata@.insert("result_summary"@, trace.result.summary@);
            let m2 = match trace.result.artifact_path {
                Some(p) => m.insert("artifact_path"@, p@),
                None => m,
            };
            m2.insert("next_step"@, if trace.result.success { "准备整理结果并验证"@ } else { "准备收口失败结果"@ })
        }),
        event_matches(e, *request, sequence, "action_completed"@, "Observe"@, trace.tool.display_name@ + " 已完成"@,
            trace.result.summary@, e.metadata, timestamp@, prompt@),
{
    let mut m = action_metadata.duplicate();
    m.set("result_summary", trace.result.summary.as_str());
    match &trace.result.artifact_path {
        Some(p) => m.set("artifact_path", p.as_str()),
        None => {},
    }
    let step = action_completed_next_step(trace.result.success);
    m.set("next_step", step.as_str());
    let mut title = trace.tool.display_name.clone();
    push_str(&mut title, " 已完成");
    make_event(request, sequence, "action_completed", "Observe", title.as_str(), trace.result.summary.as_str(), m, timestamp,
        prompt)
}

/// The event that closes an iteration, for the reason given.
pub fn iteration_completed_event(
    request: &RunRequest,
    sequence: u32,
    base: &Metadata,
    reason: &str,
    timestamp: &str,
    prompt: &str,
) -> (e: RunEvent)
    ensures
        e.sequence == sequence,
        e.metadata@ == base@.insert("reason"@, reason@).insert("next_step"@, "判断是否需要继续迭代"@),
        event_matches(e, *request, sequence, "plan_iteration_completed"@, "Observe"@, "当前计划迭代已完成"@, reason@,
            e.metadata, timestamp@, prompt@),
{
    let mut m = base.duplicate();
    m.set("reason", reason);
    m.set("next_step", "判断是否需要继续迭代");
    make_event(request, sequence, "plan_iteration_completed", "Observe", "当前计划迭代已完成", reason, m, timestamp, prompt)
}

/// The event that asks the loop for another plan, for the reason given.
pub fn replan_requested_event(
    request: &RunRequest,
    sequence: u32,
    base: &Metadata,
    reason: &str,
    timestamp: &str,
    prompt: &str,
) -> (e: RunEvent)
    ensures
        e.sequence == sequence,
        e.metadata@ == base@.insert("reason"@, reason@).insert("next_step"@, "切换到下一步补充动作"@),
        event_matches(e, *request, sequence, "replan_requested"@, "Plan"@, "主循环请求重规划"@, reason@, e.metadata,
            timestamp@, prompt@),
{
    let mut m = base.duplicate();
    m.set("reason", reason);
    m.set("next_step", "切换到下一步补充动作");
    make_event(request, sequence, "replan_requested", "Plan", "主循环请求重规划", reason, m, timestamp, prompt)
}

/// The event when the loop ran out of iterations.
pub fn budget_exhausted_event(
    request: &RunRequest,
    sequence: u32,
    base: &Metadata,
    timestamp: &str,
    prompt: &str,
) -> (e: RunEvent)
    ensures
        e.sequence == sequence,
        e.metadata@ == base@.insert("reason"@, "达到迭代预算上限，准备生成 handoff"@).insert("next_step"@,
            "停止自动续跑并进入验证"@),
        event_matches(e, *request, sequence, "iteration_budget_exhausted"@, "Observe"@, "主循环达到预算上限"@,
            "已停止继续自动迭代，并准备生成 handoff 供后续接力。"@, e.metadata, timestamp@, prompt@),
{
    let mut m = base.duplicate();
    m.set("reason", "达到迭代预算上限，准备生成 handoff");
    m.set("next_step", "停止自动续跑并进入验证");
    make_event(request, sequence, "iteration_budget_exhausted", "Observe", "主循环达到预算上限",
        "已停止继续自动迭代，并准备生成 handoff 供后续接力。", m, timestamp, prompt)
}

/// The event that long-term memory was written, when the action wrote some
/// (its memory summary); none otherwise.
pub fn memory_written_event(
    request: &RunRequest,
    sequence: u32,
    task_title: &str,
    repo: &Metadata,
    trace: &ToolExecutionTrace,
    timestamp: &str,
    prompt: &str,
) -> (r: Option<RunEvent>)
    ensures
        trace.result.memory_write_summary is None ==> r is None,
        trace.result.memory_write_summary matches Some(summary) ==> (r matches Some(e) && e.sequence == sequence
            && e.metadata@ == Map::<Seq<char>, Seq<char>>::empty().insert("memory_kind"@, "explicit_memory"@).insert(
            "memory_scope"@, request.workspace_ref.workspace_id@).insert("task_title"@, task_title@).insert("next_step"@,
            "准备完成本次任务"@).union_prefer_right(repo@) && event_matches(e, *request, sequence, "memory_written"@,
            "Finish"@, "已写入长期记忆"@, summary@, e.metadata, timestamp@, prompt@)),
{
    let summary = match &trace.result.memory_write_summary {
        Some(s) => s,
        None => { return None; },
    };
    let mut m = Metadata::new();
    m.set("memory_kind", "explicit_memory");
    m.set("memory_scope", request.workspace_ref.workspace_id.as_str());
    m.set("task_title", task_title);
    m.set("next_step", "准备完成本次任务");
    m.extend(repo);
    Some(make_event(request, sequence, "memory_written", "Finish", "已写入长期记忆", summary.as_str(), m, timestamp, prompt))
}

} // verus!
