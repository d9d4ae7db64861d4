//! The handoff artifact of a run: what a person picking the task up needs
//! to know about its plan, progress, risks and browser state.
use vstd::prelude::*;
use crate::capabilities::ToolExecutionTrace;
use crate::execution::VerificationReport;
use crate::planner::{PlannedAction, action_label, action_label_spec};
use crate::text::{push_str, views};

verus! {

/// The handoff of a run; the host writes it out as a JSON artifact.
#[derive(Clone, Debug)]
pub struct HandoffArtifact {
    pub task_title: String,
    pub current_plan: String,
    pub completed_steps: Vec<String>,
    pub open_risks: Vec<String>,
    pub browser_failure_type: String,
    pub browser_page_id: String,
    pub browser_selector: String,
    pub browser_recovery_exhausted: bool,
    pub last_readback_summary: String,
    pub next_step: String,
    pub key_artifacts: Vec<String>,
    pub verification_summary: String,
}

/// The plan line of a handoff: the action and its summary.
pub open spec fn current_plan_spec(action: PlannedAction, trace: ToolExecutionTrace) -> Seq<char> {
    "动作="@ + action_label_spec(action) + "; 摘要="@ + trace.action_summary@
}

/// The plan line of a handoff (see `current_plan_spec`).
pub fn current_plan(action: &PlannedAction, trace: &ToolExecutionTrace) -> (r: String)
    ensures
        r@ == current_plan_spec(*action, *trace),
{
    let mut out = String::from_str("动作=");
    push_str(&mut out, action_label(action));
    push_str(&mut out, "; 摘要=");
    push_str(&mut out, trace.action_summary.as_str());
    out
}

/// The steps a run went through: analysis, planning, the tool's execution
/// and observation.
pub fn completed_steps(trace: &ToolExecutionTrace) -> (r: Vec<String>)
    ensures
        r@.len() == 4,
        r@[0]@ == "Analyze"@,
        r@[1]@ == "Plan"@,
        r@[2]@ == "Execute: "@ + trace.tool.display_name@,
        r@[3]@ == "Observe"@,
{
    let mut execute = String::from_str("Execute: ");
    push_str(&mut execute, trace.tool.display_name.as_str());
    let mut steps: Vec<String> = Vec::new();
    steps.push(String::from_str("Analyze"));
    steps.push(String::from_str("Plan"));
    steps.push(execute);
    steps.push(String::from_str("Observe"));
    steps
}

/// The open risk of a run that failed verification: none when it passed.
pub fn open_risks(trace: &ToolExecutionTrace, report: &VerificationReport) -> (r: Vec<String>)
    ensures
        report.outcome.passed ==> r@.len() == 0,
        !report.outcome.passed ==> r@.len() == 1 && r@[0]@ == "验证未通过: "@ + report.outcome.summary@
            + "; 工具摘要: "@ + trace.result.summary@,
{
    let mut risks: Vec<String> = Vec::new();
    if report.outcome.passed {
        return risks;
    }
    let mut risk = String::from_str("验证未通过: ");
    push_str(&mut risk, report.outcome.summary.as_str());
    push_str(&mut risk, "; 工具摘要: ");
    push_str(&mut risk, trace.result.summary.as_str());
    risks.push(risk);
    risks
}

/// The artifacts a run produced: the tool's artifact, if any.
pub fn key_artifacts(trace: &ToolExecutionTrace) -> (r: Vec<String>)
    ensures
        match trace.result.artifact_path {
            Some(p) => r@.len() == 1 && r@[0] == p,
            None => r@.len() == 0,
        },
{
    let mut out: Vec<String> = Vec::new();
    match &trace.result.artifact_path {
        Some(p) => out.push(p.clone()),
        None => {},
    }
    out
}

/// What the last read-back showed: the tool's summary after a browser
/// recovery, else nothing.
pub fn last_readback_summary(trace: &ToolExecutionTrace, report: &VerificationReport) -> (r: String)
    ensures
        r@ == if report.outcome.browser_recovery_attempted { trace.result.summary@ } else { Seq::empty() },
{
    if report.outcome.browser_recovery_attempted {
        return trace.result.summary.clone();
    }
    String::new()
}

/// The handoff artifact of a run.
pub fn handoff_artifact(
    task_title: &str,
    action: &PlannedAction,
    trace: &ToolExecutionTrace,
    report: &VerificationReport,
) -> (a: HandoffArtifact)
    ensures
        a.task_title@ == task_title@,
        a.current_plan@ == current_plan_spec(*action, *trace),
        views(a.completed_steps@) == seq!["Analyze"@, "Plan"@, "Execute: "@ + trace.tool.display_name@, "Observe"@],
        views(a.open_risks@) == if report.outcome.passed {
            Seq::<Seq<char>>::empty()
        } else {
            seq!["验证未通过: "@ + report.outcome.summary@ + "; 工具摘要: "@ + trace.result.summary@]
        },
        a.browser_failure_type == report.outcome.browser_failure_type,
        a.browser_page_id == report.outcome.browser_page_id,
        a.browser_selector == report.outcome.browser_selector,
        a.browser_recovery_exhausted == report.outcome.browser_recovery_exhausted,
        a.last_readback_summary@ == if report.outcome.browser_recovery_attempted {
            trace.result.summary@
        } else {
            Seq::empty()
        },
        a.next_step == report.outcome.next_step,
        views(a.key_artifacts@) == match trace.result.artifact_path {
            Some(p) => seq![p@],
            None => Seq::<Seq<char>>::empty(),
        },
        a.verification_summary == report.outcome.summary,
{
    let steps = completed_steps(trace);
    let risks = open_risks(trace, report);
    let artifacts = key_artifacts(trace);
    assert(views(steps@) =~= seq!["Analyze"@, "Plan"@, "Execute: "@ + trace.tool.display_name@, "Observe"@]);
    assert(views(risks@) =~= if report.outcome.passed {
        Seq::<Seq<char>>::empty()
    } else {
        seq!["验证未通过: "@ + report.outcome.summary@ + "; 工具摘要: "@ + trace.result.summary@]
    });
    assert(views(artifacts@) =~= match trace.result.artifact_path {
        Some(p) => seq![p@],
        None => Seq::<Seq<char>>::empty(),
    });
    HandoffArtifact {
        task_title: String::from_str(task_title),
        current_plan: current_plan(action, trace),
        completed_steps: steps,
        open_risks: risks,
        browser_failure_type: report.outcome.browser_failure_type.clone(),
        browser_page_id: report.outcome.browser_page_id.clone(),
        browser_selector: report.outcome.browser_selector.clone(),
        browser_recovery_exhausted: report.outcome.browser_recovery_exhausted,
        last_readback_summary: last_readback_summary(trace, report),
        next_step: report.outcome.next_step.clone(),
        key_artifacts: artifacts,
        verification_summary: report.outcome.summary.clone(),
    }
}

} // verus!
