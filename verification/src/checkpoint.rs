//! Run checkpoints: the snapshot written after a run, the event that records
//! it, and the decision and event when a later request asks to resume from it.
//! Reading and writing the checkpoint store is the host's part; the functions
//! here take what was read and say what follows.
use vstd::prelude::*;
use crate::contracts::{ConfirmationDecision, RunEvent, RunRequest, RunResult, RuntimeRunResponse};
use crate::events::{event_matches, make_event, resequence_events, resequenced, with_sequence};
use crate::metadata::Metadata;
use crate::text::{
    dec, has_prefix, is_blank, push_str, str_eq, strip_prefix, trim, trimmed, u64_text, views,
};

verus! {

/// The snapshot of a finished run that a later request can resume from.
#[derive(Clone, Debug)]
pub struct RunCheckpoint {
    pub checkpoint_id: String,
    pub run_id: String,
    pub session_id: String,
    pub trace_id: String,
    pub workspace_id: String,
    pub status: String,
    pub final_stage: String,
    pub resumable: bool,
    pub resume_reason: String,
    pub resume_stage: String,
    pub event_count: u32,
    pub request: RunRequest,
    pub response: RuntimeRunResponse,
    pub created_at: String,
}

// ---------------------------------------------------------------------------
// Specifications
// ---------------------------------------------------------------------------

/// The run ends with this event type.
pub open spec fn is_terminal_type(t: Seq<char>) -> bool {
    t == "run_finished"@ || t == "run_failed"@
}

/// `i` is the position of the first terminal event, or the length when there is none.
pub open spec fn terminal_position(events: Seq<RunEvent>, i: int) -> bool {
    &&& 0 <= i <= events.len()
    &&& i < events.len() ==> is_terminal_type(events[i].event_type@)
    &&& forall|j: int| 0 <= j < i ==> !is_terminal_type(events[j].event_type@)
}

/// `i` is where a resume event goes: after the first `run_started`, or at the front.
pub open spec fn resume_position(events: Seq<RunEvent>, i: int) -> bool {
    ||| (1 <= i <= events.len() && events[i - 1].event_type@ == "run_started"@ && forall|j: int|
        0 <= j < i - 1 ==> events[j].event_type@ != "run_started"@)
    ||| (i == 0 && forall|j: int| 0 <= j < events.len() ==> events[j].event_type@ != "run_started"@)
}

/// The events with `e` put at position `i`.
pub open spec fn inserted_at(events: Seq<RunEvent>, i: int, e: RunEvent) -> Seq<RunEvent> {
    events.take(i).push(e) + events.skip(i)
}

/// The resume strategy of a request: `after_confirmation` unless it names one.
pub open spec fn resume_strategy_spec(request: RunRequest) -> Seq<char> {
    if is_blank(request.resume_strategy@) {
        "after_confirmation"@
    } else {
        request.resume_strategy@
    }
}

/// The checkpoint paused for a confirmation that the request approves.
pub open spec fn ready_for_confirmation_spec(request: RunRequest, c: RunCheckpoint) -> bool {
    &&& c.resumable
    &&& c.resume_reason@ == "confirmation_required"@
    &&& request.confirmation_decision matches Some(d) && d.decision@ == "approve"@
}

/// The checkpoint belongs to the request's run, session and workspace, and,
/// for a resume after confirmation, waits for the confirmation it brings.
pub open spec fn resume_matches_spec(request: RunRequest, c: RunCheckpoint) -> bool {
    let same_scope = c.run_id@ == request.run_id@ && c.session_id@ == request.session_id@
        && c.workspace_id@ == request.workspace_ref.workspace_id@;
    if resume_strategy_spec(request) == "after_confirmation"@ {
        same_scope && ready_for_confirmation_spec(request, c)
    } else {
        same_scope
    }
}

/// Whether a run with this response can be resumed, why, and at which stage.
pub open spec fn resume_profile_spec(response: RuntimeRunResponse) -> (bool, Seq<char>, Seq<char>) {
    if response.result.status@ == "awaiting_confirmation"@ {
        (true, "confirmation_required"@, "PausedForConfirmation"@)
    } else if response.result.error matches Some(e) && e.retryable {
        (true, "retryable_failure"@, "Execute"@)
    } else {
        (false, "none"@, response.result.final_stage@)
    }
}

/// The table with `v` stored under `k` when `v` is not empty.
pub open spec fn put_if(m: Map<Seq<char>, Seq<char>>, k: Seq<char>, v: Seq<char>) -> Map<Seq<char>, Seq<char>> {
    if v.len() > 0 {
        m.insert(k, v)
    } else {
        m
    }
}

/// The table of a checkpoint-written event.
pub open spec fn checkpoint_metadata_spec(id: Seq<char>, result: RunResult, count: u32) -> Map<Seq<char>, Seq<char>> {
    Map::<Seq<char>, Seq<char>>::empty()
        .insert("checkpoint_id"@, id)
        .insert("checkpoint_status"@, result.status@)
        .insert("checkpoint_stage"@, result.final_stage@)
        .insert("checkpoint_event_count"@, dec(count as nat))
        .insert("checkpoint_written"@, "true"@)
        .insert("result_summary"@, result.summary@)
}

/// The step of the confirmation chain that a resume of this status reaches.
pub open spec fn chain_step_spec(status: Seq<char>) -> Seq<char> {
    if status == "resumed"@ {
        "resumed"@
    } else {
        "resume_skipped"@
    }
}

/// The confirmation fields of a resume table, for a resume of a paused run.
pub open spec fn confirmation_resume_spec(
    m: Map<Seq<char>, Seq<char>>,
    request: RunRequest,
    reason: Seq<char>,
    status: Seq<char>,
) -> Map<Seq<char>, Seq<char>> {
    if reason != "confirmation_required"@ {
        m
    } else {
        let m1 = m.insert("confirmation_resume_strategy"@, resume_strategy_spec(request))
            .insert("confirmation_chain_step"@, chain_step_spec(status));
        match request.confirmation_decision {
            Some(d) => put_if(
                m1.insert("confirmation_id"@, d.confirmation_id@)
                    .insert("confirmation_decision"@, d.decision@)
                    .insert("confirmation_decision_source"@, "user_confirm_api"@),
                "confirmation_decision_note"@,
                d.note@,
            ),
            None => m1,
        }
    }
}

/// The table of a resume event.
pub open spec fn resume_metadata_spec(
    request: RunRequest,
    id: Seq<char>,
    status: Seq<char>,
    stage: Seq<char>,
    reason: Seq<char>,
    boundary: Seq<char>,
    code: Seq<char>,
    summary: Seq<char>,
    artifact: Seq<char>,
) -> Map<Seq<char>, Seq<char>> {
    let core = put_if(
        put_if(
            put_if(
                put_if(
                    Map::<Seq<char>, Seq<char>>::empty()
                        .insert("checkpoint_id"@, id)
                        .insert("checkpoint_resume_status"@, status)
                        .insert("checkpoint_stage"@, stage)
                        .insert("checkpoint_resume_reason"@, reason),
                    "checkpoint_resume_boundary"@,
                    boundary,
                ),
                "checkpoint_resume_verification_code"@,
                code,
            ),
            "checkpoint_resume_verification_summary"@,
            summary,
        ),
        "checkpoint_resume_artifact_path"@,
        artifact,
    );
    confirmation_resume_spec(core, request, reason, status)
}

/// The boundary an event marks: its stage, type and next step, for the events
/// that act, verify or fail.
pub open spec fn event_boundary_spec(e: RunEvent) -> Option<Seq<char>> {
    let t = e.event_type@;
    if t == "action_requested"@ || t == "action_completed"@ || t == "verification_completed"@
        || t == "run_failed"@ {
        let base = "stage="@ + e.stage@ + ";event="@ + t;
        let step = e.metadata.text("next_step"@);
        if step.len() > 0 {
            Some(base + ";next_step="@ + step)
        } else {
            Some(base)
        }
    } else {
        None
    }
}

/// The boundary of the last event that marks one.
pub open spec fn last_boundary(events: Seq<RunEvent>) -> Option<Seq<char>>
    decreases events.len(),
{
    if events.len() == 0 {
        None
    } else {
        match event_boundary_spec(events.last()) {
            Some(b) => Some(b),
            None => last_boundary(events.drop_last()),
        }
    }
}

/// The boundary of a confirmation request event.
pub open spec fn confirmation_boundary_of(e: RunEvent) -> Seq<char> {
    let step = if e.metadata@.contains_key("next_step"@) {
        e.metadata@["next_step"@]
    } else {
        "等待用户确认后再继续"@
    };
    "stage="@ + e.stage@ + ";event="@ + e.event_type@ + ";next_step="@ + step
}

/// The boundary of the last confirmation request event.
pub open spec fn last_confirmation_boundary(events: Seq<RunEvent>) -> Option<Seq<char>>
    decreases events.len(),
{
    if events.len() == 0 {
        None
    } else if events.last().event_type@ == "confirmation_required"@ {
        Some(confirmation_boundary_of(events.last()))
    } else {
        last_confirmation_boundary(events.drop_last())
    }
}

/// Where a resumed run picks up: the last acting boundary, else the last
/// confirmation boundary, else nothing.
pub open spec fn resumed_boundary_spec(events: Seq<RunEvent>) -> Seq<char> {
    match last_boundary(events) {
        Some(b) => b,
        None => match last_confirmation_boundary(events) {
            Some(b) => b,
            None => Seq::empty(),
        },
    }
}

/// The verification code an event records: its snapshot's, else its table's.
pub open spec fn event_code_spec(e: RunEvent) -> Option<Seq<char>> {
    if e.verification_snapshot matches Some(s) && s.code@.len() > 0 {
        Some(e.verification_snapshot->0.code@)
    } else if e.metadata.text("verification_code"@).len() > 0 {
        Some(e.metadata.text("verification_code"@))
    } else {
        None
    }
}

/// The verification summary an event records: its snapshot's, else its table's.
pub open spec fn event_summary_spec(e: RunEvent) -> Option<Seq<char>> {
    if e.verification_snapshot matches Some(s) && s.summary@.len() > 0 {
        Some(e.verification_snapshot->0.summary@)
    } else if e.metadata.text("verification_summary"@).len() > 0 {
        Some(e.metadata.text("verification_summary"@))
    } else {
        None
    }
}

/// The first evidence line that names an artifact, without its `artifact=` prefix.
pub open spec fn first_artifact(lines: Seq<Seq<char>>) -> Option<Seq<char>>
    decreases lines.len(),
{
    if lines.len() == 0 {
        None
    } else if has_prefix(lines[0], "artifact="@) {
        Some(lines[0].skip(9))
    } else {
        first_artifact(lines.drop_first())
    }
}

/// The artifact an event points at: its table's, else its evidence's.
pub open spec fn event_artifact_spec(e: RunEvent) -> Option<Seq<char>> {
    if e.metadata.text("artifact_path"@).len() > 0 {
        Some(e.metadata.text("artifact_path"@))
    } else {
        match e.verification_snapshot {
            Some(s) => first_artifact(views(s.evidence@)),
            None => None,
        }
    }
}

/// The last event's verification code.
pub open spec fn last_code(events: Seq<RunEvent>) -> Seq<char>
    decreases events.len(),
{
    if events.len() == 0 {
        Seq::empty()
    } else {
        match event_code_spec(events.last()) {
            Some(c) => c,
            None => last_code(events.drop_last()),
        }
    }
}

/// The last event's verification summary.
pub open spec fn last_summary(events: Seq<RunEvent>) -> Seq<char>
    decreases events.len(),
{
    if events.len() == 0 {
        Seq::empty()
    } else {
        match event_summary_spec(events.last()) {
            Some(c) => c,
            None => last_summary(events.drop_last()),
        }
    }
}

/// The last event's artifact.
pub open spec fn last_artifact(events: Seq<RunEvent>) -> Seq<char>
    decreases events.len(),
{
    if events.len() == 0 {
        Seq::empty()
    } else {
        match event_artifact_spec(events.last()) {
            Some(c) => c,
            None => last_artifact(events.drop_last()),
        }
    }
}

// ---------------------------------------------------------------------------
// Small decisions
// ---------------------------------------------------------------------------

fn is_terminal_event(event_type: &str) -> (r: bool)
    ensures
        r == is_terminal_type(event_type@),
{
    str_eq(event_type, "run_finished") || str_eq(event_type, "run_failed")
}

fn terminal_event_index(events: &Vec<RunEvent>) -> (r: usize)
    ensures
        terminal_position(events@, r as int),
{
    let mut i: usize = 0;
    while i < events.len()
        invariant
            i <= events@.len(),
            forall|j: int| 0 <= j < i ==> !is_terminal_type(events@[j].event_type@),
        decreases events.len() - i,
    {
        if is_terminal_event(events[i].event_type.as_str()) {
            return i;
        }
        i = i + 1;
    }
    i
}

fn resume_insert_index(events: &Vec<RunEvent>) -> (r: usize)
    ensures
        resume_position(events@, r as int),
{
    let mut i: usize = 0;
    while i < events.len()
        invariant
            i <= events@.len(),
            forall|j: int| 0 <= j < i ==> events@[j].event_type@ != "run_started"@,
        decreases events.len() - i,
    {
        if str_eq(events[i].event_type.as_str(), "run_started") {
            return i + 1;
        }
        i = i + 1;
    }
    0
}

fn checkpoint_event_count(events: &Vec<RunEvent>) -> (n: u32)
    requires
        events@.len() < u32::MAX,
    ensures
        n == events@.len() + 1,
{
    events.len() as u32 + 1
}

/// The resume strategy of a request (see `resume_strategy_spec`).
pub fn resume_strategy(request: &RunRequest) -> (r: String)
    ensures
        r@ == resume_strategy_spec(*request),
{
    let t = trimmed(request.resume_strategy.as_str());
    if t.as_str().is_empty() {
        String::from_str("after_confirmation")
    } else {
        request.resume_strategy.clone()
    }
}

fn checkpoint_ready_for_confirmation(request: &RunRequest, checkpoint: &RunCheckpoint) -> (r: bool)
    ensures
        r == ready_for_confirmation_spec(*request, *checkpoint),
{
    let approved = match &request.confirmation_decision {
        Some(d) => str_eq(d.decision.as_str(), "approve"),
        None => false,
    };
    checkpoint.resumable && str_eq(checkpoint.resume_reason.as_str(), "confirmation_required") && approved
}

/// Whether the checkpoint may be resumed by the request (see `resume_matches_spec`).
pub fn resume_matches(request: &RunRequest, checkpoint: &RunCheckpoint) -> (r: bool)
    ensures
        r == resume_matches_spec(*request, *checkpoint),
{
    let same_scope = str_eq(checkpoint.run_id.as_str(), request.run_id.as_str())
        && str_eq(checkpoint.session_id.as_str(), request.session_id.as_str())
        && str_eq(checkpoint.workspace_id.as_str(), request.workspace_ref.workspace_id.as_str());
    let strategy = resume_strategy(request);
    if str_eq(strategy.as_str(), "after_confirmation") {
        same_scope && checkpoint_ready_for_confirmation(request, checkpoint)
    } else {
        same_scope
    }
}

/// Whether a run with this response can be resumed, why, and at which stage.
pub fn checkpoint_resume_profile(response: &RuntimeRunResponse) -> (r: (bool, String, String))
    ensures
        (r.0, r.1@, r.2@) == resume_profile_spec(*response),
{
    if str_eq(response.result.status.as_str(), "awaiting_confirmation") {
        return (true, String::from_str("confirmation_required"), String::from_str("PausedForConfirmation"));
    }
    let retryable = match &response.result.error {
        Some(e) => e.retryable,
        None => false,
    };
    if retryable {
        return (true, String::from_str("retryable_failure"), String::from_str("Execute"));
    }
    (false, String::from_str("none"), response.result.final_stage.clone())
}

/// The request with its provider key removed, as a checkpoint keeps it.
pub fn redacted_request(request: RunRequest) -> (r: RunRequest)
    ensures
        r.provider_ref.api_key@.len() == 0,
        r == (RunRequest {
            provider_ref: crate::contracts::ProviderRef { api_key: r.provider_ref.api_key, ..request.provider_ref },
            ..request
        }),
{
    let mut r = request;
    r.provider_ref.api_key = String::new();
    r
}

/// The identifier of the checkpoint of a run written at `millis`.
pub fn checkpoint_id(request: &RunRequest, millis: u64) -> (id: String)
    ensures
        id@ == request.run_id@ + "-"@ + dec(millis as nat),
{
    let mut id = request.run_id.clone();
    push_str(&mut id, "-");
    let n = u64_text(millis);
    push_str(&mut id, n.as_str());
    id
}

// ---------------------------------------------------------------------------
// Writing a checkpoint
// ---------------------------------------------------------------------------

fn checkpoint_metadata(checkpoint_id: &str, result: &RunResult, event_count: u32) -> (m: Metadata)
    ensures
        m@ == checkpoint_metadata_spec(checkpoint_id@, *result, event_count),
{
    let mut m = Metadata::new();
    m.set("checkpoint_id", checkpoint_id);
    m.set("checkpoint_status", result.status.as_str());
    m.set("checkpoint_stage", result.final_stage.as_str());
    let count = u64_text(event_count as u64);
    m.set("checkpoint_event_count", count.as_str());
    m.set("checkpoint_written", "true");
    m.set("result_summary", result.summary.as_str());
    assert(m@ =~= checkpoint_metadata_spec(checkpoint_id@, *result, event_count));
    m
}

/// The detail text of a checkpoint-written event.
pub open spec fn checkpoint_detail(id: Seq<char>) -> Seq<char> {
    "本次运行快照已写入 checkpoint："@ + id
}

fn checkpoint_event(
    request: &RunRequest,
    checkpoint_id: &str,
    result: &RunResult,
    event_count: u32,
    timestamp: &str,
    prompt: &str,
) -> (e: RunEvent)
    ensures
        e.sequence == 0,
        e.metadata@ == checkpoint_metadata_spec(checkpoint_id@, *result, event_count),
        event_matches(e, *request, 0, "checkpoint_written"@, result.final_stage@, "已写入运行检查点"@,
            checkpoint_detail(checkpoint_id@), e.metadata, timestamp@, prompt@),
{
    let mut detail = String::from_str("本次运行快照已写入 checkpoint：");
    push_str(&mut detail, checkpoint_id);
    let metadata = checkpoint_metadata(checkpoint_id, result, event_count);
    make_event(
        request,
        0,
        "checkpoint_written",
        result.final_stage.as_str(),
        "已写入运行检查点",
        detail.as_str(),
        metadata,
        timestamp,
        prompt,
    )
}

/// The checkpoint-written event put before the first terminal event (or at
/// the end), and the events numbered anew.
fn insert_checkpoint_event(
    request: &RunRequest,
    events: &mut Vec<RunEvent>,
    checkpoint_id: &str,
    result: &RunResult,
    timestamp: &str,
    prompt: &str,
)
    requires
        old(events)@.len() < u32::MAX,
    ensures
        exists|e: RunEvent, i: int|
            #[trigger] terminal_position(old(events)@, i) && final(events)@ == resequenced(inserted_at(old(events)@, i, e))
                && e.metadata@ == checkpoint_metadata_spec(checkpoint_id@, *result, (old(events)@.len() + 1) as u32)
                && #[trigger] event_matches(e, *request, 0, "checkpoint_written"@, result.final_stage@,
                "已写入运行检查点"@, checkpoint_detail(checkpoint_id@), e.metadata, timestamp@, prompt@),
{
    let count = checkpoint_event_count(events);
    let event = checkpoint_event(request, checkpoint_id, result, count, timestamp, prompt);
    let index = terminal_event_index(events);
    let ghost before = events@;
    let ghost e = event;
    events.insert(index, event);
    assert(events@ =~= inserted_at(before, index as int, e));
    resequence_events(events);
}

/// The response with the checkpoint named in its result and a
/// checkpoint-written event before its terminal event.
pub fn checkpoint_response(
    request: &RunRequest,
    response: RuntimeRunResponse,
    checkpoint_id: &str,
    timestamp: &str,
    prompt: &str,
) -> (r: RuntimeRunResponse)
    requires
        response.events@.len() < u32::MAX,
    ensures
        r.result.checkpoint_id matches Some(c) && c@ == checkpoint_id@,
        r.result.resumable == Some(resume_profile_spec(response).0),
        r.result == (RunResult {
            checkpoint_id: r.result.checkpoint_id,
            resumable: r.result.resumable,
            ..response.result
        }),
        r.confirmation_request == response.confirmation_request,
        exists|e: RunEvent, i: int|
            #[trigger] terminal_position(response.events@, i) && r.events@ == resequenced(inserted_at(response.events@, i, e))
                && e.metadata@ == checkpoint_metadata_spec(checkpoint_id@, r.result, (response.events@.len() + 1) as u32)
                && #[trigger] event_matches(e, *request, 0, "checkpoint_written"@, r.result.final_stage@,
                "已写入运行检查点"@, checkpoint_detail(checkpoint_id@), e.metadata, timestamp@, prompt@),
{
    let profile = checkpoint_resume_profile(&response);
    let mut response = response;
    response.result.checkpoint_id = Some(String::from_str(checkpoint_id));
    response.result.resumable = Some(profile.0);
    insert_checkpoint_event(request, &mut response.events, checkpoint_id, &response.result, timestamp, prompt);
    response
}

/// The checkpoint record of a run whose response already names it; `request`
/// is kept without its provider key.
pub fn checkpoint_record(
    request: RunRequest,
    response: RuntimeRunResponse,
    checkpoint_id: &str,
    created_at: &str,
) -> (c: RunCheckpoint)
    requires
        response.events@.len() < u32::MAX,
    ensures
        c.checkpoint_id@ == checkpoint_id@,
        c.run_id@ == request.run_id@,
        c.session_id@ == request.session_id@,
        c.trace_id@ == request.trace_id@,
        c.workspace_id@ == request.workspace_ref.workspace_id@,
        c.status@ == response.result.status@,
        c.final_stage@ == response.result.final_stage@,
        (c.resumable, c.resume_reason@, c.resume_stage@) == resume_profile_spec(response),
        c.event_count == response.events@.len() + 1,
        c.request.provider_ref.api_key@.len() == 0,
        c.request == (RunRequest {
            provider_ref: crate::contracts::ProviderRef { api_key: c.request.provider_ref.api_key, ..request.provider_ref },
            ..request
        }),
        c.response == response,
        c.created_at@ == created_at@,
{
    let resume = checkpoint_resume_profile(&response);
    let event_count = checkpoint_event_count(&response.events);
    let run_id = request.run_id.clone();
    let session_id = request.session_id.clone();
    let trace_id = request.trace_id.clone();
    let workspace_id = request.workspace_ref.workspace_id.clone();
    let status = response.result.status.clone();
    let final_stage = response.result.final_stage.clone();
    RunCheckpoint {
        checkpoint_id: String::from_str(checkpoint_id),
        run_id,
        session_id,
        trace_id,
        workspace_id,
        status,
        final_stage,
        resumable: resume.0,
        resume_reason: resume.1,
        resume_stage: resume.2,
        event_count,
        request: redacted_request(request),
        response,
        created_at: String::from_str(created_at),
    }
}

/// The response a run returns once its checkpoint was, or failed to be,
/// written: the enriched one when the write succeeded, else the original.
pub fn persisted_response(
    written: Result<(), String>,
    original: RuntimeRunResponse,
    enriched: RuntimeRunResponse,
) -> (r: RuntimeRunResponse)
    ensures
        r == (if written is Ok { enriched } else { original }),
{
    match written {
        Ok(()) => enriched,
        Err(_) => original,
    }
}

// ---------------------------------------------------------------------------
// Resuming from a checkpoint
// ---------------------------------------------------------------------------

fn event_boundary(e: &RunEvent) -> (r: Option<String>)
    ensures
        views_opt(r) == event_boundary_spec(*e),
{
    let t = e.event_type.as_str();
    if !(str_eq(t, "action_requested") || str_eq(t, "action_completed") || str_eq(t, "verification_completed")
        || str_eq(t, "run_failed")) {
        return None;
    }
    let mut out = String::from_str("stage=");
    push_str(&mut out, e.stage.as_str());
    push_str(&mut out, ";event=");
    push_str(&mut out, t);
    let step = e.metadata.text_of("next_step");
    if !step.as_str().is_empty() {
        push_str(&mut out, ";next_step=");
        push_str(&mut out, step.as_str());
    }
    Some(out)
}

/// The view of an optional text.
pub open spec fn views_opt(o: Option<String>) -> Option<Seq<char>> {
    match o {
        Some(s) => Some(s@),
        None => None,
    }
}

fn confirmation_boundary(events: &Vec<RunEvent>) -> (r: Option<String>)
    ensures
        views_opt(r) == last_confirmation_boundary(events@),
{
    let mut i: usize = events.len();
    assert(events@.take(i as int) =~= events@);
    while i > 0
        invariant
            i <= events@.len(),
            last_confirmation_boundary(events@) == last_confirmation_boundary(events@.take(i as int)),
        decreases i,
    {
        assert(events@.take(i as int).drop_last() =~= events@.take(i - 1));
        let e = &events[i - 1];
        if str_eq(e.event_type.as_str(), "confirmation_required") {
            let step = match e.metadata.get("next_step") {
                Some(v) => v,
                None => String::from_str("等待用户确认后再继续"),
            };
            let mut out = String::from_str("stage=");
            push_str(&mut out, e.stage.as_str());
            push_str(&mut out, ";event=");
            push_str(&mut out, e.event_type.as_str());
            push_str(&mut out, ";next_step=");
            push_str(&mut out, step.as_str());
            return Some(out);
        }
        i = i - 1;
    }
    None
}

/// Where a resumed run picks up (see `resumed_boundary_spec`).
fn resumed_boundary(events: &Vec<RunEvent>) -> (r: String)
    ensures
        r@ == resumed_boundary_spec(events@),
{
    let mut i: usize = events.len();
    assert(events@.take(i as int) =~= events@);
    while i > 0
        invariant
            i <= events@.len(),
            last_boundary(events@) == last_boundary(events@.take(i as int)),
        decreases i,
    {
        assert(events@.take(i as int).drop_last() =~= events@.take(i - 1));
        match event_boundary(&events[i - 1]) {
            Some(b) => { return b; },
            None => {},
        }
        i = i - 1;
    }
    assert(last_boundary(events@) is None);
    match confirmation_boundary(events) {
        Some(b) => b,
        None => String::new(),
    }
}

fn event_verification_code(e: &RunEvent) -> (r: Option<String>)
    ensures
        views_opt(r) == event_code_spec(*e),
{
    match &e.verification_snapshot {
        Some(s) => {
            if !s.code.as_str().is_empty() {
                return Some(s.code.clone());
            }
        },
        None => {},
    }
    let c = e.metadata.text_of("verification_code");
    if !c.as_str().is_empty() {
        Some(c)
    } else {
        None
    }
}

fn event_verification_summary(e: &RunEvent) -> (r: Option<String>)
    ensures
        views_opt(r) == event_summary_spec(*e),
{
    match &e.verification_snapshot {
        Some(s) => {
            if !s.summary.as_str().is_empty() {
                return Some(s.summary.clone());
            }
        },
        None => {},
    }
    let c = e.metadata.text_of("verification_summary");
    if !c.as_str().is_empty() {
        Some(c)
    } else {
        None
    }
}

fn snapshot_artifact_path(evidence: &Vec<String>) -> (r: Option<String>)
    ensures
        views_opt(r) == first_artifact(views(evidence@)),
{
    let ghost l = views(evidence@);
    let mut i: usize = 0;
    assert(l.skip(0) =~= l);
    while i < evidence.len()
        invariant
            i <= evidence@.len(),
            l == views(evidence@),
            first_artifact(l) == first_artifact(l.skip(i as int)),
        decreases evidence.len() - i,
    {
        let ghost t = l.skip(i as int);
        assert(t[0] == evidence@[i as int]@);
        assert(t.drop_first() =~= l.skip(i + 1));
        match strip_prefix(evidence[i].as_str(), "artifact=") {
            Some(rest) => {
                proof { reveal_strlit("artifact="); }
                return Some(rest);
            },
            None => {},
        }
        i = i + 1;
    }
    None
}

fn event_artifact_path(e: &RunEvent) -> (r: Option<String>)
    ensures
        views_opt(r) == event_artifact_spec(*e),
{
    let p = e.metadata.text_of("artifact_path");
    if !p.as_str().is_empty() {
        return Some(p);
    }
    match &e.verification_snapshot {
        Some(s) => snapshot_artifact_path(&s.evidence),
        None => None,
    }
}

fn resumed_verification_code(events: &Vec<RunEvent>) -> (r: String)
    ensures
        r@ == last_code(events@),
{
    let mut i: usize = events.len();
    assert(events@.take(i as int) =~= events@);
    while i > 0
        invariant
            i <= events@.len(),
            last_code(events@) == last_code(events@.take(i as int)),
        decreases i,
    {
        assert(events@.take(i as int).drop_last() =~= events@.take(i - 1));
        match event_verification_code(&events[i - 1]) {
            Some(c) => { return c; },
            None => {},
        }
        i = i - 1;
    }
    String::new()
}

fn resumed_verification_summary(events: &Vec<RunEvent>) -> (r: String)
    ensures
        r@ == last_summary(events@),
{
    let mut i: usize = events.len();
    assert(events@.take(i as int) =~= events@);
    while i > 0
        invariant
            i <= events@.len(),
            last_summary(events@) == last_summary(events@.take(i as int)),
        decreases i,
    {
        assert(events@.take(i as int).drop_last() =~= events@.take(i - 1));
        match event_verification_summary(&events[i - 1]) {
            Some(c) => { return c; },
            None => {},
        }
        i = i - 1;
    }
    String::new()
}

fn resumed_artifact_path(events: &Vec<RunEvent>) -> (r: String)
    ensures
        r@ == last_artifact(events@),
{
    let mut i: usize = events.len();
    assert(events@.take(i as int) =~= events@);
    while i > 0
        invariant
            i <= events@.len(),
            last_artifact(events@) == last_artifact(events@.take(i as int)),
        decreases i,
    {
        assert(events@.take(i as int).drop_last() =~= events@.take(i - 1));
        match event_artifact_path(&events[i - 1]) {
            Some(c) => { return c; },
            None => {},
        }
        i = i - 1;
    }
    String::new()
}

fn confirmation_chain_step(status: &str) -> (r: String)
    ensures
        r@ == chain_step_spec(status@),
{
    if str_eq(status, "resumed") {
        String::from_str("resumed")
    } else {
        String::from_str("resume_skipped")
    }
}

fn insert_confirmation_decision_metadata(metadata: &mut Metadata, decision: &ConfirmationDecision)
    ensures
        final(metadata)@ == put_if(
            old(metadata)@.insert("confirmation_id"@, decision.confirmation_id@)
                .insert("confirmation_decision"@, decision.decision@)
                .insert("confirmation_decision_source"@, "user_confirm_api"@),
            "confirmation_decision_note"@,
            decision.note@,
        ),
{
    metadata.set("confirmation_id", decision.confirmation_id.as_str());
    metadata.set("confirmation_decision", decision.decision.as_str());
    metadata.set("confirmation_decision_source", "user_confirm_api");
    metadata.set_if_present("confirmation_decision_note", decision.note.as_str());
}

fn append_confirmation_resume_metadata(metadata: &mut Metadata, request: &RunRequest, reason: &str, status: &str)
    ensures
        final(metadata)@ == confirmation_resume_spec(old(metadata)@, *request, reason@, status@),
{
    if !str_eq(reason, "confirmation_required") {
        return;
    }
    let strategy = resume_strategy(request);
    metadata.set("confirmation_resume_strategy", strategy.as_str());
    let step = confirmation_chain_step(status);
    metadata.set("confirmation_chain_step", step.as_str());
    match &request.confirmation_decision {
        Some(d) => insert_confirmation_decision_metadata(metadata, d),
        None => {},
    }
}

fn insert_resume_core_metadata(
    metadata: &mut Metadata,
    checkpoint_id: &str,
    status: &str,
    stage: &str,
    reason: &str,
    boundary: &str,
    verification_code: &str,
    verification_summary: &str,
    artifact_path: &str,
)
    ensures
        final(metadata)@ == put_if(
            put_if(
                put_if(
                    put_if(
                        old(metadata)@.insert("checkpoint_id"@, checkpoint_id@)
                            .insert("checkpoint_resume_status"@, status@)
                            .insert("checkpoint_stage"@, stage@)
                            .insert("checkpoint_resume_reason"@, reason@),
                        "checkpoint_resume_boundary"@,
                        boundary@,
                    ),
                    "checkpoint_resume_verification_code"@,
                    verification_code@,
                ),
                "checkpoint_resume_verification_summary"@,
                verification_summary@,
            ),
            "checkpoint_resume_artifact_path"@,
            artifact_path@,
        ),
{
    metadata.set("checkpoint_id", checkpoint_id);
    metadata.set("checkpoint_resume_status", status);
    metadata.set("checkpoint_stage", stage);
    metadata.set("checkpoint_resume_reason", reason);
    metadata.set_if_present("checkpoint_resume_boundary", boundary);
    metadata.set_if_present("checkpoint_resume_verification_code", verification_code);
    metadata.set_if_present("checkpoint_resume_verification_summary", verification_summary);
    metadata.set_if_present("checkpoint_resume_artifact_path", artifact_path);
}

fn resume_metadata(
    request: &RunRequest,
    checkpoint_id: &str,
    status: &str,
    stage: &str,
    reason: &str,
    boundary: &str,
    verification_code: &str,
    verification_summary: &str,
    artifact_path: &str,
) -> (m: Metadata)
    ensures
        m@ == resume_metadata_spec(*request, checkpoint_id@, status@, stage@, reason@, boundary@,
            verification_code@, verification_summary@, artifact_path@),
{
    let mut m = Metadata::new();
    insert_resume_core_metadata(&mut m, checkpoint_id, status, stage, reason, boundary, verification_code,
        verification_summary, artifact_path);
    append_confirmation_resume_metadata(&mut m, request, reason, status);
    m
}

/// The detail text of a resumed event.
pub open spec fn resumed_detail(id: Seq<char>) -> Seq<char> {
    "已读取 checkpoint："@ + id + "，继续当前任务。"@
}

/// The event of a run resumed from `checkpoint`.
pub fn resumed_event(request: &RunRequest, checkpoint: &RunCheckpoint, timestamp: &str, prompt: &str) -> (e: RunEvent)
    ensures
        e.sequence == 0,
        e.metadata@ == resume_metadata_spec(*request, checkpoint.checkpoint_id@, "resumed"@,
            checkpoint.resume_stage@, checkpoint.resume_reason@, resumed_boundary_spec(checkpoint.response.events@),
            last_code(checkpoint.response.events@), last_summary(checkpoint.response.events@),
            last_artifact(checkpoint.response.events@)),
        event_matches(e, *request, 0, "checkpoint_resumed"@, checkpoint.resume_stage@, "已从 checkpoint 恢复运行"@,
            resumed_detail(checkpoint.checkpoint_id@), e.metadata, timestamp@, prompt@),
{
    let events = &checkpoint.response.events;
    let boundary = resumed_boundary(events);
    let code = resumed_verification_code(events);
    let summary = resumed_verification_summary(events);
    let artifact = resumed_artifact_path(events);
    let mut detail = String::from_str("已读取 checkpoint：");
    push_str(&mut detail, checkpoint.checkpoint_id.as_str());
    push_str(&mut detail, "，继续当前任务。");
    let metadata = resume_metadata(
        request,
        checkpoint.checkpoint_id.as_str(),
        "resumed",
        checkpoint.resume_stage.as_str(),
        checkpoint.resume_reason.as_str(),
        boundary.as_str(),
        code.as_str(),
        summary.as_str(),
        artifact.as_str(),
    );
    make_event(
        request,
        0,
        "checkpoint_resumed",
        checkpoint.resume_stage.as_str(),
        "已从 checkpoint 恢复运行",
        detail.as_str(),
        metadata,
        timestamp,
        prompt,
    )
}

/// The event of a resume that was not carried out, for the given reason.
pub fn skipped_resume_event(
    request: &RunRequest,
    checkpoint_id: &str,
    reason: &str,
    timestamp: &str,
    prompt: &str,
) -> (e: RunEvent)
    ensures
        e.sequence == 0,
        e.metadata@ == resume_metadata_spec(*request, checkpoint_id@, "skipped"@, "Analyze"@,
            "resume_skipped"@, Seq::empty(), Seq::empty(), Seq::empty(), Seq::empty()),
        event_matches(e, *request, 0, "checkpoint_resume_skipped"@, "Analyze"@, "checkpoint 恢复已跳过"@,
            reason@, e.metadata, timestamp@, prompt@),
{
    proof { reveal_strlit(""); }
    assert(""@ =~= Seq::<char>::empty());
    let metadata = resume_metadata(request, checkpoint_id, "skipped", "Analyze", "resume_skipped", "", "", "", "");
    make_event(
        request,
        0,
        "checkpoint_resume_skipped",
        "Analyze",
        "checkpoint 恢复已跳过",
        reason,
        metadata,
        timestamp,
        prompt,
    )
}

/// The checkpoint a request asks to resume from: its trimmed
/// `resume_from_checkpoint_id`, when that is not empty.
pub fn requested_checkpoint_id(request: &RunRequest) -> (r: Option<String>)
    ensures
        match r {
            Some(id) => id@ == trim(request.resume_from_checkpoint_id@) && id@.len() > 0,
            None => trim(request.resume_from_checkpoint_id@).len() == 0,
        },
{
    let id = trimmed(request.resume_from_checkpoint_id.as_str());
    if id.as_str().is_empty() {
        None
    } else {
        Some(id)
    }
}

/// The reason given when the checkpoint store could not be read.
pub open spec fn load_failure_reason(error: Seq<char>) -> Seq<char> {
    "读取 checkpoint 失败："@ + error
}

/// The resume event of a request, given what the checkpoint store returned
/// for the checkpoint it names: none when it names none; the resumed event
/// for a checkpoint that matches it; otherwise an event saying why the resume
/// was skipped.
pub fn checkpoint_resume_event(
    request: &RunRequest,
    loaded: Result<Option<RunCheckpoint>, String>,
    timestamp: &str,
    prompt: &str,
) -> (r: Option<RunEvent>)
    ensures
        trim(request.resume_from_checkpoint_id@).len() == 0 ==> r is None,
        trim(request.resume_from_checkpoint_id@).len() > 0 ==> {
            let id = trim(request.resume_from_checkpoint_id@);
            &&& r is Some
            &&& r->0.sequence == 0
            &&& match loaded {
                Ok(Some(c)) => if resume_matches_spec(*request, c) {
                    event_matches(r->0, *request, 0, "checkpoint_resumed"@, c.resume_stage@,
                        "已从 checkpoint 恢复运行"@, resumed_detail(c.checkpoint_id@), r->0.metadata, timestamp@, prompt@)
                    && r->0.metadata@ == resume_metadata_spec(*request, c.checkpoint_id@, "resumed"@,
                        c.resume_stage@, c.resume_reason@, resumed_boundary_spec(c.response.events@),
                        last_code(c.response.events@), last_summary(c.response.events@),
                        last_artifact(c.response.events@))
                } else {
                    skipped_matches(r->0, *request, id, "checkpoint 与当前恢复请求不匹配，已按普通重试继续。"@, timestamp@, prompt@)
                },
                Ok(None) => skipped_matches(r->0, *request, id, "未找到对应 checkpoint，已按普通重试继续。"@, timestamp@, prompt@),
                Err(error) => skipped_matches(r->0, *request, id, load_failure_reason(error@), timestamp@, prompt@),
            }
        },
{
    let id = match requested_checkpoint_id(request) {
        Some(id) => id,
        None => { return None; },
    };
    match loaded {
        Ok(Some(c)) => {
            if resume_matches(request, &c) {
                Some(resumed_event(request, &c, timestamp, prompt))
            } else {
                Some(skipped_resume_event(request, id.as_str(), "checkpoint 与当前恢复请求不匹配，已按普通重试继续。", timestamp, prompt))
            }
        },
        Ok(None) => Some(skipped_resume_event(request, id.as_str(), "未找到对应 checkpoint，已按普通重试继续。", timestamp, prompt)),
        Err(error) => {
            let mut reason = String::from_str("读取 checkpoint 失败：");
            push_str(&mut reason, error.as_str());
            Some(skipped_resume_event(request, id.as_str(), reason.as_str(), timestamp, prompt))
        },
    }
}

/// `e` is the skipped-resume event for the checkpoint `id`, for the reason given.
pub open spec fn skipped_matches(
    e: RunEvent,
    request: RunRequest,
    id: Seq<char>,
    reason: Seq<char>,
    timestamp: Seq<char>,
    prompt: Seq<char>,
) -> bool {
    &&& e.metadata@ == resume_metadata_spec(request, id, "skipped"@, "Analyze"@, "resume_skipped"@,
        Seq::empty(), Seq::empty(), Seq::empty(), Seq::empty())
    &&& event_matches(e, request, 0, "checkpoint_resume_skipped"@, "Analyze"@, "checkpoint 恢复已跳过"@,
        reason, e.metadata, timestamp, prompt)
}

/// The checkpoint to resume from, given what the store returned: the loaded
/// one when the request names one and it matches the request, else none.
pub fn load_matching_resume_checkpoint(
    request: &RunRequest,
    loaded: Result<Option<RunCheckpoint>, String>,
) -> (r: Option<RunCheckpoint>)
    ensures
        r == (match loaded {
            Ok(Some(c)) => if trim(request.resume_from_checkpoint_id@).len() > 0 && resume_matches_spec(*request, c) {
                Some(c)
            } else {
                None
            },
            _ => None,
        }),
{
    match requested_checkpoint_id(request) {
        Some(_) => {},
        None => { return None; },
    }
    match loaded {
        Ok(Some(c)) => {
            if resume_matches(request, &c) {
                Some(c)
            } else {
                None
            }
        },
        _ => None,
    }
}

/// A run resumes only from a checkpoint of its own run, session and
/// workspace, and, when it resumes after a confirmation, only from one that
/// paused for a confirmation the request approves.
pub proof fn resume_stays_in_scope_law(request: RunRequest, c: RunCheckpoint)
    ensures
        resume_matches_spec(request, c) ==> c.run_id@ == request.run_id@ && c.session_id@ == request.session_id@
            && c.workspace_id@ == request.workspace_ref.workspace_id@,
        resume_matches_spec(request, c) && resume_strategy_spec(request) == "after_confirmation"@ ==> c.resumable
            && c.resume_reason@ == "confirmation_required"@ && (request.confirmation_decision matches Some(d)
            && d.decision@ == "approve"@),
{
}

/// The response with the resume event, if any, put after its first
/// `run_started` event (or at the front), and the events numbered anew.
pub fn with_checkpoint_resume_event(response: RuntimeRunResponse, event: Option<RunEvent>) -> (r: RuntimeRunResponse)
    requires
        response.events@.len() < u32::MAX,
    ensures
        match event {
            None => r == response,
            Some(e) => {
                &&& r.result == response.result
                &&& r.confirmation_request == response.confirmation_request
                &&& forall|i: int| #[trigger] resume_position(response.events@, i) ==> r.events@ == resequenced(
                    inserted_at(response.events@, i, e),
                )
            },
        },
{
    match event {
        None => response,
        Some(e) => {
            let mut response = response;
            let index = resume_insert_index(&response.events);
            let ghost before = response.events@;
            response.events.insert(index, e);
            assert(response.events@ =~= inserted_at(before, index as int, e));
            resequence_events(&mut response.events);
            proof {
                assert forall|i: int| #[trigger] resume_position(before, i) implies i == index by {
                    if i < index {
                        if i >= 1 {
                            assert(before[i - 1].event_type@ == "run_started"@);
                        } else {
                            assert(before[index - 1].event_type@ == "run_started"@);
                        }
                    }
                    if index < i {
                        if index >= 1 {
                            assert(before[index - 1].event_type@ == "run_started"@);
                        } else {
                            assert(before[i - 1].event_type@ == "run_started"@);
                        }
                    }
                }
            }
            response
        },
    }
}

} // verus!
