//! What a finished run writes to memory and knowledge: the entries and
//! records it derives from its tool trace and verification, and the outcome
//! each write reports. Reading and appending the stores is the host's part.
use vstd::prelude::*;
use crate::capabilities::ToolExecutionTrace;
use crate::contracts::RunRequest;
use crate::events::MEMORY_GOVERNANCE_VERSION;
use crate::execution::VerificationReport;
use crate::knowledge_store::{
    KnowledgeRecord, has_knowledge_record, record_sensitive_spec, same_record_spec, should_skip_knowledge_record,
    skip_reason_spec,
};
use crate::memory::{MemoryEntry, normalized_memory_entry, normalized_spec};
use crate::text::{
    char_count, contains, has_sub, join, join_strs, push_str, str_eq, summarize_text, summary_of, trim, trimmed,
};

verus! {

/// The governance record of one memory or knowledge write.
#[derive(Clone, Debug)]
pub struct MemoryAuditTrail {
    pub governance_status: String,
    pub memory_action: String,
    pub governance_version: String,
    pub governance_reason: String,
    pub governance_source: String,
    pub governance_at: String,
    pub source_event_type: String,
    pub source_artifact_path: String,
    pub archive_reason: String,
}

/// What one write of a finished run reports.
#[derive(Clone, Debug)]
pub struct MemoryWriteOutcome {
    pub event_type: &'static str,
    pub layer: &'static str,
    pub record_type: String,
    pub source_type: String,
    pub title: String,
    pub summary: String,
    pub reason: String,
    pub audit: MemoryAuditTrail,
}

/// Where a memory entry came from.
#[derive(Clone, Debug)]
pub struct MemorySource {
    pub title: String,
    pub event_type: String,
    pub artifact_path: String,
}

// ---------------------------------------------------------------------------
// Classification
// ---------------------------------------------------------------------------

/// The knowledge type a verified tool call yields, if any.
pub open spec fn knowledge_type_spec(tool: Seq<char>, passed: bool) -> Option<Seq<char>> {
    if !passed {
        None
    } else if tool == "knowledge_search"@ {
        Some("knowledge_recall"@)
    } else if tool == "project_answer"@ {
        Some("project_status"@)
    } else if tool == "read_siyuan_note"@ || tool == "search_siyuan_notes"@ {
        Some("user_curated"@)
    } else if tool == "agent_resolve"@ {
        Some("workflow_pattern"@)
    } else {
        None
    }
}

/// The knowledge type a verified tool call yields (see `knowledge_type_spec`).
pub fn knowledge_type(trace: &ToolExecutionTrace, report: &VerificationReport) -> (r: Option<String>)
    ensures
        match r {
            Some(k) => knowledge_type_spec(trace.tool.tool_name@, report.outcome.passed) == Some(k@),
            None => knowledge_type_spec(trace.tool.tool_name@, report.outcome.passed) is None,
        },
{
    if !report.outcome.passed {
        return None;
    }
    let t = trace.tool.tool_name.as_str();
    if str_eq(t, "knowledge_search") {
        Some(String::from_str("knowledge_recall"))
    } else if str_eq(t, "project_answer") {
        Some(String::from_str("project_status"))
    } else if str_eq(t, "read_siyuan_note") || str_eq(t, "search_siyuan_notes") {
        Some(String::from_str("user_curated"))
    } else if str_eq(t, "agent_resolve") {
        Some(String::from_str("workflow_pattern"))
    } else {
        None
    }
}

/// The summary of a knowledge record: the result summary, unless it is
/// shorter than twenty characters for a tool other than the knowledge search
/// and the final answer is not; all summarized.
pub open spec fn knowledge_summary_spec(trace: ToolExecutionTrace) -> Seq<char> {
    let summary = summary_of(trace.result.summary@);
    let fallback = summary_of(trace.result.final_answer@);
    if trace.tool.tool_name@ == "knowledge_search"@ || summary.len() >= 20 {
        summary
    } else if fallback.len() >= 20 {
        fallback
    } else {
        summary
    }
}

/// The summary of a knowledge record (see `knowledge_summary_spec`).
pub fn knowledge_summary(trace: &ToolExecutionTrace) -> (r: String)
    ensures
        r@ == knowledge_summary_spec(*trace),
{
    let summary = summarize_text(trace.result.summary.as_str());
    if str_eq(trace.tool.tool_name.as_str(), "knowledge_search") || char_count(summary.as_str()) >= 20 {
        return summary;
    }
    let fallback = summarize_text(trace.result.final_answer.as_str());
    if char_count(fallback.as_str()) >= 20 {
        return fallback;
    }
    summary
}

/// The memory kind a tool's result is written as.
pub open spec fn memory_kind_spec(tool: Seq<char>) -> Seq<char> {
    if tool == "project_answer"@ {
        "workspace_summary"@
    } else if tool == "knowledge_search"@ {
        "workflow_pattern"@
    } else {
        "lesson_learned"@
    }
}

/// The memory kind a tool's result is written as.
pub fn infer_memory_kind(tool_name: &str) -> (r: String)
    ensures
        r@ == memory_kind_spec(tool_name@),
{
    if str_eq(tool_name, "project_answer") {
        String::from_str("workspace_summary")
    } else if str_eq(tool_name, "knowledge_search") {
        String::from_str("workflow_pattern")
    } else {
        String::from_str("lesson_learned")
    }
}

/// The two entries have the same workspace, kind, title and summary.
pub open spec fn same_memory_spec(a: MemoryEntry, b: MemoryEntry) -> bool {
    a.workspace_id@ == b.workspace_id@ && a.kind@ == b.kind@ && a.title@ == b.title@ && a.summary@ == b.summary@
}

/// Whether the two entries count as the same memory.
pub fn same_memory(current: &MemoryEntry, target: &MemoryEntry) -> (r: bool)
    ensures
        r == same_memory_spec(*current, *target),
{
    str_eq(current.workspace_id.as_str(), target.workspace_id.as_str()) && str_eq(current.kind.as_str(), target.kind.as_str())
        && str_eq(current.title.as_str(), target.title.as_str()) && str_eq(current.summary.as_str(), target.summary.as_str())
}

/// Whether any of the found entries counts as the same memory as `entry`.
pub fn has_memory_duplicate(found: &Vec<MemoryEntry>, entry: &MemoryEntry) -> (r: bool)
    ensures
        r == exists|j: int| 0 <= j < found@.len() && #[trigger] same_memory_spec(found@[j], *entry),
{
    let mut i: usize = 0;
    while i < found.len()
        invariant
            i <= found@.len(),
            forall|j: int| 0 <= j < i ==> !#[trigger] same_memory_spec(found@[j], *entry),
        decreases found.len() - i,
    {
        if same_memory(&found[i], entry) {
            return true;
        }
        i = i + 1;
    }
    false
}

/// The record's summary refers to another run's answer.
pub open spec fn recursive_knowledge_spec(r: KnowledgeRecord) -> bool {
    has_sub(r.summary@, "文件：run:"@) || has_sub(r.summary@, "source\":\"run:"@) || has_sub(
        r.summary@,
        "已基于项目文档片段完成一次项目说明回答：文件：run:"@,
    )
}

/// Whether the record's summary refers to another run's answer.
pub fn looks_like_recursive_knowledge(record: &KnowledgeRecord) -> (r: bool)
    ensures
        r == recursive_knowledge_spec(*record),
{
    let s = record.summary.as_str();
    contains(s, "文件：run:") || contains(s, "source\":\"run:") || contains(s, "已基于项目文档片段完成一次项目说明回答：文件：run:")
}

// ---------------------------------------------------------------------------
// Preferences
// ---------------------------------------------------------------------------

/// The label if the input holds any of the keywords.
pub open spec fn label_if(input: Seq<char>, hit: bool, label: Seq<char>) -> Seq<Seq<char>> {
    if hit {
        seq![label]
    } else {
        seq![]
    }
}

/// The preferences the input states, as labels in a fixed order.
pub open spec fn preference_labels(u: Seq<char>) -> Seq<Seq<char>> {
    label_if(u, has_sub(u, "用中文回答"@) || has_sub(u, "中文回答"@), "用中文回答"@)
        + label_if(u, has_sub(u, "简明扼要"@) || has_sub(u, "精简"@) || has_sub(u, "不要废话"@) || has_sub(u, "简洁直接"@), "回答简洁直接"@)
        + label_if(u, has_sub(u, "不要在回答末尾总结"@), "回答末尾不要总结已完成事项"@)
        + label_if(u, has_sub(u, "函数不超过 30 行"@) || has_sub(u, "函数不超过30行"@), "新增或修改函数不超过30行"@)
        + label_if(u, has_sub(u, "不要添加注释"@) || has_sub(u, "不要给未修改"@) || has_sub(u, "未修改的代码行添加注释"@), "不要给未修改代码加注释"@)
        + label_if(u, has_sub(u, "按文档要求"@) || has_sub(u, "按照文档要求"@) || has_sub(u, "必须遵守开发任务书"@), "严格按文档要求执行"@)
        + label_if(u, has_sub(u, "先验收"@) || has_sub(u, "逐项填写"@) || has_sub(u, "逐项勾验"@), "优先按验收清单逐项校验"@)
        + label_if(u, has_sub(u, "每次尽量多做一点"@), "单轮尽量推进更多有效工作"@)
        + label_if(u, has_sub(u, "不要改太多"@) || has_sub(u, "最小改动"@) || has_sub(u, "简单点"@), "优先最小改动实现"@)
}

/// The preference summary of the input, when it states any.
pub open spec fn preference_summary_spec(u: Seq<char>) -> Option<Seq<char>> {
    let labels = preference_labels(u);
    if labels.len() == 0 {
        None
    } else {
        Some("用户偏好："@ + join(labels, "；"@))
    }
}

fn push_label(parts: &mut Vec<&'static str>, hit: bool, label: &'static str)
    ensures
        final(parts)@.map_values(|s: &str| s@) == old(parts)@.map_values(|s: &str| s@) + (if hit {
            seq![label@]
        } else {
            seq![]
        }),
{
    if hit {
        parts.push(label);
        assert(parts@.map_values(|s: &str| s@) =~= old(parts)@.map_values(|s: &str| s@) + seq![label@]);
    } else {
        assert(parts@.map_values(|s: &str| s@) =~= old(parts)@.map_values(|s: &str| s@) + Seq::<Seq<char>>::empty());
    }
}

/// The preference summary of the input (see `preference_summary_spec`).
pub fn preference_summary(u: &str) -> (r: Option<String>)
    ensures
        match r {
            Some(s) => preference_summary_spec(u@) == Some(s@),
            None => preference_summary_spec(u@) is None,
        },
{
    let mut parts: Vec<&'static str> = Vec::new();
    assert(parts@.map_values(|s: &str| s@) =~= Seq::<Seq<char>>::empty());
    push_label(&mut parts, contains(u, "用中文回答") || contains(u, "中文回答"), "用中文回答");
    push_label(&mut parts, contains(u, "简明扼要") || contains(u, "精简") || contains(u, "不要废话") || contains(u, "简洁直接"), "回答简洁直接");
    push_label(&mut parts, contains(u, "不要在回答末尾总结"), "回答末尾不要总结已完成事项");
    push_label(&mut parts, contains(u, "函数不超过 30 行") || contains(u, "函数不超过30行"), "新增或修改函数不超过30行");
    push_label(&mut parts, contains(u, "不要添加注释") || contains(u, "不要给未修改") || contains(u, "未修改的代码行添加注释"), "不要给未修改代码加注释");
    push_label(&mut parts, contains(u, "按文档要求") || contains(u, "按照文档要求") || contains(u, "必须遵守开发任务书"), "严格按文档要求执行");
    push_label(&mut parts, contains(u, "先验收") || contains(u, "逐项填写") || contains(u, "逐项勾验"), "优先按验收清单逐项校验");
    push_label(&mut parts, contains(u, "每次尽量多做一点"), "单轮尽量推进更多有效工作");
    push_label(&mut parts, contains(u, "不要改太多") || contains(u, "最小改动") || contains(u, "简单点"), "优先最小改动实现");
    assert(parts@.map_values(|s: &str| s@) =~= preference_labels(u@));
    if parts.len() == 0 {
        return None;
    }
    let mut out = String::from_str("用户偏好：");
    let joined = join_strs(parts.as_slice(), "；");
    push_str(&mut out, joined.as_str());
    Some(out)
}

/// The input asks for a way of working.
pub open spec fn workflow_preference_spec(u: Seq<char>) -> bool {
    has_sub(u, "按文档要求"@) || has_sub(u, "按照文档要求"@) || has_sub(u, "先验收"@) || has_sub(u, "逐项填写"@)
        || has_sub(u, "逐项勾验"@) || has_sub(u, "每次尽量多做一点"@)
}

/// The kind of preference the input states, if any.
pub open spec fn preference_kind_spec(u: Seq<char>) -> Option<Seq<char>> {
    if workflow_preference_spec(u) {
        Some("workflow_preference"@)
    } else if preference_summary_spec(u) is Some {
        Some("preference"@)
    } else {
        None
    }
}

/// The kind of preference the input states (see `preference_kind_spec`).
pub fn preference_kind(u: &str) -> (r: Option<String>)
    ensures
        match r {
            Some(k) => preference_kind_spec(u@) == Some(k@),
            None => preference_kind_spec(u@) is None,
        },
{
    if contains(u, "按文档要求") || contains(u, "按照文档要求") || contains(u, "先验收") || contains(u, "逐项填写")
        || contains(u, "逐项勾验") || contains(u, "每次尽量多做一点") {
        return Some(String::from_str("workflow_preference"));
    }
    match preference_summary(u) {
        Some(_) => Some(String::from_str("preference")),
        None => None,
    }
}

// ---------------------------------------------------------------------------
// Failure lessons
// ---------------------------------------------------------------------------

/// The text an optional string stands for: its value, or empty.
pub open spec fn or_empty(o: Option<String>) -> Seq<char> {
    match o {
        Some(s) => s@,
        None => Seq::empty(),
    }
}

/// The lesson a failed tool call teaches, by its error and texts.
pub open spec fn failure_reason_spec(trace: ToolExecutionTrace) -> Option<Seq<char>> {
    let error = or_empty(trace.result.error_code);
    let text = trace.result.summary@ + " "@ + trace.result.final_answer@;
    if trace.result.success {
        None
    } else if has_sub(error, "provider_not_configured"@) || has_sub(text, "provider 未配置"@) {
        Some("provider 未配置时应直接收口为配置错误，并阻止继续生成无效回答。"@)
    } else if has_sub(text, "risk_confirmation_required"@) || has_sub(text, "需要风险确认"@) {
        Some("命中风险确认时应暂停执行并等待用户确认，不应继续推进主动作。"@)
    } else if has_sub(text, "runtime-host"@) && has_sub(text, "占用"@) {
        Some("runtime-host 被占用时应先释放进程再重试构建或启动。"@)
    } else if has_sub(text, "连接被拒绝"@) || has_sub(text, "connection refused"@) || has_sub(text, "127.0.0.1:8898"@) {
        Some("运行时不可达时应先恢复服务再继续主链路。"@)
    } else {
        Some("失败时应保留错误摘要并停止错误沉淀。"@)
    }
}

fn opt_text(o: &Option<String>) -> (r: &str)
    ensures
        r@ == or_empty(*o),
{
    proof { reveal_strlit(""); }
    match o {
        Some(s) => {
            assert(*o == Some(*s));
            s.as_str()
        },
        None => "",
    }
}

/// The lesson a failed tool call teaches (see `failure_reason_spec`).
pub fn failure_lesson_reason(trace: &ToolExecutionTrace) -> (r: Option<&'static str>)
    ensures
        match r {
            Some(s) => failure_reason_spec(*trace) == Some(s@),
            None => failure_reason_spec(*trace) is None,
        },
{
    if trace.result.success {
        return None;
    }
    proof { reveal_strlit(""); }
    let error = opt_text(&trace.result.error_code);
    let mut text = trace.result.summary.clone();
    push_str(&mut text, " ");
    push_str(&mut text, trace.result.final_answer.as_str());
    let t = text.as_str();
    if contains(error, "provider_not_configured") || contains(t, "provider 未配置") {
        Some("provider 未配置时应直接收口为配置错误，并阻止继续生成无效回答。")
    } else if contains(t, "risk_confirmation_required") || contains(t, "需要风险确认") {
        Some("命中风险确认时应暂停执行并等待用户确认，不应继续推进主动作。")
    } else if contains(t, "runtime-host") && contains(t, "占用") {
        Some("runtime-host 被占用时应先释放进程再重试构建或启动。")
    } else if contains(t, "连接被拒绝") || contains(t, "connection refused") || contains(t, "127.0.0.1:8898") {
        Some("运行时不可达时应先恢复服务再继续主链路。")
    } else {
        Some("失败时应保留错误摘要并停止错误沉淀。")
    }
}

/// The summary of a failure lesson, if the run teaches one: a controlled
/// recovery after an exception, or the lesson of a failed call.
pub open spec fn failure_summary_spec(trace: ToolExecutionTrace, code: Seq<char>) -> Option<Seq<char>> {
    if code == "verified_with_recovery"@ {
        Some("失败教训："@ + trace.tool.display_name@ + " 遇到异常时应执行单次受控恢复并保留恢复留痕。"@)
    } else {
        match failure_reason_spec(trace) {
            Some(reason) => Some("失败教训："@ + trace.tool.display_name@ + " "@ + reason),
            None => None,
        }
    }
}

/// The summary of a failure lesson (see `failure_summary_spec`).
pub fn failure_lesson_summary(trace: &ToolExecutionTrace, report: &VerificationReport) -> (r: Option<String>)
    ensures
        match r {
            Some(s) => failure_summary_spec(*trace, report.outcome.code@) == Some(s@),
            None => failure_summary_spec(*trace, report.outcome.code@) is None,
        },
{
    if str_eq(report.outcome.code.as_str(), "verified_with_recovery") {
        let mut out = String::from_str("失败教训：");
        push_str(&mut out, trace.tool.display_name.as_str());
        push_str(&mut out, " 遇到异常时应执行单次受控恢复并保留恢复留痕。");
        return Some(out);
    }
    match failure_lesson_reason(trace) {
        Some(reason) => {
            let mut out = String::from_str("失败教训：");
            push_str(&mut out, trace.tool.display_name.as_str());
            push_str(&mut out, " ");
            push_str(&mut out, reason);
            Some(out)
        },
        None => None,
    }
}

/// The content of a failure lesson: the tool, verification, error, result
/// and artifact of the failed call.
pub open spec fn failure_content_spec(trace: ToolExecutionTrace, report: VerificationReport) -> Seq<char> {
    "工具="@ + trace.tool.tool_name@ + "；验证="@ + report.outcome.summary@ + "; 错误码="@ + or_empty(trace.result.error_code)
        + "; 结果摘要="@ + summary_of(trace.result.summary@) + "; 最终答复="@ + summary_of(trace.result.final_answer@)
        + "; artifact_path="@ + or_empty(trace.result.artifact_path)
}

/// The content of a failure lesson (see `failure_content_spec`).
pub fn failure_lesson_content(trace: &ToolExecutionTrace, report: &VerificationReport) -> (r: String)
    ensures
        r@ == failure_content_spec(*trace, *report),
{
    let mut out = String::from_str("工具=");
    push_str(&mut out, trace.tool.tool_name.as_str());
    push_str(&mut out, "；验证=");
    push_str(&mut out, report.outcome.summary.as_str());
    push_str(&mut out, "; 错误码=");
    push_str(&mut out, opt_text(&trace.result.error_code));
    push_str(&mut out, "; 结果摘要=");
    let s = summarize_text(trace.result.summary.as_str());
    push_str(&mut out, s.as_str());
    push_str(&mut out, "; 最终答复=");
    let f = summarize_text(trace.result.final_answer.as_str());
    push_str(&mut out, f.as_str());
    push_str(&mut out, "; artifact_path=");
    push_str(&mut out, opt_text(&trace.result.artifact_path));
    out
}

// ---------------------------------------------------------------------------
// Sources and audits
// ---------------------------------------------------------------------------

/// The primary text if not blank, else the secondary if not blank, else the fallback.
pub open spec fn first_text_spec(primary: Seq<char>, secondary: Seq<char>, fallback: Seq<char>) -> Seq<char> {
    if trim(primary).len() > 0 {
        primary
    } else if trim(secondary).len() > 0 {
        secondary
    } else {
        fallback
    }
}

/// The primary text if not blank, else the secondary, else the fallback.
pub fn first_text(primary: &str, secondary: &str, fallback: &str) -> (r: String)
    ensures
        r@ == first_text_spec(primary@, secondary@, fallback@),
{
    let p = trimmed(primary);
    if !p.as_str().is_empty() {
        return String::from_str(primary);
    }
    let s = trimmed(secondary);
    if !s.as_str().is_empty() {
        return String::from_str(secondary);
    }
    String::from_str(fallback)
}

/// The title of a memory's source: the action summary, else the result summary.
pub open spec fn source_title_spec(trace: ToolExecutionTrace) -> Seq<char> {
    first_text_spec(summary_of(trace.action_summary@), Seq::empty(), summary_of(trace.result.summary@))
}

/// The title of a memory's source (see `source_title_spec`).
pub fn memory_source_title(trace: &ToolExecutionTrace) -> (r: String)
    ensures
        r@ == source_title_spec(*trace),
{
    let task_title = summarize_text(trace.action_summary.as_str());
    let summary = summarize_text(trace.result.summary.as_str());
    proof { reveal_strlit(""); }
    first_text(task_title.as_str(), "", summary.as_str())
}

/// Where a memory entry written after the trace came from.
pub fn memory_source(trace: &ToolExecutionTrace, event_type: &str) -> (r: MemorySource)
    ensures
        r.title@ == source_title_spec(*trace),
        r.event_type@ == event_type@,
        r.artifact_path@ == or_empty(trace.result.artifact_path),
{
    let artifact = match &trace.result.artifact_path {
        Some(p) => p.clone(),
        None => String::new(),
    };
    MemorySource { title: memory_source_title(trace), event_type: String::from_str(event_type), artifact_path: artifact }
}

/// The event type of a skipped write to the layer.
pub open spec fn skipped_event_spec(layer: Seq<char>) -> Seq<char> {
    if layer == "knowledge_base"@ {
        "knowledge_write_skipped"@
    } else {
        "memory_write_skipped"@
    }
}

/// The event type of a skipped write to the layer.
pub fn skipped_event_type(layer: &str) -> (r: &'static str)
    ensures
        r@ == skipped_event_spec(layer@),
{
    if str_eq(layer, "knowledge_base") {
        "knowledge_write_skipped"
    } else {
        "memory_write_skipped"
    }
}

/// The title of a skipped write to the layer.
pub open spec fn skipped_title_spec(layer: Seq<char>) -> Seq<char> {
    if layer == "knowledge_base"@ {
        "跳过知识写入"@
    } else {
        "跳过写入"@
    }
}

/// The title of a skipped write to the layer.
pub fn skipped_title(layer: &str) -> (r: String)
    ensures
        r@ == skipped_title_spec(layer@),
{
    if str_eq(layer, "knowledge_base") {
        String::from_str("跳过知识写入")
    } else {
        String::from_str("跳过写入")
    }
}

/// The audit of the working memory written at `now`.
pub fn working_memory_audit(now: &str) -> (a: MemoryAuditTrail)
    ensures
        a.governance_status@ == "written"@,
        a.memory_action@ == "write"@,
        a.governance_version@ == MEMORY_GOVERNANCE_VERSION@,
        a.governance_reason@ == "短期工作记忆已按当前运行时状态同步落盘。"@,
        a.governance_source@ == "runtime_working_memory"@,
        a.governance_at@ == now@,
        a.source_event_type@ == "memory_written"@,
        a.source_artifact_path@.len() == 0,
        a.archive_reason@.len() == 0,
{
    MemoryAuditTrail {
        governance_status: String::from_str("written"),
        memory_action: String::from_str("write"),
        governance_version: String::from_str(MEMORY_GOVERNANCE_VERSION),
        governance_reason: String::from_str("短期工作记忆已按当前运行时状态同步落盘。"),
        governance_source: String::from_str("runtime_working_memory"),
        governance_at: String::from_str(now),
        source_event_type: String::from_str("memory_written"),
        source_artifact_path: String::new(),
        archive_reason: String::new(),
    }
}

/// The audit of a written memory entry: its own governance fields.
pub fn written_audit(e: &MemoryEntry) -> (a: MemoryAuditTrail)
    ensures
        a.governance_status@ == "written"@,
        a.memory_action@ == "write"@,
        a.governance_version == e.governance_version,
        a.governance_reason == e.governance_reason,
        a.governance_source == e.governance_source,
        a.governance_at == e.governance_at,
        a.source_event_type == e.source_event_type,
        a.source_artifact_path == e.source_artifact_path,
        a.archive_reason == e.archive_reason,
{
    MemoryAuditTrail {
        governance_status: String::from_str("written"),
        memory_action: String::from_str("write"),
        governance_version: e.governance_version.clone(),
        governance_reason: e.governance_reason.clone(),
        governance_source: e.governance_source.clone(),
        governance_at: e.governance_at.clone(),
        source_event_type: e.source_event_type.clone(),
        source_artifact_path: e.source_artifact_path.clone(),
        archive_reason: e.archive_reason.clone(),
    }
}

/// The audit of a skipped write.
pub open spec fn skipped_audit_spec(a: MemoryAuditTrail, event_type: Seq<char>, source: Seq<char>, reason: Seq<char>, now: Seq<char>) -> bool {
    &&& a.governance_status@ == "skipped"@
    &&& a.memory_action@ == "skip"@
    &&& a.governance_version@ == MEMORY_GOVERNANCE_VERSION@
    &&& a.governance_reason@ == summary_of(reason)
    &&& a.governance_source@ == source
    &&& a.governance_at@ == now
    &&& a.source_event_type@ == event_type
    &&& a.archive_reason@.len() == 0
}

/// The audit of a skipped write.
pub fn skipped_audit(event_type: &str, source: &str, reason: &str, now: &str) -> (a: MemoryAuditTrail)
    ensures
        skipped_audit_spec(a, event_type@, source@, reason@, now@),
        a.source_artifact_path@.len() == 0,
{
    MemoryAuditTrail {
        governance_status: String::from_str("skipped"),
        memory_action: String::from_str("skip"),
        governance_version: String::from_str(MEMORY_GOVERNANCE_VERSION),
        governance_reason: summarize_text(reason),
        governance_source: String::from_str(source),
        governance_at: String::from_str(now),
        source_event_type: String::from_str(event_type),
        source_artifact_path: String::new(),
        archive_reason: String::new(),
    }
}

/// The audit of a skipped memory entry: sourced from its governance source
/// (else the skip guard), with its artifact.
pub fn skipped_entry_audit(e: &MemoryEntry, event_type: &str, reason: &str, now: &str) -> (a: MemoryAuditTrail)
    ensures
        skipped_audit_spec(a, event_type@, if e.governance_source@.len() == 0 {
            "runtime_skip_guard"@
        } else {
            e.governance_source@
        }, reason@, now@),
        a.source_artifact_path == e.source_artifact_path,
{
    let source = if e.governance_source.as_str().is_empty() { "runtime_skip_guard" } else { e.governance_source.as_str() };
    let mut audit = skipped_audit(event_type, source, reason, now);
    audit.source_artifact_path = e.source_artifact_path.clone();
    audit
}

/// The audit of a written knowledge record.
pub fn knowledge_audit(record: &KnowledgeRecord) -> (a: MemoryAuditTrail)
    ensures
        a.governance_status@ == "written"@,
        a.memory_action@ == "write"@,
        a.governance_version@ == MEMORY_GOVERNANCE_VERSION@,
        a.governance_reason@ == "稳定知识摘要已进入知识层并保留来源信息。"@,
        a.governance_source@ == "knowledge_base_write"@,
        a.governance_at == record.updated_at,
        a.source_event_type@ == "knowledge_written"@,
        a.source_artifact_path@.len() == 0,
        a.archive_reason@.len() == 0,
{
    MemoryAuditTrail {
        governance_status: String::from_str("written"),
        memory_action: String::from_str("write"),
        governance_version: String::from_str(MEMORY_GOVERNANCE_VERSION),
        governance_reason: String::from_str("稳定知识摘要已进入知识层并保留来源信息。"),
        governance_source: String::from_str("knowledge_base_write"),
        governance_at: record.updated_at.clone(),
        source_event_type: String::from_str("knowledge_written"),
        source_artifact_path: String::new(),
        archive_reason: String::new(),
    }
}

// ---------------------------------------------------------------------------
// Outcomes
// ---------------------------------------------------------------------------

/// The outcome of a write to the layer that was skipped for `reason`.
pub fn skipped_record_outcome(layer: &'static str, record_type: &str, reason: &str, now: &str) -> (o: MemoryWriteOutcome)
    ensures
        o.event_type@ == skipped_event_spec(layer@),
        o.layer == layer,
        o.record_type@ == record_type@,
        o.source_type@.len() == 0,
        o.title@ == skipped_title_spec(layer@),
        o.summary@ == summary_of(reason@),
        o.reason@ == reason@,
        skipped_audit_spec(o.audit, skipped_event_spec(layer@), "runtime_skip_guard"@, reason@, now@),
{
    let event_type = skipped_event_type(layer);
    MemoryWriteOutcome {
        event_type,
        layer,
        record_type: String::from_str(record_type),
        source_type: String::new(),
        title: skipped_title(layer),
        summary: summarize_text(reason),
        reason: String::from_str(reason),
        audit: skipped_audit(event_type, "runtime_skip_guard", reason, now),
    }
}

/// The outcome of a memory write that was skipped for `reason`.
pub fn skipped_memory_outcome(layer: &'static str, entry: &MemoryEntry, reason: &str, now: &str) -> (o: MemoryWriteOutcome)
    ensures
        o.event_type@ == skipped_event_spec(layer@),
        o.layer == layer,
        o.record_type == entry.kind,
        o.source_type == entry.source_type,
        o.title@ == skipped_title_spec(layer@),
        o.summary@ == summary_of(reason@),
        o.reason@ == reason@,
{
    let normalized = normalized_memory_entry(entry);
    let event_type = skipped_event_type(layer);
    MemoryWriteOutcome {
        event_type,
        layer,
        record_type: normalized.kind.clone(),
        source_type: normalized.source_type.clone(),
        title: skipped_title(layer),
        summary: summarize_text(reason),
        reason: String::from_str(reason),
        audit: skipped_entry_audit(&normalized, event_type, reason, now),
    }
}

/// The outcome of a memory entry written to the file at `memory_path`.
pub fn memory_written_outcome(entry: &MemoryEntry, reason: &str, memory_path: &str) -> (o: MemoryWriteOutcome)
    ensures
        o.event_type@ == "memory_written"@,
        o.layer@ == "long_term_memory"@,
        o.record_type == entry.kind,
        o.source_type == entry.source_type,
        o.title == entry.summary,
        o.summary@ == "长期记忆已写入 "@ + memory_path@,
        o.reason@ == reason@,
        o.audit.governance_status@ == "written"@,
{
    let normalized = normalized_memory_entry(entry);
    let mut summary = String::from_str("长期记忆已写入 ");
    push_str(&mut summary, memory_path);
    MemoryWriteOutcome {
        event_type: "memory_written",
        layer: "long_term_memory",
        record_type: normalized.kind.clone(),
        source_type: normalized.source_type.clone(),
        title: normalized.summary.clone(),
        summary,
        reason: String::from_str(reason),
        audit: written_audit(&normalized),
    }
}

/// The outcome of the working memory written to `working_dir` at `now`.
pub fn working_memory_outcome(request: &RunRequest, working_dir: &str, now: &str) -> (o: MemoryWriteOutcome)
    ensures
        o.event_type@ == "memory_written"@,
        o.layer@ == "working_memory"@,
        o.record_type@ == "session_state"@,
        o.source_type@ == "runtime"@,
        o.title == request.session_id,
        o.summary@ == "短期工作记忆已落盘到 "@ + working_dir@,
        o.reason@ == "当前任务主循环已完成短期状态更新。"@,
        o.audit.governance_at@ == now@,
{
    let mut summary = String::from_str("短期工作记忆已落盘到 ");
    push_str(&mut summary, working_dir);
    MemoryWriteOutcome {
        event_type: "memory_written",
        layer: "working_memory",
        record_type: String::from_str("session_state"),
        source_type: String::from_str("runtime"),
        title: request.session_id.clone(),
        summary,
        reason: String::from_str("当前任务主循环已完成短期状态更新。"),
        audit: working_memory_audit(now),
    }
}

/// The outcome of a long-term memory write, by what the append returned.
pub open spec fn write_result_spec(o: MemoryWriteOutcome, entry: MemoryEntry, result: Result<(), String>, path: Seq<char>) -> bool {
    match result {
        Ok(_) => o.event_type@ == "memory_written"@ && o.title == entry.summary && o.reason@
            == "任务完成后形成了可复用摘要。"@ && o.summary@ == "长期记忆已写入 "@ + path,
        Err(e) => o.event_type@ == "memory_write_skipped"@ && o.reason@ == e@ && o.summary@ == summary_of(e@),
    }
}

/// The outcome of the long-term memory write of a run, by what the append returned.
pub fn memory_write_result(entry: &MemoryEntry, appended: Result<(), String>, memory_path: &str, now: &str) -> (o: MemoryWriteOutcome)
    ensures
        write_result_spec(o, *entry, appended, memory_path@),
{
    match appended {
        Ok(_) => {
            let o = memory_written_outcome(entry, "任务完成后形成了可复用摘要。", memory_path);
            o
        },
        Err(error) => {
            proof {
                reveal_strlit("long_term_memory");
                reveal_strlit("knowledge_base");
                assert("long_term_memory"@.len() != "knowledge_base"@.len());
            }
            let o = skipped_memory_outcome("long_term_memory", entry, error.as_str(), now);
            assert(o.event_type@ == skipped_event_spec("long_term_memory"@));
            o
        },
    }
}

/// The outcome of a knowledge record written to `knowledge_path`, with the
/// note it was exported to, if any.
pub fn knowledge_write_outcome(
    record: &KnowledgeRecord,
    knowledge_path: &str,
    exported: Option<String>,
    sync_enabled: bool,
) -> (o: MemoryWriteOutcome)
    ensures
        o.event_type@ == "knowledge_written"@,
        o.layer@ == "knowledge_base"@,
        o.record_type == record.knowledge_type,
        o.source_type@ == "runtime"@,
        o.title == record.title,
        o.summary@ == "知识条目已写入 "@ + knowledge_path@ + match exported {
            Some(p) => "；思源已同步 "@ + p@,
            None => Seq::empty(),
        },
        o.reason@ == if exported is Some && sync_enabled {
            "当前任务形成了稳定摘要，已写入 SQLite 并同步到思源。"@
        } else {
            "当前任务形成了稳定且可复用的摘要结果。"@
        },
{
    let mut summary = String::from_str("知识条目已写入 ");
    push_str(&mut summary, knowledge_path);
    let mut reason = String::from_str("当前任务形成了稳定且可复用的摘要结果。");
    match &exported {
        Some(p) => {
            push_str(&mut summary, "；思源已同步 ");
            push_str(&mut summary, p.as_str());
            if sync_enabled {
                reason = String::from_str("当前任务形成了稳定摘要，已写入 SQLite 并同步到思源。");
            }
        },
        None => {
            assert(summary@ + Seq::<char>::empty() =~= summary@);
        },
    }
    MemoryWriteOutcome {
        event_type: "knowledge_written",
        layer: "knowledge_base",
        record_type: record.knowledge_type.clone(),
        source_type: String::from_str("runtime"),
        title: record.title.clone(),
        summary,
        reason,
        audit: knowledge_audit(record),
    }
}

// ---------------------------------------------------------------------------
// Entries and records of a finished run
// ---------------------------------------------------------------------------

/// The fields an entry of a finished run takes from the request.
pub open spec fn run_entry_fields(e: MemoryEntry, request: RunRequest, now: Seq<char>) -> bool {
    &&& e.scope@ == request.workspace_ref.name@
    &&& e.workspace_id@ == request.workspace_ref.workspace_id@
    &&& e.session_id@ == request.session_id@
    &&& e.source_run_id@ == request.run_id@
    &&& e.source@ == "run:"@ + request.run_id@
    &&& e.source_type@ == "runtime"@
    &&& e.governance_version@.len() == 0
    &&& e.governance_reason@.len() == 0
    &&& e.governance_source@.len() == 0
    &&& e.governance_at@.len() == 0
    &&& e.archive_reason@.len() == 0
    &&& !e.archived
    &&& e.archived_at@.len() == 0
    &&& e.created_at@ == now
    &&& e.updated_at@ == now
    &&& e.timestamp@ == now
}

fn run_source(request: &RunRequest) -> (r: String)
    ensures
        r@ == "run:"@ + request.run_id@,
{
    let mut s = String::from_str("run:");
    push_str(&mut s, request.run_id.as_str());
    s
}

fn stamped(prefix: &str, now: &str) -> (r: String)
    ensures
        r@ == prefix@ + now@,
{
    let mut s = String::from_str(prefix);
    push_str(&mut s, now);
    s
}

/// The preference entry of a run whose input states preferences.
pub fn preference_entry(request: &RunRequest, now: &str) -> (r: Option<MemoryEntry>)
    ensures
        (r is Some) == (preference_kind_spec(request.user_input@) is Some && preference_summary_spec(request.user_input@) is Some),
        r matches Some(e) ==> {
            &&& Some(e.kind@) == preference_kind_spec(request.user_input@)
            &&& Some(e.summary@) == preference_summary_spec(request.user_input@)
            &&& e.title@ == e.summary@
            &&& e.id@ == "memory-preference-"@ + now@
            &&& e.content@ == summary_of(request.user_input@)
            &&& e.source_title@ == summary_of(request.user_input@)
            &&& e.source_event_type@ == "run_finished"@
            &&& e.verified
            &&& e.priority == 80
            &&& run_entry_fields(e, *request, now@)
        },
{
    let kind = match preference_kind(request.user_input.as_str()) {
        Some(k) => k,
        None => { return None; },
    };
    let summary = match preference_summary(request.user_input.as_str()) {
        Some(s) => s,
        None => { return None; },
    };
    Some(MemoryEntry {
        id: stamped("memory-preference-", now),
        kind,
        title: summary.clone(),
        summary,
        content: summarize_text(request.user_input.as_str()),
        scope: request.workspace_ref.name.clone(),
        workspace_id: request.workspace_ref.workspace_id.clone(),
        session_id: request.session_id.clone(),
        source_run_id: request.run_id.clone(),
        source: run_source(request),
        source_type: String::from_str("runtime"),
        source_title: summarize_text(request.user_input.as_str()),
        source_event_type: String::from_str("run_finished"),
        source_artifact_path: String::new(),
        governance_version: String::new(),
        governance_reason: String::new(),
        governance_source: String::new(),
        governance_at: String::new(),
        archive_reason: String::new(),
        verified: true,
        priority: 80,
        archived: false,
        archived_at: String::new(),
        created_at: String::from_str(now),
        updated_at: String::from_str(now),
        timestamp: String::from_str(now),
    })
}

/// The failure lesson entry of a run, when it teaches one.
pub fn failure_lesson_entry(
    request: &RunRequest,
    trace: &ToolExecutionTrace,
    report: &VerificationReport,
    now: &str,
) -> (r: Option<MemoryEntry>)
    ensures
        (r is Some) == (failure_summary_spec(*trace, report.outcome.code@) is Some),
        r matches Some(e) ==> {
            &&& Some(e.summary@) == failure_summary_spec(*trace, report.outcome.code@)
            &&& e.title@ == e.summary@
            &&& e.kind@ == "lesson_learned"@
            &&& e.id@ == "memory-lesson-"@ + now@
            &&& e.content@ == failure_content_spec(*trace, *report)
            &&& e.source_title@ == source_title_spec(*trace)
            &&& e.source_event_type@ == "run_failed"@
            &&& e.source_artifact_path@ == or_empty(trace.result.artifact_path)
            &&& e.verified == report.outcome.passed
            &&& e.priority == 60
            &&& run_entry_fields(e, *request, now@)
        },
{
    let summary = match failure_lesson_summary(trace, report) {
        Some(s) => s,
        None => { return None; },
    };
    let source = memory_source(trace, "run_failed");
    Some(MemoryEntry {
        id: stamped("memory-lesson-", now),
        kind: String::from_str("lesson_learned"),
        title: summary.clone(),
        summary,
        content: failure_lesson_content(trace, report),
        scope: request.workspace_ref.name.clone(),
        workspace_id: request.workspace_ref.workspace_id.clone(),
        session_id: request.session_id.clone(),
        source_run_id: request.run_id.clone(),
        source: run_source(request),
        source_type: String::from_str("runtime"),
        source_title: source.title,
        source_event_type: source.event_type,
        source_artifact_path: source.artifact_path,
        governance_version: String::new(),
        governance_reason: String::new(),
        governance_source: String::new(),
        governance_at: String::new(),
        archive_reason: String::new(),
        verified: report.outcome.passed,
        priority: 60,
        archived: false,
        archived_at: String::new(),
        created_at: String::from_str(now),
        updated_at: String::from_str(now),
        timestamp: String::from_str(now),
    })
}

/// The memory entry a verified run writes.
pub fn auto_memory_entry(
    request: &RunRequest,
    trace: &ToolExecutionTrace,
    report: &VerificationReport,
    now: &str,
) -> (e: MemoryEntry)
    ensures
        e.id@ == "memory-auto-"@ + now@,
        e.kind@ == memory_kind_spec(trace.tool.tool_name@),
        e.title@ == summary_of(trace.action_summary@),
        e.summary@ == summary_of(trace.result.summary@),
        e.content@ == summary_of(trace.result.final_answer@),
        e.source_title@ == source_title_spec(*trace),
        e.source_event_type@ == "verification_completed"@,
        e.source_artifact_path@ == or_empty(trace.result.artifact_path),
        e.verified == report.outcome.passed,
        e.priority == 0,
        run_entry_fields(e, *request, now@),
{
    let source = memory_source(trace, "verification_completed");
    MemoryEntry {
        id: stamped("memory-auto-", now),
        kind: infer_memory_kind(trace.tool.tool_name.as_str()),
        title: summarize_text(trace.action_summary.as_str()),
        summary: summarize_text(trace.result.summary.as_str()),
        content: summarize_text(trace.result.final_answer.as_str()),
        scope: request.workspace_ref.name.clone(),
        workspace_id: request.workspace_ref.workspace_id.clone(),
        session_id: request.session_id.clone(),
        source_run_id: request.run_id.clone(),
        source: run_source(request),
        source_type: String::from_str("runtime"),
        source_title: source.title,
        source_event_type: source.event_type,
        source_artifact_path: source.artifact_path,
        governance_version: String::new(),
        governance_reason: String::new(),
        governance_source: String::new(),
        governance_at: String::new(),
        archive_reason: String::new(),
        verified: report.outcome.passed,
        priority: 0,
        archived: false,
        archived_at: String::new(),
        created_at: String::from_str(now),
        updated_at: String::from_str(now),
        timestamp: String::from_str(now),
    }
}

/// The knowledge record a verified run of a knowledge-bearing tool writes.
pub fn build_knowledge_record(
    request: &RunRequest,
    trace: &ToolExecutionTrace,
    report: &VerificationReport,
    now: &str,
) -> (r: Option<KnowledgeRecord>)
    ensures
        (r is Some) == (knowledge_type_spec(trace.tool.tool_name@, report.outcome.passed) is Some),
        r matches Some(k) ==> {
            &&& Some(k.knowledge_type@) == knowledge_type_spec(trace.tool.tool_name@, report.outcome.passed)
            &&& k.id@ == "knowledge-"@ + now@
            &&& k.title@ == summary_of(trace.action_summary@)
            &&& k.summary@ == knowledge_summary_spec(*trace)
            &&& k.content@ == summary_of(trace.result.final_answer@)
            &&& k.tags@.len() == 2
            &&& k.tags@[0]@ == trace.tool.tool_name@
            &&& k.tags@[1]@ == request.workspace_ref.workspace_id@
            &&& k.source@ == "run:"@ + request.run_id@
            &&& k.source_type@ == "runtime"@
            &&& k.verified == report.outcome.passed
            &&& k.workspace_id@ == request.workspace_ref.workspace_id@
            &&& k.priority == 0
            &&& !k.archived
            &&& k.created_at@ == now@
            &&& k.updated_at@ == now@
        },
{
    let kind = match knowledge_type(trace, report) {
        Some(k) => k,
        None => { return None; },
    };
    let mut tags: Vec<String> = Vec::new();
    tags.push(trace.tool.tool_name.clone());
    tags.push(request.workspace_ref.workspace_id.clone());
    Some(KnowledgeRecord {
        id: stamped("knowledge-", now),
        knowledge_type: kind,
        title: summarize_text(trace.action_summary.as_str()),
        summary: knowledge_summary(trace),
        content: summarize_text(trace.result.final_answer.as_str()),
        tags,
        source: run_source(request),
        source_type: String::from_str("runtime"),
        verified: report.outcome.passed,
        workspace_id: request.workspace_ref.workspace_id.clone(),
        priority: 0,
        archived: false,
        created_at: String::from_str(now),
        updated_at: String::from_str(now),
    })
}


// ---------------------------------------------------------------------------
// Write plans
// ---------------------------------------------------------------------------

/// Why a run's knowledge record is not stored, if it is not: there is no
/// record to store, or an equal one is stored, or it echoes another run, or
/// it falls under a skip rule.
pub const NOT_ELIGIBLE_REASON: &'static str = "当前结果不满足知识沉淀条件，未进入知识层。";
pub const DUPLICATE_KNOWLEDGE_REASON: &'static str = "命中重复知识条目，跳过写入。";
pub const RECURSIVE_KNOWLEDGE_REASON: &'static str = "检测到知识递归污染风险，跳过写入。";

/// Why the record is kept out of a knowledge base that holds `stored`, if it is.
pub open spec fn knowledge_skip_reason(k: KnowledgeRecord, stored: Seq<KnowledgeRecord>) -> Option<Seq<char>> {
    if exists|j: int| 0 <= j < stored.len() && #[trigger] same_record_spec(stored[j], k) {
        Some(DUPLICATE_KNOWLEDGE_REASON@)
    } else if recursive_knowledge_spec(k) {
        Some(RECURSIVE_KNOWLEDGE_REASON@)
    } else {
        skip_reason_spec(k)
    }
}

/// `o` reports a write to `layer` skipped for `reason`.
pub open spec fn skipped_outcome_spec(o: MemoryWriteOutcome, layer: Seq<char>, record_type: Seq<char>, reason: Seq<char>, now: Seq<char>) -> bool {
    &&& o.event_type@ == skipped_event_spec(layer)
    &&& o.layer@ == layer
    &&& o.record_type@ == record_type
    &&& o.source_type@.len() == 0
    &&& o.title@ == skipped_title_spec(layer)
    &&& o.summary@ == summary_of(reason)
    &&& o.reason@ == reason
    &&& skipped_audit_spec(o.audit, skipped_event_spec(layer), "runtime_skip_guard"@, reason, now)
}

/// What becomes of a run's knowledge record.
#[derive(Clone, Debug)]
pub enum KnowledgeWritePlan {
    /// Nothing is stored; the outcome says why.
    Skip(MemoryWriteOutcome),
    /// The record is appended to the knowledge base.
    Append(KnowledgeRecord),
}

/// What becomes of the record built from a run (none when the run yields
/// none), given the records the knowledge base holds: it is appended unless
/// `knowledge_skip_reason` keeps it out.
pub fn plan_knowledge_write(record: Option<KnowledgeRecord>, stored: &Vec<KnowledgeRecord>, now: &str) -> (p: KnowledgeWritePlan)
    ensures
        match record {
            None => p matches KnowledgeWritePlan::Skip(o) && skipped_outcome_spec(o, "knowledge_base"@, "document_digest"@,
                NOT_ELIGIBLE_REASON@, now@),
            Some(k) => match knowledge_skip_reason(k, stored@) {
                Some(reason) => p matches KnowledgeWritePlan::Skip(o) && skipped_outcome_spec(o, "knowledge_base"@,
                    k.knowledge_type@, reason, now@),
                None => p == KnowledgeWritePlan::Append(k),
            },
        },
{
    let k = match record {
        None => {
            return KnowledgeWritePlan::Skip(skipped_record_outcome("knowledge_base", "document_digest", NOT_ELIGIBLE_REASON, now));
        },
        Some(k) => k,
    };
    if has_knowledge_record(stored, &k) {
        return KnowledgeWritePlan::Skip(skipped_record_outcome("knowledge_base", k.knowledge_type.as_str(),
            DUPLICATE_KNOWLEDGE_REASON, now));
    }
    if looks_like_recursive_knowledge(&k) {
        return KnowledgeWritePlan::Skip(skipped_record_outcome("knowledge_base", k.knowledge_type.as_str(),
            RECURSIVE_KNOWLEDGE_REASON, now));
    }
    match should_skip_knowledge_record(&k) {
        Some(skip) => KnowledgeWritePlan::Skip(skipped_record_outcome("knowledge_base", k.knowledge_type.as_str(),
            skip.reason.as_str(), now)),
        None => KnowledgeWritePlan::Append(k),
    }
}

/// Only clean knowledge is stored: a record that a plan appends is verified,
/// holds no sensitive text, is not already stored and does not echo another run.
pub proof fn appended_knowledge_is_clean_law(k: KnowledgeRecord, stored: Seq<KnowledgeRecord>)
    ensures
        knowledge_skip_reason(k, stored) is None ==> {
            &&& k.verified
            &&& !record_sensitive_spec(k)
            &&& !recursive_knowledge_spec(k)
            &&& forall|j: int| 0 <= j < stored.len() ==> !same_record_spec(#[trigger] stored[j], k)
        },
{
}

/// A verified run's memory is dropped as a duplicate only when a found
/// entry has the same workspace, kind, title and summary: found entries
/// that differ from it in any of these, the summary included, never keep it
/// from being written.
pub proof fn duplicate_memory_needs_equal_entry_law(entry: MemoryEntry, found: Seq<MemoryEntry>)
    ensures
        (exists|j: int| 0 <= j < found.len() && #[trigger] same_memory_spec(found[j], entry)) <==> (exists|j: int|
            0 <= j < found.len() && (#[trigger] found[j]).workspace_id@ == entry.workspace_id@ && found[j].kind@
                == entry.kind@ && found[j].title@ == entry.title@ && found[j].summary@ == entry.summary@),
        (forall|j: int| 0 <= j < found.len() ==> (#[trigger] found[j]).summary@ != entry.summary@) ==> !(exists|j: int|
            0 <= j < found.len() && #[trigger] same_memory_spec(found[j], entry)),
{
    if exists|j: int| 0 <= j < found.len() && (#[trigger] found[j]).workspace_id@ == entry.workspace_id@ && found[j].kind@
        == entry.kind@ && found[j].title@ == entry.title@ && found[j].summary@ == entry.summary@ {
        let j = choose|j: int| 0 <= j < found.len() && (#[trigger] found[j]).workspace_id@ == entry.workspace_id@
            && found[j].kind@ == entry.kind@ && found[j].title@ == entry.title@ && found[j].summary@ == entry.summary@;
        assert(same_memory_spec(found[j], entry));
    }
}

/// The reason a run's result is not remembered when its verification failed.
pub const UNVERIFIED_MEMORY_REASON: &'static str = "验证未通过，跳过长期记忆写入。";
pub const DUPLICATE_MEMORY_REASON: &'static str = "命中重复长期记忆，跳过写入。";

/// What becomes of a run's long-term memory entry.
#[derive(Clone, Debug)]
pub enum MemoryWritePlan {
    /// Nothing is written; the outcome says why.
    Skip(MemoryWriteOutcome),
    /// The entry is appended to long-term memory.
    Append(MemoryEntry),
}

/// What becomes of the entry a run would remember, given whether its
/// verification passed and the entries a search for it found: skipped when
/// the run failed verification or an equal memory exists, else appended.
pub fn plan_long_term_write(entry: MemoryEntry, passed: bool, found: &Vec<MemoryEntry>, now: &str) -> (p: MemoryWritePlan)
    ensures
        !passed ==> (p matches MemoryWritePlan::Skip(o) && skipped_outcome_spec(o, "long_term_memory"@, "lesson_learned"@,
            UNVERIFIED_MEMORY_REASON@, now@)),
        passed && (exists|j: int| 0 <= j < found@.len() && #[trigger] same_memory_spec(found@[j], entry)) ==> (p matches
            MemoryWritePlan::Skip(o) && o.layer@ == "long_term_memory"@ && o.record_type == entry.kind && o.source_type
            == entry.source_type && o.reason@ == DUPLICATE_MEMORY_REASON@ && o.summary@ == summary_of(DUPLICATE_MEMORY_REASON@)),
        passed && !(exists|j: int| 0 <= j < found@.len() && #[trigger] same_memory_spec(found@[j], entry)) ==> p
            == MemoryWritePlan::Append(entry),
{
    if !passed {
        return MemoryWritePlan::Skip(skipped_record_outcome("long_term_memory", "lesson_learned", UNVERIFIED_MEMORY_REASON, now));
    }
    if has_memory_duplicate(found, &entry) {
        return MemoryWritePlan::Skip(skipped_memory_outcome("long_term_memory", &entry, DUPLICATE_MEMORY_REASON, now));
    }
    MemoryWritePlan::Append(entry)
}
} // verus!
