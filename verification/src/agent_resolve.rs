//! The agent resolve loop's decisions and reports: how tool rounds are
//! rendered, when a task that must write a file is done, incomplete or
//! recoverable, and the execution each ending yields. The host runs the
//! loop: it calls the model and the tools and hands the results here.
use vstd::prelude::*;
use crate::capabilities::ToolExecutionTrace;
use crate::contracts::RunRequest;
use crate::execution::{ActionExecution, plain_execution};
use crate::text::{
    contains, dec, first_at, has_sub, join, join_strings, lines, lines_of, nth_or_empty, push_str, split_once,
    str_eq, trim, trim_end_char, trim_end_matches_char, trimmed, usize_text, views,
};

verus! {

/// Why the agent loop does not use the answer cache.
pub const CACHE_REASON: &'static str = "Agent 调用依赖实时模型输出，不使用回答缓存。";

/// The number of model rounds the agent loop may take.
pub const MAX_AGENT_TURNS: usize = 3;

/// How many failed traces there are.
pub open spec fn failed_count(traces: Seq<ToolExecutionTrace>) -> nat
    decreases traces.len(),
{
    if traces.len() == 0 {
        0
    } else {
        failed_count(traces.drop_last()) + if traces.last().result.success { 0nat } else { 1nat }
    }
}

/// The header of a tool round report.
pub open spec fn header_spec(total: nat, failed: nat, skipped: nat) -> Seq<char> {
    "工具调用执行完成："@ + dec(total) + " 个，总失败 "@ + dec(failed) + " 个，未识别 "@ + dec(skipped) + " 个。"@
}

/// The report of one trace, numbered `index`.
pub open spec fn single_trace_spec(index: nat, t: ToolExecutionTrace) -> Seq<char> {
    let first = dec(index) + ". ["@ + (if t.result.success { "成功"@ } else { "失败"@ }) + "] "@ + t.tool.display_name@
        + " ("@ + t.tool.tool_name@ + ")"@;
    let base = first + "\n"@ + "动作："@ + t.action_summary@ + "\n"@ + "摘要："@ + t.result.summary@;
    let with_artifact = match t.result.artifact_path {
        Some(p) => base + "\n"@ + "产物："@ + p@,
        None => base,
    };
    match t.result.error_code {
        Some(c) => with_artifact + "\n"@ + "错误码："@ + c@,
        None => with_artifact,
    }
}

/// The reports of the traces, numbered from 1.
pub open spec fn trace_reports(traces: Seq<ToolExecutionTrace>) -> Seq<Seq<char>> {
    Seq::new(traces.len(), |i: int| single_trace_spec((i + 1) as nat, traces[i]))
}

/// The detail of a tool round: the trace reports separated by blank lines.
pub open spec fn detail_spec(traces: Seq<ToolExecutionTrace>) -> Seq<char> {
    join(trace_reports(traces), "\n\n"@)
}

/// The block listing skipped calls (at most twenty), or nothing.
pub open spec fn skipped_block_spec(skipped: Seq<Seq<char>>) -> Seq<char> {
    if skipped.len() == 0 {
        Seq::empty()
    } else {
        let shown = if skipped.len() <= 20 { skipped } else { skipped.take(20) };
        "未识别的工具调用（已跳过）：\n"@ + join(shown.map_values(|n: Seq<char>| "- "@ + n), "\n"@)
    }
}

/// The final answer of a tool round: header, detail and skipped block,
/// separated by blank lines, leaving out what is empty.
pub open spec fn final_answer_spec(header: Seq<char>, detail: Seq<char>, skipped: Seq<char>) -> Seq<char> {
    if skipped.len() == 0 {
        header + "\n\n"@ + detail
    } else if detail.len() == 0 {
        header + "\n\n"@ + skipped
    } else {
        header + "\n\n"@ + detail + "\n\n"@ + skipped
    }
}

/// The header of a tool round report.
pub fn tool_call_header(total: usize, failed: usize, skipped: usize) -> (r: String)
    ensures
        r@ == header_spec(total as nat, failed as nat, skipped as nat),
{
    let mut out = String::from_str("工具调用执行完成：");
    let a = usize_text(total);
    push_str(&mut out, a.as_str());
    push_str(&mut out, " 个，总失败 ");
    let b = usize_text(failed);
    push_str(&mut out, b.as_str());
    push_str(&mut out, " 个，未识别 ");
    let c = usize_text(skipped);
    push_str(&mut out, c.as_str());
    push_str(&mut out, " 个。");
    out
}

/// The report of one trace, numbered `index`.
pub fn render_single_trace(index: usize, t: &ToolExecutionTrace) -> (r: String)
    ensures
        r@ == single_trace_spec(index as nat, *t),
{
    let n = usize_text(index);
    let mut out = n;
    push_str(&mut out, ". [");
    push_str(&mut out, if t.result.success { "成功" } else { "失败" });
    push_str(&mut out, "] ");
    push_str(&mut out, t.tool.display_name.as_str());
    push_str(&mut out, " (");
    push_str(&mut out, t.tool.tool_name.as_str());
    push_str(&mut out, ")");
    push_str(&mut out, "\n");
    push_str(&mut out, "动作：");
    push_str(&mut out, t.action_summary.as_str());
    push_str(&mut out, "\n");
    push_str(&mut out, "摘要：");
    push_str(&mut out, t.result.summary.as_str());
    match &t.result.artifact_path {
        Some(p) => {
            push_str(&mut out, "\n");
            push_str(&mut out, "产物：");
            push_str(&mut out, p.as_str());
        },
        None => {},
    }
    match &t.result.error_code {
        Some(c) => {
            push_str(&mut out, "\n");
            push_str(&mut out, "错误码：");
            push_str(&mut out, c.as_str());
        },
        None => {},
    }
    out
}

/// How many of the traces failed.
pub fn count_failed(traces: &[ToolExecutionTrace]) -> (n: usize)
    ensures
        n == failed_count(traces@),
        n <= traces@.len(),
{
    let mut n: usize = 0;
    let mut i: usize = 0;
    while i < traces.len()
        invariant
            i <= traces@.len(),
            n == failed_count(traces@.take(i as int)),
            n <= i,
        decreases traces.len() - i,
    {
        assert(traces@.take(i + 1).drop_last() =~= traces@.take(i as int));
        if !traces[i].result.success {
            n = n + 1;
        }
        i = i + 1;
    }
    assert(traces@.take(traces@.len() as int) =~= traces@);
    n
}

/// The reports of the traces separated by blank lines.
pub fn tool_call_detail(traces: &[ToolExecutionTrace]) -> (r: String)
    ensures
        r@ == detail_spec(traces@),
{
    let mut parts: Vec<String> = Vec::new();
    let mut i: usize = 0;
    while i < traces.len()
        invariant
            i <= traces@.len(),
            views(parts@) == trace_reports(traces@.take(i as int)),
        decreases traces.len() - i,
    {
        let line = render_single_trace(i + 1, &traces[i]);
        let ghost before = parts@;
        parts.push(line);
        assert(views(parts@) =~= views(before).push(single_trace_spec((i + 1) as nat, traces@[i as int])));
        assert(views(parts@) =~= trace_reports(traces@.take(i + 1)));
        i = i + 1;
    }
    assert(traces@.take(traces@.len() as int) =~= traces@);
    let r = join_strings(parts.as_slice(), "\n\n");
    assert(parts@.map_values(|s: String| s@) =~= views(parts@));
    r
}

/// The block listing skipped calls, or nothing.
pub fn render_skipped_tool_calls(skipped: &[String]) -> (r: String)
    ensures
        r@ == skipped_block_spec(views(skipped@)),
{
    if skipped.len() == 0 {
        return String::new();
    }
    let limit: usize = if skipped.len() <= 20 { skipped.len() } else { 20 };
    let ghost shown = if skipped@.len() <= 20 { views(skipped@) } else { views(skipped@).take(20) };
    let ghost f = |n: Seq<char>| "- "@ + n;
    let mut names: Vec<String> = Vec::new();
    let mut i: usize = 0;
    while i < limit
        invariant
            i <= limit <= skipped@.len(),
            limit == shown.len(),
            shown == (if skipped@.len() <= 20 { views(skipped@) } else { views(skipped@).take(20) }),
            views(names@) == shown.take(i as int).map_values(|n: Seq<char>| "- "@ + n),
        decreases limit - i,
    {
        let mut line = String::from_str("- ");
        push_str(&mut line, skipped[i].as_str());
        let ghost before = names@;
        names.push(line);
        assert(shown[i as int] == skipped@[i as int]@);
        assert(views(names@) =~= views(before).push("- "@ + shown[i as int]));
        assert(views(names@) =~= shown.take(i + 1).map_values(|n: Seq<char>| "- "@ + n));
        i = i + 1;
    }
    assert(shown.take(limit as int) =~= shown);
    let mut out = String::from_str("未识别的工具调用（已跳过）：\n");
    let joined = join_strings(names.as_slice(), "\n");
    assert(names@.map_values(|s: String| s@) =~= views(names@));
    push_str(&mut out, joined.as_str());
    out
}

/// The final answer of a tool round (see `final_answer_spec`).
pub fn tool_call_final_answer(header: &str, detail: &str, skipped: &str) -> (r: String)
    ensures
        r@ == final_answer_spec(header@, detail@, skipped@),
{
    let mut out = String::from_str(header);
    push_str(&mut out, "\n\n");
    if skipped.is_empty() {
        push_str(&mut out, detail);
    } else if detail.is_empty() {
        push_str(&mut out, skipped);
    } else {
        push_str(&mut out, detail);
        push_str(&mut out, "\n\n");
        push_str(&mut out, skipped);
    }
    out
}

/// The text used when the model returned no usable tool call.
pub const NO_TOOL_CALLS: &'static str = "模型未返回可执行的工具调用。";

/// The report of a tool round: header, final answer, and whether every
/// call succeeded and none was skipped.
pub open spec fn round_report_spec(traces: Seq<ToolExecutionTrace>, skipped: Seq<Seq<char>>) -> (Seq<char>, Seq<char>, bool) {
    if traces.len() == 0 && skipped.len() == 0 {
        (NO_TOOL_CALLS@, NO_TOOL_CALLS@, false)
    } else {
        let header = header_spec(traces.len(), failed_count(traces), skipped.len());
        (
            header,
            final_answer_spec(header, detail_spec(traces), skipped_block_spec(skipped)),
            failed_count(traces) == 0 && skipped.len() == 0,
        )
    }
}

/// The report of a tool round (see `round_report_spec`).
pub fn render_tool_call_traces(traces: &[ToolExecutionTrace], skipped: &[String]) -> (r: (String, String, bool))
    ensures
        (r.0@, r.1@, r.2) == round_report_spec(traces@, views(skipped@)),
{
    if traces.len() == 0 && skipped.len() == 0 {
        return (String::from_str(NO_TOOL_CALLS), String::from_str(NO_TOOL_CALLS), false);
    }
    let failed = count_failed(traces);
    let skipped_count = skipped.len();
    let success = failed == 0 && skipped_count == 0;
    let header = tool_call_header(traces.len(), failed, skipped_count);
    let detail = tool_call_detail(traces);
    let skipped_block = render_skipped_tool_calls(skipped);
    let final_answer = tool_call_final_answer(header.as_str(), detail.as_str(), skipped_block.as_str());
    (header, final_answer, success)
}

/// The label of a tool call that could not be executed.
pub fn skipped_call_label(function_name: &str, id: &str) -> (r: String)
    ensures
        r@ == function_name@ + " (id="@ + id@ + ")"@,
{
    let mut out = String::from_str(function_name);
    push_str(&mut out, " (id=");
    push_str(&mut out, id);
    push_str(&mut out, ")");
    out
}

/// The results of a round as the follow-up prompt shows them.
pub open spec fn round_results_spec(traces: Seq<ToolExecutionTrace>, skipped: Seq<Seq<char>>) -> Seq<char> {
    if skipped.len() == 0 {
        join(trace_reports(traces), "\n\n"@)
    } else {
        join(trace_reports(traces).push(skipped_block_spec(skipped)), "\n\n"@)
    }
}

/// The results of a round as the follow-up prompt shows them.
pub fn render_round_results(traces: &[ToolExecutionTrace], skipped: &[String]) -> (r: String)
    ensures
        r@ == round_results_spec(traces@, views(skipped@)),
{
    let detail = tool_call_detail(traces);
    if skipped.len() == 0 {
        return detail;
    }
    let block = render_skipped_tool_calls(skipped);
    if traces.len() == 0 {
        assert(trace_reports(traces@).push(skipped_block_spec(views(skipped@))) =~= seq![skipped_block_spec(views(skipped@))]);
        return block;
    }
    let mut out = detail;
    push_str(&mut out, "\n\n");
    push_str(&mut out, block.as_str());
    assert(trace_reports(traces@).push(skipped_block_spec(views(skipped@))).drop_last() =~= trace_reports(traces@));
    out
}

// ---------------------------------------------------------------------------
// Tasks that must write a file
// ---------------------------------------------------------------------------

/// The request asks for a result to be written to a file.
pub open spec fn requires_write_spec(u: Seq<char>) -> bool {
    has_sub(u, "写到"@) || has_sub(u, "写入"@) || has_sub(u, "写回"@) || has_sub(u, "保存到"@) || has_sub(u, "输出到"@)
        || has_sub(u, "创建文件"@)
}

/// Whether the request asks for a result to be written to a file.
pub fn requires_write(u: &str) -> (r: bool)
    ensures
        r == requires_write_spec(u@),
{
    contains(u, "写到") || contains(u, "写入") || contains(u, "写回") || contains(u, "保存到") || contains(u, "输出到")
        || contains(u, "创建文件")
}

/// Some trace is a successful call of the tool.
pub open spec fn has_success_of(traces: Seq<ToolExecutionTrace>, tool: Seq<char>) -> bool {
    exists|j: int| 0 <= j < traces.len() && #[trigger] traces[j].tool.tool_name@ == tool && traces[j].result.success
}

fn has_success_trace(traces: &[ToolExecutionTrace], tool: &str) -> (r: bool)
    ensures
        r == has_success_of(traces@, tool@),
{
    let mut i: usize = 0;
    while i < traces.len()
        invariant
            i <= traces@.len(),
            forall|j: int| 0 <= j < i ==> !(#[trigger] traces@[j].tool.tool_name@ == tool@ && traces@[j].result.success),
        decreases traces.len() - i,
    {
        if str_eq(traces[i].tool.tool_name.as_str(), tool) && traces[i].result.success {
            return true;
        }
        i = i + 1;
    }
    false
}

/// Whether some trace wrote a file successfully.
pub fn has_write_trace(traces: &[ToolExecutionTrace]) -> (r: bool)
    ensures
        r == has_success_of(traces@, "workspace_write"@),
{
    has_success_trace(traces, "workspace_write")
}

/// Whether some trace read a file successfully.
pub fn has_read_trace(traces: &[ToolExecutionTrace]) -> (r: bool)
    ensures
        r == has_success_of(traces@, "workspace_read"@),
{
    has_success_trace(traces, "workspace_read")
}

/// The task that must write a file has written it.
pub open spec fn can_finalize_spec(u: Seq<char>, traces: Seq<ToolExecutionTrace>) -> bool {
    requires_write_spec(u) && has_success_of(traces, "workspace_write"@)
}

/// Whether the task that must write a file has written it.
pub fn can_finalize_from_traces(u: &str, traces: &[ToolExecutionTrace]) -> (r: bool)
    ensures
        r == can_finalize_spec(u@, traces@),
{
    requires_write(u) && has_write_trace(traces)
}

/// The text after the first of the markers that occurs, up to its line's end,
/// trimmed and without closing full stops; none when it is empty or no marker occurs.
pub open spec fn tail_after(u: Seq<char>, marker: Seq<char>) -> Seq<char> {
    let tail = u.skip(first_at(u, marker) + marker.len());
    trim_end_char(trim(nth_or_empty(lines_of(tail), 0)), '。')
}

/// The value after the first marker of the list that occurs.
pub open spec fn value_after_markers(u: Seq<char>, markers: Seq<Seq<char>>) -> Option<Seq<char>>
    decreases markers.len(),
{
    if markers.len() == 0 {
        None
    } else if has_sub(u, markers[0]) {
        let v = tail_after(u, markers[0]);
        if v.len() > 0 {
            Some(v)
        } else {
            None
        }
    } else {
        value_after_markers(u, markers.drop_first())
    }
}

fn value_after(u: &str, markers: &[&str]) -> (r: Option<String>)
    ensures
        match r {
            Some(v) => value_after_markers(u@, markers@.map_values(|m: &str| m@)) == Some(v@),
            None => value_after_markers(u@, markers@.map_values(|m: &str| m@)) is None,
        },
{
    let ghost ms = markers@.map_values(|m: &str| m@);
    let mut i: usize = 0;
    assert(ms.skip(0) =~= ms);
    while i < markers.len()
        invariant
            i <= markers@.len(),
            ms == markers@.map_values(|m: &str| m@),
            value_after_markers(u@, ms) == value_after_markers(u@, ms.skip(i as int)),
        decreases markers.len() - i,
    {
        assert(ms.skip(i as int)[0] == markers@[i as int]@);
        match split_once(u, markers[i]) {
            Some((_, tail)) => {
                let all = lines(tail.as_str());
                let first = if all.len() > 0 { all[0].clone() } else { String::new() };
                proof {
                    if all@.len() > 0 {
                        assert(views(all@)[0] == all@[0]@);
                    }
                }
                let t = trimmed(first.as_str());
                let v = trim_end_matches_char(t.as_str(), '。');
                if v.as_str().is_empty() {
                    return None;
                }
                return Some(v);
            },
            None => {},
        }
        assert(ms.skip(i as int).drop_first() =~= ms.skip(i + 1));
        i = i + 1;
    }
    None
}

/// The file a request asks the result to be written to.
pub open spec fn write_target_spec(u: Seq<char>) -> Option<Seq<char>> {
    value_after_markers(u, seq!["写到"@, "写入"@, "保存到"@, "输出到"@])
}

/// The file a request asks the result to be written to (see `write_target_spec`).
pub fn extract_write_target(u: &str) -> (r: Option<String>)
    ensures
        match r {
            Some(v) => write_target_spec(u@) == Some(v@),
            None => write_target_spec(u@) is None,
        },
{
    let markers: [&str; 4] = ["写到", "写入", "保存到", "输出到"];
    assert(markers@.map_values(|m: &str| m@) =~= seq!["写到"@, "写入"@, "保存到"@, "输出到"@]);
    value_after(u, &markers)
}

/// The file a request names as its source material.
pub open spec fn source_path_spec(u: Seq<char>) -> Option<Seq<char>> {
    value_after_markers(u, seq!["学习资料："@, "学习资料:"@, "读取文件："@, "读取文件:"@])
}

/// The file a request names as its source material (see `source_path_spec`).
pub fn extract_source_path(u: &str) -> (r: Option<String>)
    ensures
        match r {
            Some(v) => source_path_spec(u@) == Some(v@),
            None => source_path_spec(u@) is None,
        },
{
    let markers: [&str; 4] = ["学习资料：", "学习资料:", "读取文件：", "读取文件:"];
    assert(markers@.map_values(|m: &str| m@) =~= seq!["学习资料："@, "学习资料:"@, "读取文件："@, "读取文件:"@]);
    value_after(u, &markers)
}

/// Why a task the model called finished is not done, if it is not.
pub open spec fn incomplete_reason_spec(u: Seq<char>, traces: Seq<ToolExecutionTrace>, content: Seq<char>) -> Option<Seq<char>> {
    if can_finalize_spec(u, traces) {
        None
    } else if requires_write_spec(u) && !has_success_of(traces, "workspace_write"@) {
        Some("用户请求要求写回结果，但本次执行还没有成功调用 workspace_write。"@)
    } else if trim(content).len() == 0 && traces.len() > 0 {
        Some("运行时已执行工具，但模型没有给出明确完成信号。"@)
    } else {
        None
    }
}

/// Why a task the model called finished is not done (see `incomplete_reason_spec`).
pub fn incomplete_reason(u: &str, traces: &[ToolExecutionTrace], content: &str) -> (r: Option<String>)
    ensures
        match r {
            Some(s) => incomplete_reason_spec(u@, traces@, content@) == Some(s@),
            None => incomplete_reason_spec(u@, traces@, content@) is None,
        },
{
    if can_finalize_from_traces(u, traces) {
        return None;
    }
    if requires_write(u) && !has_write_trace(traces) {
        return Some(String::from_str("用户请求要求写回结果，但本次执行还没有成功调用 workspace_write。"));
    }
    let t = trimmed(content);
    if t.as_str().is_empty() && traces.len() > 0 {
        return Some(String::from_str("运行时已执行工具，但模型没有给出明确完成信号。"));
    }
    None
}

/// What the model is told to do next.
pub open spec fn next_instruction_spec(u: Seq<char>, traces: Seq<ToolExecutionTrace>) -> Seq<char> {
    if requires_write_spec(u) && !has_success_of(traces, "workspace_write"@) {
        "原始目标仍然是“"@ + u + "”。你已经拿到生成摘要所需的信息，不要再次读取同一份文件，也不要继续列目录；下一步必须调用 workspace_write，把符合原始结构的中文摘要写到 "@
            + (match write_target_spec(u) {
            Some(t) => t,
            None => "用户指定的目标文件"@,
        }) + "。写入成功后，再输出最终中文结果。"@
    } else {
        "原始目标仍然是“"@ + u + "”。如果还没真正完成，请继续调用必要工具；只有全部完成后才输出最终中文结果。"@
    }
}

/// What the model is told to do next (see `next_instruction_spec`).
pub fn next_step_instruction(u: &str, traces: &[ToolExecutionTrace]) -> (r: String)
    ensures
        r@ == next_instruction_spec(u@, traces@),
{
    let mut out = String::from_str("原始目标仍然是“");
    push_str(&mut out, u);
    if requires_write(u) && !has_write_trace(traces) {
        push_str(&mut out, "”。你已经拿到生成摘要所需的信息，不要再次读取同一份文件，也不要继续列目录；下一步必须调用 workspace_write，把符合原始结构的中文摘要写到 ");
        let target = match extract_write_target(u) {
            Some(t) => t,
            None => String::from_str("用户指定的目标文件"),
        };
        push_str(&mut out, target.as_str());
        push_str(&mut out, "。写入成功后，再输出最终中文结果。");
        return out;
    }
    push_str(&mut out, "”。如果还没真正完成，请继续调用必要工具；只有全部完成后才输出最终中文结果。");
    out
}

/// The follow-up prompt: the base prompt, the last round's results and the
/// instruction for the next step.
pub fn build_followup_prompt(base_prompt: &str, u: &str, traces: &[ToolExecutionTrace], skipped: &[String]) -> (r: String)
    ensures
        r@ == base_prompt@ + "\n\n上一轮工具结果：\n"@ + round_results_spec(traces@, views(skipped@)) + "\n\n继续要求："@
            + next_instruction_spec(u@, traces@),
{
    let mut out = String::from_str(base_prompt);
    push_str(&mut out, "\n\n上一轮工具结果：\n");
    let results = render_round_results(traces, skipped);
    push_str(&mut out, results.as_str());
    push_str(&mut out, "\n\n继续要求：");
    let next = next_step_instruction(u, traces);
    push_str(&mut out, next.as_str());
    out
}

/// The prompt that asks the model for the text to write from the source material.
pub fn build_summary_write_prompt(u: &str, source_content: &str) -> (r: String)
    ensures
        r@ == "请基于下面这份学习资料，直接生成要写入目标文件的最终中文正文。只输出正文，不要解释，不要再调用工具，不要加引号。\n\n原始用户请求："@
            + u@ + "\n\n学习资料全文：\n"@ + source_content@,
{
    let mut out = String::from_str("请基于下面这份学习资料，直接生成要写入目标文件的最终中文正文。只输出正文，不要解释，不要再调用工具，不要加引号。\n\n原始用户请求：");
    push_str(&mut out, u);
    push_str(&mut out, "\n\n学习资料全文：\n");
    push_str(&mut out, source_content);
    out
}

// ---------------------------------------------------------------------------
// Endings of the loop
// ---------------------------------------------------------------------------

/// The execution when the model call failed.
pub open spec fn model_failed_execution(e: ActionExecution, error: Seq<char>) -> bool {
    plain_execution(e, "透传大模型 Agent Resolve"@, "模型调用失败："@ + error, "大模型调用失败："@ + error, false, None,
        "AgentResolve 调用模型失败，直接按错误收口。"@, "bypass"@, CACHE_REASON@)
}

/// The execution when the model call failed (see `model_failed_execution`).
pub fn fail_agent_resolve(error: &str) -> (e: ActionExecution)
    ensures
        model_failed_execution(e, error@),
{
    let mut summary = String::from_str("模型调用失败：");
    push_str(&mut summary, error);
    let mut answer = String::from_str("大模型调用失败：");
    push_str(&mut answer, error);
    ActionExecution::bypass_fail(
        String::from_str("透传大模型 Agent Resolve"),
        summary,
        answer,
        String::from_str("AgentResolve 调用模型失败，直接按错误收口。"),
        CACHE_REASON,
    )
}

/// The execution when the model answered in plain text without tools.
pub fn natural_language_response(content: String) -> (e: ActionExecution)
    ensures
        plain_execution(e, "大模型自然语言回答"@, "模型未下发工具调用，返回文本回答。"@, content@, true, None,
            "模型未选择工具，直接返回生成文本。"@, "bypass"@, CACHE_REASON@),
{
    ActionExecution::bypass_ok(
        String::from_str("大模型自然语言回答"),
        String::from_str("模型未下发工具调用，返回文本回答。"),
        content,
        String::from_str("模型未选择工具，直接返回生成文本。"),
        CACHE_REASON,
    )
}

/// The execution of a task the tools did not finish, for the reason given:
/// the reason, then the round's header and report.
pub open spec fn incomplete_execution(
    e: ActionExecution,
    traces: Seq<ToolExecutionTrace>,
    skipped: Seq<Seq<char>>,
    reason: Seq<char>,
) -> bool {
    plain_execution(e, "大模型工具执行未完成任务"@, reason, reason + "\n\n"@ + round_report_spec(traces, skipped).0
        + "\n\n"@ + round_report_spec(traces, skipped).1, false, None,
        "模型虽然执行了部分工具，但还没有把原始任务真正做完。"@, "bypass"@, CACHE_REASON@)
}

/// The execution of a task the tools did not finish, for the reason given.
pub fn incomplete_agent_resolve(traces: &[ToolExecutionTrace], skipped: &[String], reason: &str) -> (e: ActionExecution)
    ensures
        incomplete_execution(e, traces@, views(skipped@), reason@),
{
    let (header, detail, _) = render_tool_call_traces(traces, skipped);
    let mut answer = String::from_str(reason);
    push_str(&mut answer, "\n\n");
    push_str(&mut answer, header.as_str());
    push_str(&mut answer, "\n\n");
    push_str(&mut answer, detail.as_str());
    ActionExecution::bypass_fail(
        String::from_str("大模型工具执行未完成任务"),
        String::from_str(reason),
        answer,
        String::from_str("模型虽然执行了部分工具，但还没有把原始任务真正做完。"),
        CACHE_REASON,
    )
}

/// The execution when the model gave its final answer after tool rounds:
/// incomplete when a reason says so, a plain answer without tools, else the
/// answer with the round's header.
pub open spec fn finalized_execution(
    e: ActionExecution,
    u: Seq<char>,
    traces: Seq<ToolExecutionTrace>,
    skipped: Seq<Seq<char>>,
    content: Seq<char>,
) -> bool {
    match incomplete_reason_spec(u, traces, content) {
        Some(reason) => incomplete_execution(e, traces, skipped, reason),
        None => if traces.len() == 0 {
            plain_execution(e, "大模型自然语言回答"@, "模型未下发工具调用，返回文本回答。"@, content, true, None,
                "模型未选择工具，直接返回生成文本。"@, "bypass"@, CACHE_REASON@)
        } else {
            plain_execution(
                e,
                "大模型多轮工具执行并完成任务"@,
                header_spec(traces.len(), failed_count(traces), skipped.len()) + " 最终已形成中文结果。"@,
                trim(content),
                failed_count(traces) == 0 && skipped.len() == 0,
                None,
                "模型通过多轮 tool_calls 推进任务，并在工具执行后形成最终答复。"@ + header_spec(traces.len(),
                    failed_count(traces), skipped.len()),
                "bypass"@,
                CACHE_REASON@,
            )
        },
    }
}

/// The execution when the model gave its final answer (see `finalized_execution`).
pub fn finalize_agent_response(
    request: &RunRequest,
    traces: &[ToolExecutionTrace],
    skipped: &[String],
    content: String,
) -> (e: ActionExecution)
    ensures
        finalized_execution(e, request.user_input@, traces@, views(skipped@), content@),
{
    match incomplete_reason(request.user_input.as_str(), traces, content.as_str()) {
        Some(reason) => { return incomplete_agent_resolve(traces, skipped, reason.as_str()); },
        None => {},
    }
    if traces.len() == 0 {
        return natural_language_response(content);
    }
    let failed = count_failed(traces);
    let success = failed == 0 && skipped.len() == 0;
    let header = tool_call_header(traces.len(), failed, skipped.len());
    let mut result_summary = header.clone();
    push_str(&mut result_summary, " 最终已形成中文结果。");
    let mut reasoning = String::from_str("模型通过多轮 tool_calls 推进任务，并在工具执行后形成最终答复。");
    push_str(&mut reasoning, header.as_str());
    ActionExecution::bypass(
        String::from_str("大模型多轮工具执行并完成任务"),
        result_summary,
        trimmed(content.as_str()),
        success,
        None,
        reasoning,
        CACHE_REASON,
    )
}

/// The execution when the written file is observed: the task closes on it.
pub open spec fn closed_on_write_execution(
    e: ActionExecution,
    u: Seq<char>,
    traces: Seq<ToolExecutionTrace>,
    skipped: Seq<Seq<char>>,
) -> bool {
    plain_execution(
        e,
        "运行时按真实写回结果完成收口"@,
        header_spec(traces.len(), failed_count(traces), skipped.len()) + " 已确认目标文件写回成功。"@,
        "已根据学习资料生成摘要，并写入 "@ + (match write_target_spec(u) {
            Some(t) => t,
            None => Seq::empty(),
        }) + "。"@,
        failed_count(traces) == 0 && skipped.len() == 0,
        None,
        "运行时已观测到目标写入成功，因此按真实完成状态收口。"@,
        "bypass"@,
        CACHE_REASON@,
    )
}

/// The execution when the written file is observed (see `closed_on_write_execution`).
pub fn finalize_from_traces(request: &RunRequest, traces: &[ToolExecutionTrace], skipped: &[String]) -> (e: ActionExecution)
    ensures
        closed_on_write_execution(e, request.user_input@, traces@, views(skipped@)),
{
    let failed = count_failed(traces);
    let success = failed == 0 && skipped.len() == 0;
    let header = tool_call_header(traces.len(), failed, skipped.len());
    let target = match extract_write_target(request.user_input.as_str()) {
        Some(t) => t,
        None => String::new(),
    };
    let mut summary = header;
    push_str(&mut summary, " 已确认目标文件写回成功。");
    let mut answer = String::from_str("已根据学习资料生成摘要，并写入 ");
    push_str(&mut answer, target.as_str());
    push_str(&mut answer, "。");
    ActionExecution::bypass(
        String::from_str("运行时按真实写回结果完成收口"),
        summary,
        answer,
        success,
        None,
        String::from_str("运行时已观测到目标写入成功，因此按真实完成状态收口。"),
        CACHE_REASON,
    )
}

/// A read happened but no write, though the task must write: the host may
/// generate the text and write it itself.
pub open spec fn should_recover_write_spec(u: Seq<char>, traces: Seq<ToolExecutionTrace>) -> bool {
    requires_write_spec(u) && !has_success_of(traces, "workspace_write"@) && has_success_of(traces, "workspace_read"@)
}

/// Whether the host should try to write the required file itself.
pub fn should_recover_required_write(u: &str, traces: &[ToolExecutionTrace]) -> (r: bool)
    ensures
        r == should_recover_write_spec(u@, traces@),
{
    requires_write(u) && !has_write_trace(traces) && has_read_trace(traces)
}

/// The execution after the host wrote the required file itself: success
/// when every trace, the write included, succeeded and nothing was skipped.
pub open spec fn recovered_execution(
    e: ActionExecution,
    traces: Seq<ToolExecutionTrace>,
    skipped: Seq<Seq<char>>,
    write_trace: ToolExecutionTrace,
    target_path: Seq<char>,
) -> bool {
    let all = traces.push(write_trace);
    let success = failed_count(all) == 0 && skipped.len() == 0;
    let header = header_spec(all.len(), failed_count(all), skipped.len());
    plain_execution(
        e,
        "运行时补全摘要写回"@,
        header + " 已补完成摘要写回。"@,
        if success {
            "已根据学习资料生成摘要，并写入 "@ + target_path + "。"@
        } else {
            final_answer_spec(header, detail_spec(all), skipped_block_spec(skipped))
        },
        success,
        None,
        "AgentResolve 已读取资料但未继续写回，运行时按原始目标补全摘要生成与写入。"@,
        "bypass"@,
        CACHE_REASON@,
    )
}

/// The execution after the host wrote the required file itself (see `recovered_execution`).
pub fn recovered_write_response(
    traces: &[ToolExecutionTrace],
    skipped: &[String],
    write_trace: &ToolExecutionTrace,
    target_path: &str,
) -> (e: ActionExecution)
    requires
        traces@.len() < usize::MAX,
    ensures
        recovered_execution(e, traces@, views(skipped@), *write_trace, target_path@),
{
    let ghost all = traces@.push(*write_trace);
    assert(all.drop_last() =~= traces@);
    assert(trace_reports(all) =~= trace_reports(traces@).push(single_trace_spec((traces@.len() + 1) as nat, *write_trace)));
    let before = count_failed(traces);
    let failed = if write_trace.result.success { before } else { before + 1 };
    let total = traces.len() + 1;
    let success = failed == 0 && skipped.len() == 0;
    let header = tool_call_header(total, failed, skipped.len());
    let final_answer = if success {
        let mut a = String::from_str("已根据学习资料生成摘要，并写入 ");
        push_str(&mut a, target_path);
        push_str(&mut a, "。");
        a
    } else {
        let last = render_single_trace(total, write_trace);
        let detail = if traces.len() == 0 {
            assert(trace_reports(all) =~= seq![last@]);
            last
        } else {
            let mut d = tool_call_detail(traces);
            push_str(&mut d, "\n\n");
            push_str(&mut d, last.as_str());
            assert(trace_reports(all).drop_last() =~= trace_reports(traces@));
            d
        };
        let block = render_skipped_tool_calls(skipped);
        tool_call_final_answer(header.as_str(), detail.as_str(), block.as_str())
    };
    let mut summary = header;
    push_str(&mut summary, " 已补完成摘要写回。");
    ActionExecution::bypass(
        String::from_str("运行时补全摘要写回"),
        summary,
        final_answer,
        success,
        None,
        String::from_str("AgentResolve 已读取资料但未继续写回，运行时按原始目标补全摘要生成与写入。"),
        CACHE_REASON,
    )
}

/// The execution at the last round: closed on the written file when it is
/// observed, else incomplete for reaching the round limit.
pub open spec fn round_limit_execution(
    e: ActionExecution,
    u: Seq<char>,
    traces: Seq<ToolExecutionTrace>,
    skipped: Seq<Seq<char>>,
) -> bool {
    if can_finalize_spec(u, traces) {
        closed_on_write_execution(e, u, traces, skipped)
    } else {
        incomplete_execution(e, traces, skipped, ROUND_LIMIT_REASON@)
    }
}

/// Why the loop ends at the round limit without a final answer.
pub const ROUND_LIMIT_REASON: &'static str = "达到最大执行轮次，任务仍未明确完成。";

/// What the loop does after a round of tool calls, when the host did not
/// write the required file itself: close on the written file or as
/// incomplete at the last round, else go on.
pub fn after_tool_round(request: &RunRequest, turn: usize, traces: &[ToolExecutionTrace], skipped: &[String]) -> (r: Option<ActionExecution>)
    ensures
        turn + 1 != MAX_AGENT_TURNS ==> r is None,
        turn + 1 == MAX_AGENT_TURNS ==> (r matches Some(e) && round_limit_execution(e, request.user_input@, traces@,
            views(skipped@))),
{
    if turn != MAX_AGENT_TURNS - 1 {
        return None;
    }
    if can_finalize_from_traces(request.user_input.as_str(), traces) {
        return Some(finalize_from_traces(request, traces, skipped));
    }
    Some(incomplete_agent_resolve(traces, skipped, ROUND_LIMIT_REASON))
}

// ---------------------------------------------------------------------------
// The loop as a state machine: the host calls the model and the tools and
// reports each outcome; the step says what to do next
// ---------------------------------------------------------------------------

/// Where the agent loop stands: the round it is in and what the tools have
/// done so far.
pub struct AgentLoopState {
    pub turn: usize,
    pub traces: Vec<ToolExecutionTrace>,
    pub skipped: Vec<String>,
}

/// What the host reports back to the loop.
pub enum AgentEvent {
    /// The model call failed with this error.
    ModelFailed { error: String },
    /// The model answered without tool calls.
    ModelAnswered { content: String },
    /// The model's tool calls were handled: the traces of those that ran and
    /// the labels of those that could not be decoded.
    ToolsRan { traces: Vec<ToolExecutionTrace>, skipped: Vec<String> },
    /// The host wrote the required file itself; this is the write's trace.
    RequiredWriteDone { target: String, trace: ToolExecutionTrace },
    /// The host could not produce the required file's text.
    RequiredWriteUnavailable,
}

/// What the loop asks the host to do next.
pub enum AgentStep {
    /// Call the model with this prompt.
    AskModel { prompt: String },
    /// Generate the required file's text from the source material and write
    /// it to this target.
    RecoverWrite { target: String },
    /// The loop ends with this execution.
    Finish { execution: ActionExecution },
}

/// The prompt of a follow-up round (see `build_followup_prompt`).
pub open spec fn followup_prompt_spec(
    base_prompt: Seq<char>,
    u: Seq<char>,
    traces: Seq<ToolExecutionTrace>,
    skipped: Seq<Seq<char>>,
) -> Seq<char> {
    base_prompt + "\n\n上一轮工具结果：\n"@ + round_results_spec(traces, skipped) + "\n\n继续要求："@
        + next_instruction_spec(u, traces)
}

/// After a round whose required write was not recovered: at the last round
/// the loop ends (see `round_limit_execution`), else the next round starts
/// with the follow-up prompt.
pub open spec fn continues_after_round(
    u: Seq<char>,
    base_prompt: Seq<char>,
    turn: int,
    traces: Seq<ToolExecutionTrace>,
    skipped: Seq<Seq<char>>,
    next_turn: int,
    a: AgentStep,
) -> bool {
    if turn + 1 == MAX_AGENT_TURNS {
        &&& next_turn == turn
        &&& a matches AgentStep::Finish { execution }
        &&& round_limit_execution(execution, u, traces, skipped)
    } else {
        &&& next_turn == turn + 1
        &&& a matches AgentStep::AskModel { prompt }
        &&& prompt@ == followup_prompt_spec(base_prompt, u, traces, skipped)
    }
}

/// The tool results of the loop are those of `s`.
pub open spec fn same_results(s: AgentLoopState, t: AgentLoopState) -> bool {
    s.traces@ == t.traces@ && s.skipped@ == t.skipped@
}

/// The loop's start: the first round, nothing done, and the model is asked
/// with the base prompt.
pub fn agent_loop_start(base_prompt: &str) -> (r: (AgentLoopState, AgentStep))
    ensures
        r.0.turn == 0,
        r.0.traces@.len() == 0,
        r.0.skipped@.len() == 0,
        r.1 matches AgentStep::AskModel { prompt } && prompt@ == base_prompt@,
{
    (
        AgentLoopState { turn: 0, traces: Vec::new(), skipped: Vec::new() },
        AgentStep::AskModel { prompt: String::from_str(base_prompt) },
    )
}

fn continue_after_round(request: &RunRequest, base_prompt: &str, state: &mut AgentLoopState) -> (a: AgentStep)
    requires
        old(state).turn < MAX_AGENT_TURNS,
    ensures
        same_results(*final(state), *old(state)),
        continues_after_round(request.user_input@, base_prompt@, old(state).turn as int, old(state).traces@, views(
            old(state).skipped@), final(state).turn as int, a),
{
    match after_tool_round(request, state.turn, state.traces.as_slice(), state.skipped.as_slice()) {
        Some(execution) => AgentStep::Finish { execution },
        None => {
            state.turn = state.turn + 1;
            let prompt = build_followup_prompt(base_prompt, request.user_input.as_str(), state.traces.as_slice(),
                state.skipped.as_slice());
            AgentStep::AskModel { prompt }
        },
    }
}

/// One step of the agent loop. A failed model call ends it with the error;
/// an answer without tool calls ends it with the final answer; after the
/// tools of a round ran, their results are added, and when a file must be
/// written but only a read happened, the host is asked to write it itself;
/// otherwise the last round ends the loop and an earlier one starts the next
/// round with the follow-up prompt. The loop never goes past its last round.
pub fn agent_loop_step(request: &RunRequest, base_prompt: &str, state: &mut AgentLoopState, event: AgentEvent) -> (a: AgentStep)
    requires
        old(state).turn < MAX_AGENT_TURNS,
        old(state).traces@.len() < usize::MAX,
    ensures
        final(state).turn < MAX_AGENT_TURNS,
        match event {
            AgentEvent::ModelFailed { error } => {
                &&& same_results(*final(state), *old(state)) && final(state).turn == old(state).turn
                &&& a matches AgentStep::Finish { execution }
                &&& model_failed_execution(execution, error@)
            },
            AgentEvent::ModelAnswered { content } => {
                &&& same_results(*final(state), *old(state)) && final(state).turn == old(state).turn
                &&& a matches AgentStep::Finish { execution }
                &&& finalized_execution(execution, request.user_input@, old(state).traces@, views(old(state).skipped@),
                    content@)
            },
            AgentEvent::ToolsRan { traces, skipped } => {
                let u = request.user_input@;
                let all = old(state).traces@ + traces@;
                let labels = old(state).skipped@ + skipped@;
                &&& final(state).traces@ == all
                &&& final(state).skipped@ == labels
                &&& if should_recover_write_spec(u, all) && write_target_spec(u) is Some {
                    &&& final(state).turn == old(state).turn
                    &&& a matches AgentStep::RecoverWrite { target }
                    &&& target@ == write_target_spec(u)->0
                } else {
                    continues_after_round(u, base_prompt@, old(state).turn as int, all, views(labels),
                        final(state).turn as int, a)
                }
            },
            AgentEvent::RequiredWriteDone { target, trace } => {
                &&& same_results(*final(state), *old(state)) && final(state).turn == old(state).turn
                &&& a matches AgentStep::Finish { execution }
                &&& recovered_execution(execution, old(state).traces@, views(old(state).skipped@), trace, target@)
            },
            AgentEvent::RequiredWriteUnavailable => {
                &&& same_results(*final(state), *old(state))
                &&& continues_after_round(request.user_input@, base_prompt@, old(state).turn as int, old(
                    state).traces@, views(old(state).skipped@), final(state).turn as int, a)
            },
        },
{
    match event {
        AgentEvent::ModelFailed { error } => AgentStep::Finish { execution: fail_agent_resolve(error.as_str()) },
        AgentEvent::ModelAnswered { content } => {
            let execution = finalize_agent_response(request, state.traces.as_slice(), state.skipped.as_slice(), content);
            AgentStep::Finish { execution }
        },
        AgentEvent::ToolsRan { traces, skipped } => {
            let mut round_traces = traces;
            let mut round_skipped = skipped;
            state.traces.append(&mut round_traces);
            state.skipped.append(&mut round_skipped);
            if should_recover_required_write(request.user_input.as_str(), state.traces.as_slice()) {
                match extract_write_target(request.user_input.as_str()) {
                    Some(target) => {
                        return AgentStep::RecoverWrite { target };
                    },
                    None => {},
                }
            }
            continue_after_round(request, base_prompt, state)
        },
        AgentEvent::RequiredWriteDone { target, trace } => {
            let execution = recovered_write_response(state.traces.as_slice(), state.skipped.as_slice(), &trace,
                target.as_str());
            AgentStep::Finish { execution }
        },
        AgentEvent::RequiredWriteUnavailable => continue_after_round(request, base_prompt, state),
    }
}

} // verus!
