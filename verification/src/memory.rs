//! Long-term memory entries: their governance fields, which entries are
//! noise for a query or too low in value to keep, how duplicates are
//! dropped, and how scored entries are ordered.
use vstd::prelude::*;
use crate::contracts::RunRequest;
use crate::events::MEMORY_GOVERNANCE_VERSION;
use crate::text::{
    contains, has_prefix, has_sub, lowercase_of, push_str, replace, replace_all, starts_with, str_eq, to_lower, trim,
    trimmed,
};

verus! {

/// One long-term memory entry.
#[derive(Clone, Debug)]
pub struct MemoryEntry {
    pub id: String,
    pub kind: String,
    pub title: String,
    pub summary: String,
    pub content: String,
    pub scope: String,
    pub workspace_id: String,
    pub session_id: String,
    pub source_run_id: String,
    pub source: String,
    pub source_type: String,
    pub source_title: String,
    pub source_event_type: String,
    pub source_artifact_path: String,
    pub governance_version: String,
    pub governance_reason: String,
    pub governance_source: String,
    pub governance_at: String,
    pub archive_reason: String,
    pub verified: bool,
    pub priority: i32,
    pub archived: bool,
    pub archived_at: String,
    pub created_at: String,
    pub updated_at: String,
    pub timestamp: String,
}

/// A copy of a memory entry.
pub fn copy_entry(e: &MemoryEntry) -> (c: MemoryEntry)
    ensures
        c == *e,
{
    MemoryEntry {
        id: e.id.clone(),
        kind: e.kind.clone(),
        title: e.title.clone(),
        summary: e.summary.clone(),
        content: e.content.clone(),
        scope: e.scope.clone(),
        workspace_id: e.workspace_id.clone(),
        session_id: e.session_id.clone(),
        source_run_id: e.source_run_id.clone(),
        source: e.source.clone(),
        source_type: e.source_type.clone(),
        source_title: e.source_title.clone(),
        source_event_type: e.source_event_type.clone(),
        source_artifact_path: e.source_artifact_path.clone(),
        governance_version: e.governance_version.clone(),
        governance_reason: e.governance_reason.clone(),
        governance_source: e.governance_source.clone(),
        governance_at: e.governance_at.clone(),
        archive_reason: e.archive_reason.clone(),
        verified: e.verified,
        priority: e.priority,
        archived: e.archived,
        archived_at: e.archived_at.clone(),
        created_at: e.created_at.clone(),
        updated_at: e.updated_at.clone(),
        timestamp: e.timestamp.clone(),
    }
}

// ---------------------------------------------------------------------------
// Governance fields
// ---------------------------------------------------------------------------

/// The first of the texts that is not blank, trimmed; empty when all are.
pub open spec fn choose_text_spec(values: Seq<Seq<char>>) -> Seq<char>
    decreases values.len(),
{
    if values.len() == 0 {
        Seq::empty()
    } else if trim(values[0]).len() > 0 {
        trim(values[0])
    } else {
        choose_text_spec(values.drop_first())
    }
}

/// The first of the texts that is not blank, trimmed (see `choose_text_spec`).
pub fn choose_text(values: &[&str]) -> (r: String)
    ensures
        r@ == choose_text_spec(values@.map_values(|v: &str| v@)),
{
    let ghost vs = values@.map_values(|v: &str| v@);
    let mut i: usize = 0;
    assert(vs.skip(0) =~= vs);
    while i < values.len()
        invariant
            i <= values@.len(),
            vs == values@.map_values(|v: &str| v@),
            choose_text_spec(vs) == choose_text_spec(vs.skip(i as int)),
        decreases values.len() - i,
    {
        let t = trimmed(values[i]);
        assert(vs.skip(i as int)[0] == values@[i as int]@);
        if !t.as_str().is_empty() {
            return t;
        }
        assert(vs.skip(i as int).drop_first() =~= vs.skip(i + 1));
        i = i + 1;
    }
    String::new()
}

/// Where a memory entry's governance record says it came from.
pub open spec fn governance_source_spec(e: MemoryEntry) -> Seq<char> {
    let t = e.source_type@;
    let ev = e.source_event_type@;
    if t == "seed"@ {
        "seed_baseline"@
    } else if t == "runtime"@ && ev == "memory_written"@ {
        "runtime_manual_write"@
    } else if t == "runtime"@ && ev == "run_failed"@ {
        "runtime_failure_lesson"@
    } else if t == "runtime"@ && ev == "run_finished"@ {
        "runtime_finish_memory"@
    } else if t == "runtime"@ && ev == "verification_completed"@ {
        "runtime_verified_memory"@
    } else if t == "runtime"@ {
        "runtime_memory"@
    } else {
        "memory_append"@
    }
}

/// Why a memory entry's governance record says it was kept.
pub open spec fn governance_reason_spec(e: MemoryEntry) -> Seq<char> {
    let t = e.source_type@;
    let ev = e.source_event_type@;
    if t == "seed"@ {
        "基线记忆已按当前治理版本固化。"@
    } else if t == "runtime"@ && ev == "memory_written"@ {
        "用户显式写入长期记忆。"@
    } else if t == "runtime"@ && ev == "run_failed"@ {
        "失败教训已纳入长期记忆治理。"@
    } else if t == "runtime"@ && ev == "run_finished"@ {
        "任务结果已按长期记忆治理规则沉淀。"@
    } else if t == "runtime"@ && ev == "verification_completed"@ {
        "验证通过后已沉淀长期记忆。"@
    } else {
        "记忆记录已按当前治理版本写入。"@
    }
}

/// Where a memory entry came from (see `governance_source_spec`).
pub fn derived_governance_source(e: &MemoryEntry) -> (r: String)
    ensures
        r@ == governance_source_spec(*e),
{
    let t = e.source_type.as_str();
    let ev = e.source_event_type.as_str();
    if str_eq(t, "seed") {
        String::from_str("seed_baseline")
    } else if str_eq(t, "runtime") && str_eq(ev, "memory_written") {
        String::from_str("runtime_manual_write")
    } else if str_eq(t, "runtime") && str_eq(ev, "run_failed") {
        String::from_str("runtime_failure_lesson")
    } else if str_eq(t, "runtime") && str_eq(ev, "run_finished") {
        String::from_str("runtime_finish_memory")
    } else if str_eq(t, "runtime") && str_eq(ev, "verification_completed") {
        String::from_str("runtime_verified_memory")
    } else if str_eq(t, "runtime") {
        String::from_str("runtime_memory")
    } else {
        String::from_str("memory_append")
    }
}

/// Why a memory entry was kept (see `governance_reason_spec`).
pub fn derived_governance_reason(e: &MemoryEntry) -> (r: String)
    ensures
        r@ == governance_reason_spec(*e),
{
    let t = e.source_type.as_str();
    let ev = e.source_event_type.as_str();
    if str_eq(t, "seed") {
        String::from_str("基线记忆已按当前治理版本固化。")
    } else if str_eq(t, "runtime") && str_eq(ev, "memory_written") {
        String::from_str("用户显式写入长期记忆。")
    } else if str_eq(t, "runtime") && str_eq(ev, "run_failed") {
        String::from_str("失败教训已纳入长期记忆治理。")
    } else if str_eq(t, "runtime") && str_eq(ev, "run_finished") {
        String::from_str("任务结果已按长期记忆治理规则沉淀。")
    } else if str_eq(t, "runtime") && str_eq(ev, "verification_completed") {
        String::from_str("验证通过后已沉淀长期记忆。")
    } else {
        String::from_str("记忆记录已按当前治理版本写入。")
    }
}

/// The archive reason of an entry: none unless archived, else its own or a default.
pub open spec fn archive_reason_spec(e: MemoryEntry) -> Seq<char> {
    if !e.archived {
        Seq::empty()
    } else {
        choose_text_spec(seq![e.archive_reason@, "当前记录已标记为归档。"@])
    }
}

/// The archive reason of an entry (see `archive_reason_spec`).
pub fn normalize_archive_reason(e: &MemoryEntry) -> (r: String)
    ensures
        r@ == archive_reason_spec(*e),
{
    if !e.archived {
        return String::new();
    }
    let values: [&str; 2] = [e.archive_reason.as_str(), "当前记录已标记为归档。"];
    let r = choose_text(&values);
    assert(values@.map_values(|v: &str| v@) =~= seq![e.archive_reason@, "当前记录已标记为归档。"@]);
    r
}

/// The entry with its governance fields filled: the version, source and
/// reason it has, else the derived ones; the time it has, else its update,
/// creation or entry time; and its archive reason normalized.
pub open spec fn normalized_spec(e: MemoryEntry, n: MemoryEntry) -> bool {
    &&& n == (MemoryEntry {
        governance_version: n.governance_version,
        governance_source: n.governance_source,
        governance_reason: n.governance_reason,
        governance_at: n.governance_at,
        archive_reason: n.archive_reason,
        ..e
    })
    &&& n.governance_version@ == choose_text_spec(seq![e.governance_version@, MEMORY_GOVERNANCE_VERSION@])
    &&& n.governance_source@ == choose_text_spec(seq![e.governance_source@, governance_source_spec(e)])
    &&& n.governance_reason@ == choose_text_spec(seq![e.governance_reason@, governance_reason_spec(e)])
    &&& n.governance_at@ == choose_text_spec(seq![e.governance_at@, e.updated_at@, e.created_at@, e.timestamp@])
    &&& n.archive_reason@ == archive_reason_spec(e)
}

/// The entry with its governance fields filled (see `normalized_spec`).
pub fn normalized_memory_entry(entry: &MemoryEntry) -> (n: MemoryEntry)
    ensures
        normalized_spec(*entry, n),
{
    let mut item = copy_entry(entry);
    let source = derived_governance_source(entry);
    let reason = derived_governance_reason(entry);
    let v1: [&str; 2] = [entry.governance_version.as_str(), MEMORY_GOVERNANCE_VERSION];
    item.governance_version = choose_text(&v1);
    assert(v1@.map_values(|v: &str| v@) =~= seq![entry.governance_version@, MEMORY_GOVERNANCE_VERSION@]);
    let v2: [&str; 2] = [entry.governance_source.as_str(), source.as_str()];
    item.governance_source = choose_text(&v2);
    assert(v2@.map_values(|v: &str| v@) =~= seq![entry.governance_source@, governance_source_spec(*entry)]);
    let v3: [&str; 2] = [entry.governance_reason.as_str(), reason.as_str()];
    item.governance_reason = choose_text(&v3);
    assert(v3@.map_values(|v: &str| v@) =~= seq![entry.governance_reason@, governance_reason_spec(*entry)]);
    let v4: [&str; 4] = [
        entry.governance_at.as_str(),
        entry.updated_at.as_str(),
        entry.created_at.as_str(),
        entry.timestamp.as_str(),
    ];
    item.governance_at = choose_text(&v4);
    assert(v4@.map_values(|v: &str| v@) =~= seq![entry.governance_at@, entry.updated_at@, entry.created_at@, entry.timestamp@]);
    item.archive_reason = normalize_archive_reason(entry);
    item
}

// ---------------------------------------------------------------------------
// Noise and low value
// ---------------------------------------------------------------------------

/// The text is a bare file path: it names a drive and holds no full stop,
/// comma or space.
pub open spec fn path_only_spec(value: Seq<char>) -> bool {
    let t = trim(value);
    (has_sub(t, ":\\"@) || has_sub(t, ":/"@)) && !t.contains('。') && !t.contains('，') && !t.contains(' ')
}

fn has_char(s: &str, c: char) -> (r: bool)
    ensures
        r == s@.contains(c),
{
    let v = crate::text::chars_of(s);
    let mut i: usize = 0;
    while i < v.len()
        invariant
            i <= v@.len(),
            v@ == s@,
            forall|k: int| 0 <= k < i ==> v@[k] != c,
        decreases v.len() - i,
    {
        if v[i] == c {
            assert(s@[i as int] == c);
            return true;
        }
        i = i + 1;
    }
    false
}

/// Whether the text is a bare file path (see `path_only_spec`).
pub fn looks_like_path_only(value: &str) -> (r: bool)
    ensures
        r == path_only_spec(value@),
{
    let t = trimmed(value);
    let s = t.as_str();
    (contains(s, ":\\") || contains(s, ":/")) && !has_char(s, '。') && !has_char(s, '，') && !has_char(s, ' ')
}

/// The entry was written from a seed baseline.
pub open spec fn seed_spec(e: MemoryEntry) -> bool {
    has_prefix(e.source_run_id@, "seed:"@)
}

/// Whether the entry was written from a seed baseline.
pub fn is_seed_memory(e: &MemoryEntry) -> (r: bool)
    ensures
        r == seed_spec(*e),
{
    starts_with(e.source_run_id.as_str(), "seed:")
}

/// A runtime echo of a project answer.
pub open spec fn project_answer_memory_spec(e: MemoryEntry) -> bool {
    (e.kind@ == "project_knowledge"@ || e.kind@ == "workspace_summary"@) && e.source_type@ == "runtime"@ && (
    has_sub(e.title@, "项目说明"@) || has_sub(e.summary@, "已基于项目文档片段完成一次项目说明回答"@))
}

/// A runtime lesson that only traces a note tool.
pub open spec fn tool_trace_memory_spec(e: MemoryEntry) -> bool {
    let trace_title = has_sub(e.title@, "导出知识到思源"@) || has_sub(e.title@, "检索思源笔记"@) || has_sub(
        e.title@,
        "读取思源正文"@,
    ) || has_sub(e.title@, "复用已存在思源知识"@);
    let trace_summary = has_sub(e.summary@, "知识已导出到思源目录"@) || has_sub(e.summary@, "已返回思源笔记摘要"@)
        || has_sub(e.summary@, "思源正文读取成功"@) || has_sub(e.summary@, "命中已存在思源导出"@);
    e.kind@ == "lesson_learned"@ && e.source_type@ == "runtime"@ && (trace_title || trace_summary)
}

/// The reply could not be read.
pub open spec fn garbled_spec(c: Seq<char>) -> bool {
    has_sub(c, "显示为乱码"@) || has_sub(c, "无法识别为有效的文字或指令"@) || has_sub(c, "无法准确识别您想要表达的意思"@)
}

/// The reply only says what the agent cannot do.
pub open spec fn capability_fallback_spec(c: Seq<char>) -> bool {
    has_sub(c, "无法打开你的计算机"@) || has_sub(c, "无法控制你的计算机硬件"@) || has_sub(c, "如果你有工作区内的文件管理"@)
}

/// A runtime lesson that only records a fallback reply.
pub open spec fn fallback_memory_spec(e: MemoryEntry) -> bool {
    e.kind@ == "lesson_learned"@ && e.source_type@ == "runtime"@ && (garbled_spec(e.content@) || capability_fallback_spec(
        e.content@,
    ))
}

/// A runtime entry of low value.
pub open spec fn low_value_spec(e: MemoryEntry) -> bool {
    project_answer_memory_spec(e) || tool_trace_memory_spec(e) || fallback_memory_spec(e)
}

/// Whether the entry is a runtime echo of a project answer.
pub fn is_runtime_project_answer_memory(e: &MemoryEntry) -> (r: bool)
    ensures
        r == project_answer_memory_spec(*e),
{
    let project_answer = str_eq(e.kind.as_str(), "project_knowledge") || str_eq(e.kind.as_str(), "workspace_summary");
    let runtime_source = str_eq(e.source_type.as_str(), "runtime");
    let generated = contains(e.title.as_str(), "项目说明") || contains(
        e.summary.as_str(),
        "已基于项目文档片段完成一次项目说明回答",
    );
    project_answer && runtime_source && generated
}

/// Whether the entry is a runtime lesson that only traces a note tool.
pub fn is_runtime_tool_trace_memory(e: &MemoryEntry) -> (r: bool)
    ensures
        r == tool_trace_memory_spec(*e),
{
    let t = e.title.as_str();
    let s = e.summary.as_str();
    let trace_title = contains(t, "导出知识到思源") || contains(t, "检索思源笔记") || contains(t, "读取思源正文")
        || contains(t, "复用已存在思源知识");
    let trace_summary = contains(s, "知识已导出到思源目录") || contains(s, "已返回思源笔记摘要") || contains(
        s,
        "思源正文读取成功",
    ) || contains(s, "命中已存在思源导出");
    str_eq(e.kind.as_str(), "lesson_learned") && str_eq(e.source_type.as_str(), "runtime") && (trace_title
        || trace_summary)
}

/// Whether the reply could not be read.
pub fn is_garbled_reply(content: &str) -> (r: bool)
    ensures
        r == garbled_spec(content@),
{
    contains(content, "显示为乱码") || contains(content, "无法识别为有效的文字或指令") || contains(
        content,
        "无法准确识别您想要表达的意思",
    )
}

/// Whether the reply only says what the agent cannot do.
pub fn is_capability_fallback(content: &str) -> (r: bool)
    ensures
        r == capability_fallback_spec(content@),
{
    contains(content, "无法打开你的计算机") || contains(content, "无法控制你的计算机硬件") || contains(
        content,
        "如果你有工作区内的文件管理",
    )
}

/// Whether the entry is a runtime lesson that only records a fallback reply.
pub fn is_runtime_fallback_memory(e: &MemoryEntry) -> (r: bool)
    ensures
        r == fallback_memory_spec(*e),
{
    str_eq(e.kind.as_str(), "lesson_learned") && str_eq(e.source_type.as_str(), "runtime") && (is_garbled_reply(
        e.content.as_str(),
    ) || is_capability_fallback(e.content.as_str()))
}

/// Whether the entry is a runtime entry of low value.
pub fn is_low_value_runtime_memory(e: &MemoryEntry) -> (r: bool)
    ensures
        r == low_value_spec(*e),
{
    is_runtime_project_answer_memory(e) || is_runtime_tool_trace_memory(e) || is_runtime_fallback_memory(e)
}

/// A low-value runtime entry that is not a seed is not written.
pub open spec fn archive_spec(e: MemoryEntry) -> bool {
    !seed_spec(e) && low_value_spec(e)
}

/// Whether the entry is kept out of memory when written.
pub fn should_archive_memory_entry(e: &MemoryEntry) -> (r: bool)
    ensures
        r == archive_spec(*e),
{
    !is_seed_memory(e) && is_low_value_runtime_memory(e)
}

/// The entry refers to another run's answer.
pub open spec fn recursive_memory_spec(e: MemoryEntry) -> bool {
    has_sub(e.summary@, "文件：run:"@) || has_sub(e.content@, "文件：run:"@)
}

/// The query asks about the project.
pub open spec fn project_query_spec(q: Seq<char>) -> bool {
    has_sub(q, "项目"@) || has_sub(q, "说明"@) || has_sub(q, "做什么"@)
}

/// The entry comes from a test document.
pub open spec fn test_doc_spec(e: MemoryEntry) -> bool {
    has_sub(e.summary@, "docs\\07-test"@) || has_sub(e.summary@, "docs/07-test"@) || has_sub(e.content@, "docs\\07-test"@)
        || has_sub(e.content@, "docs/07-test"@)
}

/// The entry is left out of a search for the query: it refers to another
/// run, is a bare path, is of low value, or is test noise for a project question.
pub open spec fn skip_spec(q: Seq<char>, e: MemoryEntry) -> bool {
    recursive_memory_spec(e) || path_only_spec(e.content@) || path_only_spec(e.summary@) || low_value_spec(e) || (
    project_query_spec(q) && test_doc_spec(e) && !seed_spec(e))
}

/// Whether the entry is left out of a search for the query (see `skip_spec`).
pub fn should_skip_memory_entry(query_text: &str, e: &MemoryEntry) -> (r: bool)
    ensures
        r == skip_spec(query_text@, *e),
{
    let recursive = contains(e.summary.as_str(), "文件：run:") || contains(e.content.as_str(), "文件：run:");
    let path_only = looks_like_path_only(e.content.as_str()) || looks_like_path_only(e.summary.as_str());
    let project_query = contains(query_text, "项目") || contains(query_text, "说明") || contains(query_text, "做什么");
    let test_doc = contains(e.summary.as_str(), "docs\\07-test") || contains(e.summary.as_str(), "docs/07-test")
        || contains(e.content.as_str(), "docs\\07-test") || contains(e.content.as_str(), "docs/07-test");
    recursive || path_only || is_low_value_runtime_memory(e) || (project_query && test_doc && !is_seed_memory(e))
}

// ---------------------------------------------------------------------------
// Priorities
// ---------------------------------------------------------------------------

/// The priority a text earns by the documents it names.
pub open spec fn doc_priority_spec(text: Seq<char>) -> int {
    let v = lowercase_of(replace_all(text, "\\"@, "/"@));
    if has_sub(v, "/readme.md"@) || has_sub(v, "readme.md"@) {
        56
    } else if has_sub(v, "/docs/06-development/"@) {
        42
    } else if has_sub(v, "/docs/02-architecture/"@) || has_sub(v, "/docs/03-runtime/"@) {
        24
    } else if has_sub(v, "/docs/07-test/"@) {
        -72
    } else {
        0
    }
}

/// The priority a text earns by the documents it names.
pub fn doc_path_priority(text: &str) -> (r: i32)
    ensures
        r == doc_priority_spec(text@),
{
    proof { reveal_strlit("\\"); }
    let slashed = replace(text, "\\", "/");
    let lowered = to_lower(slashed.as_str());
    let v = lowered.as_str();
    if contains(v, "/readme.md") || contains(v, "readme.md") {
        return 56;
    }
    if contains(v, "/docs/06-development/") {
        return 42;
    }
    if contains(v, "/docs/02-architecture/") || contains(v, "/docs/03-runtime/") {
        return 24;
    }
    if contains(v, "/docs/07-test/") {
        return -72;
    }
    0
}

/// The priority an entry earns by its source: seeds first, else by the
/// documents its summary and content name.
pub open spec fn source_priority_spec(e: MemoryEntry) -> int {
    if seed_spec(e) {
        140
    } else {
        doc_priority_spec(e.summary@) + doc_priority_spec(e.content@)
    }
}

/// The priority an entry earns by its source (see `source_priority_spec`).
pub fn memory_source_priority(e: &MemoryEntry) -> (r: i32)
    ensures
        r == source_priority_spec(*e),
{
    if is_seed_memory(e) {
        return 140;
    }
    doc_path_priority(e.summary.as_str()) + doc_path_priority(e.content.as_str())
}

/// Half the priority, clamped to [-40, 120] first, rounded toward zero.
pub open spec fn priority_bonus_spec(priority: i32) -> int {
    let c: int = if priority < -40 { -40 } else if priority > 120 { 120 } else { priority as int };
    if c >= 0 {
        c / 2
    } else {
        -((-c) / 2)
    }
}

/// The score bonus of an entry's own priority (see `priority_bonus_spec`).
pub fn memory_priority_bonus(priority: i32) -> (r: i32)
    ensures
        r == priority_bonus_spec(priority),
{
    let c: i32 = if priority < -40 { -40 } else if priority > 120 { 120 } else { priority };
    if c >= 0 {
        c / 2
    } else {
        -((-c) / 2)
    }
}

/// The current version of a memory object ranks before other entries.
pub open spec fn object_rank_spec(e: MemoryEntry) -> int {
    if e.source_type@ == "memory_object_current"@ {
        1
    } else {
        0
    }
}

/// The rank of an entry among entries of the same score.
pub fn memory_object_rank(e: &MemoryEntry) -> (r: i32)
    ensures
        r == object_rank_spec(*e),
{
    if str_eq(e.source_type.as_str(), "memory_object_current") {
        1
    } else {
        0
    }
}

// ---------------------------------------------------------------------------
// Duplicates
// ---------------------------------------------------------------------------

/// The key under which entries count as duplicates: a memory object's
/// address, else the workspace, kind, title and summary.
pub open spec fn dedupe_key_spec(e: MemoryEntry) -> Seq<char> {
    if e.source_type@ == "memory_object_current"@ {
        "object://"@ + e.source@
    } else {
        e.workspace_id@ + "|"@ + e.kind@ + "|"@ + e.title@ + "|"@ + e.summary@
    }
}

/// The key of an entry by its workspace, kind, title and summary.
pub fn memory_key(e: &MemoryEntry) -> (r: String)
    ensures
        r@ == e.workspace_id@ + "|"@ + e.kind@ + "|"@ + e.title@ + "|"@ + e.summary@,
{
    let mut out = e.workspace_id.clone();
    push_str(&mut out, "|");
    push_str(&mut out, e.kind.as_str());
    push_str(&mut out, "|");
    push_str(&mut out, e.title.as_str());
    push_str(&mut out, "|");
    push_str(&mut out, e.summary.as_str());
    out
}

/// The key under which entries count as duplicates (see `dedupe_key_spec`).
pub fn dedupe_memory_key(e: &MemoryEntry) -> (r: String)
    ensures
        r@ == dedupe_key_spec(*e),
{
    if str_eq(e.source_type.as_str(), "memory_object_current") {
        let mut out = String::from_str("object://");
        push_str(&mut out, e.source.as_str());
        return out;
    }
    memory_key(e)
}

/// Some entry of `entries` has the key `k`.
pub open spec fn memory_key_seen(entries: Seq<MemoryEntry>, k: Seq<char>) -> bool {
    exists|j: int| 0 <= j < entries.len() && #[trigger] dedupe_key_spec(entries[j]) == k
}

/// The entries whose key no earlier entry had, in order.
pub open spec fn dedupe_memory_spec(entries: Seq<MemoryEntry>) -> Seq<MemoryEntry>
    decreases entries.len(),
{
    if entries.len() == 0 {
        seq![]
    } else {
        let rest = dedupe_memory_spec(entries.drop_last());
        if memory_key_seen(entries.drop_last(), dedupe_key_spec(entries.last())) {
            rest
        } else {
            rest.push(entries.last())
        }
    }
}

/// The entries whose key no earlier entry had, in order (see `dedupe_memory_spec`).
pub fn dedupe_memory_entries(entries: Vec<MemoryEntry>) -> (r: Vec<MemoryEntry>)
    ensures
        r@ == dedupe_memory_spec(entries@),
{
    let mut keys: Vec<String> = Vec::new();
    let mut out: Vec<MemoryEntry> = Vec::new();
    let mut i: usize = 0;
    while i < entries.len()
        invariant
            i <= entries@.len(),
            keys@.len() == i,
            forall|j: int| 0 <= j < i ==> #[trigger] keys@[j]@ == dedupe_key_spec(entries@[j]),
            out@ == dedupe_memory_spec(entries@.take(i as int)),
        decreases entries.len() - i,
    {
        let key = dedupe_memory_key(&entries[i]);
        let mut seen = false;
        let mut j: usize = 0;
        while j < keys.len()
            invariant
                j <= keys@.len() == i,
                i < entries@.len(),
                key@ == dedupe_key_spec(entries@[i as int]),
                forall|m: int| 0 <= m < i ==> #[trigger] keys@[m]@ == dedupe_key_spec(entries@[m]),
                seen <==> exists|m: int| 0 <= m < j && #[trigger] keys@[m]@ == key@,
            decreases keys.len() - j,
        {
            if str_eq(keys[j].as_str(), key.as_str()) {
                seen = true;
            }
            j = j + 1;
        }
        proof {
            let prefix = entries@.take(i + 1);
            assert(prefix.drop_last() =~= entries@.take(i as int));
            assert(prefix.last() == entries@[i as int]);
            if seen {
                let m = choose|m: int| 0 <= m < j && #[trigger] keys@[m]@ == key@;
                assert(entries@.take(i as int)[m] == entries@[m]);
                assert(memory_key_seen(entries@.take(i as int), dedupe_key_spec(entries@[i as int])));
            } else {
                assert forall|m: int| 0 <= m < i implies #[trigger] dedupe_key_spec(entries@.take(i as int)[m]) != key@ by {
                    assert(entries@.take(i as int)[m] == entries@[m]);
                    assert(keys@[m]@ == dedupe_key_spec(entries@[m]));
                }
            }
        }
        if !seen {
            out.push(copy_entry(&entries[i]));
        }
        keys.push(key);
        i = i + 1;
    }
    assert(entries@.take(entries@.len() as int) =~= entries@);
    out
}

/// No two entries kept by the dedupe share a key.
pub proof fn dedupe_memory_keys_unique_law(entries: Seq<MemoryEntry>)
    ensures
        forall|i: int, j: int|
            0 <= i < j < dedupe_memory_spec(entries).len() ==> dedupe_key_spec(#[trigger] dedupe_memory_spec(entries)[i])
                != dedupe_key_spec(#[trigger] dedupe_memory_spec(entries)[j]),
        forall|i: int| #![trigger dedupe_memory_spec(entries)[i]] 0 <= i < dedupe_memory_spec(entries).len() ==> exists|j: int|
            0 <= j < entries.len() && #[trigger] entries[j] == dedupe_memory_spec(entries)[i] && !memory_key_seen(
                entries.take(j),
                dedupe_key_spec(entries[j]),
            ),
    decreases entries.len(),
{
    if entries.len() > 0 {
        let prev = entries.drop_last();
        dedupe_memory_keys_unique_law(prev);
        let d = dedupe_memory_spec(prev);
        let out = dedupe_memory_spec(entries);
        let k = dedupe_key_spec(entries.last());
        assert forall|i: int| #![trigger out[i]] 0 <= i < d.len() implies exists|j: int|
            0 <= j < entries.len() && #[trigger] entries[j] == out[i] && !memory_key_seen(entries.take(j), dedupe_key_spec(entries[j])) by {
            let j = choose|j: int| 0 <= j < prev.len() && #[trigger] prev[j] == d[i] && !memory_key_seen(prev.take(j), dedupe_key_spec(prev[j]));
            assert(entries[j] == prev[j]);
            assert(entries.take(j) =~= prev.take(j));
        }
        if !memory_key_seen(prev, k) {
            assert(entries.take(entries.len() - 1) =~= prev);
            assert forall|i: int| 0 <= i < d.len() implies dedupe_key_spec(d[i]) != k by {
                let j = choose|j: int| 0 <= j < prev.len() && #[trigger] prev[j] == d[i] && !memory_key_seen(prev.take(j), dedupe_key_spec(prev[j]));
                assert(dedupe_key_spec(prev[j]) != k);
            }
            assert(out[d.len() as int] == entries[entries.len() - 1]);
        }
    }
}

// ---------------------------------------------------------------------------
// Ordering of scored entries
// ---------------------------------------------------------------------------

/// `a` comes strictly before `b` as characters are ordered.
pub open spec fn text_lt(a: Seq<char>, b: Seq<char>) -> bool
    decreases a.len(),
{
    if a.len() == 0 {
        b.len() > 0
    } else if b.len() == 0 {
        false
    } else if a[0] != b[0] {
        a[0] < b[0]
    } else {
        text_lt(a.drop_first(), b.drop_first())
    }
}

/// Whether `a` comes strictly before `b` as characters are ordered
/// (the order of `str` comparison).
pub fn text_less(a: &str, b: &str) -> (r: bool)
    ensures
        r == text_lt(a@, b@),
{
    let av = crate::text::chars_of(a);
    let bv = crate::text::chars_of(b);
    let mut i: usize = 0;
    assert(a@.skip(0) =~= a@);
    assert(b@.skip(0) =~= b@);
    while i < av.len() && i < bv.len() && av[i] == bv[i]
        invariant
            i <= av@.len(),
            i <= bv@.len(),
            av@ == a@,
            bv@ == b@,
            text_lt(a@, b@) == text_lt(a@.skip(i as int), b@.skip(i as int)),
        decreases av.len() - i,
    {
        assert(a@.skip(i as int).drop_first() =~= a@.skip(i + 1));
        assert(b@.skip(i as int).drop_first() =~= b@.skip(i + 1));
        i = i + 1;
    }
    if i == av.len() {
        return i < bv.len();
    }
    if i == bv.len() {
        return false;
    }
    av[i] < bv[i]
}

/// `a` goes before `b`: a higher score, then a higher object rank, then a
/// later timestamp.
pub open spec fn ranks_before(a: (i32, MemoryEntry), b: (i32, MemoryEntry)) -> bool {
    a.0 > b.0 || (a.0 == b.0 && (object_rank_spec(a.1) > object_rank_spec(b.1) || (object_rank_spec(a.1)
        == object_rank_spec(b.1) && text_lt(b.1.timestamp@, a.1.timestamp@))))
}

fn goes_before(a: &(i32, MemoryEntry), b: &(i32, MemoryEntry)) -> (r: bool)
    ensures
        r == ranks_before(*a, *b),
{
    if a.0 != b.0 {
        return a.0 > b.0;
    }
    let ra = memory_object_rank(&a.1);
    let rb = memory_object_rank(&b.1);
    if ra != rb {
        return ra > rb;
    }
    text_less(b.1.timestamp.as_str(), a.1.timestamp.as_str())
}

/// No entry goes before an earlier one.
pub open spec fn ranked(s: Seq<(i32, MemoryEntry)>) -> bool {
    forall|i: int, j: int| 0 <= i < j < s.len() ==> !ranks_before(#[trigger] s[j], #[trigger] s[i])
}

/// The order of texts is transitive.
pub proof fn lemma_text_lt_trans(a: Seq<char>, b: Seq<char>, c: Seq<char>)
    requires
        text_lt(a, b),
        text_lt(b, c),
    ensures
        text_lt(a, c),
    decreases a.len(),
{
    if a.len() > 0 && b.len() > 0 && c.len() > 0 && a[0] == b[0] && b[0] == c[0] {
        lemma_text_lt_trans(a.drop_first(), b.drop_first(), c.drop_first());
    }
}

/// Of two different texts one comes before the other.
pub proof fn lemma_text_lt_total(a: Seq<char>, b: Seq<char>)
    ensures
        text_lt(a, b) || text_lt(b, a) || a == b,
    decreases a.len(),
{
    if a.len() > 0 && b.len() > 0 && a[0] == b[0] {
        lemma_text_lt_total(a.drop_first(), b.drop_first());
        if a.drop_first() == b.drop_first() {
            assert(a =~= seq![a[0]] + a.drop_first());
            assert(b =~= seq![b[0]] + b.drop_first());
        }
    } else if a.len() == 0 && b.len() == 0 {
        assert(a =~= b);
    }
}

proof fn lemma_ranks_trans(a: (i32, MemoryEntry), b: (i32, MemoryEntry), c: (i32, MemoryEntry))
    requires
        !ranks_before(b, a),
        !ranks_before(c, b),
    ensures
        !ranks_before(c, a),
{
    if a.0 == b.0 && b.0 == c.0 && object_rank_spec(a.1) == object_rank_spec(b.1) && object_rank_spec(b.1)
        == object_rank_spec(c.1) {
        lemma_text_lt_total(a.1.timestamp@, b.1.timestamp@);
        lemma_text_lt_total(b.1.timestamp@, c.1.timestamp@);
        if text_lt(a.1.timestamp@, c.1.timestamp@) {
            if text_lt(b.1.timestamp@, a.1.timestamp@) {
                lemma_text_lt_trans(b.1.timestamp@, a.1.timestamp@, c.1.timestamp@);
            }
            if text_lt(c.1.timestamp@, b.1.timestamp@) {
                lemma_text_lt_trans(a.1.timestamp@, c.1.timestamp@, b.1.timestamp@);
            }
        }
    }
}

/// `s` holds the scored entries of `orig`, each once: `idx[i]` is where `s[i]` stood in `orig`.
pub open spec fn is_arrangement(s: Seq<(i32, MemoryEntry)>, orig: Seq<(i32, MemoryEntry)>, idx: Seq<int>) -> bool {
    &&& idx.len() == s.len()
    &&& forall|i: int| 0 <= i < s.len() ==> 0 <= #[trigger] idx[i] < orig.len() && s[i] == orig[idx[i]]
    &&& forall|i: int, j: int| 0 <= i < j < s.len() ==> #[trigger] idx[i] != #[trigger] idx[j]
}

/// Entries that rank alike keep the order they had.
pub open spec fn ties_in_order(s: Seq<(i32, MemoryEntry)>, idx: Seq<int>) -> bool {
    forall|i: int, j: int| 0 <= i < j < s.len() && !ranks_before(#[trigger] s[i], #[trigger] s[j]) && !ranks_before(s[j], s[i])
        ==> idx[i] < idx[j]
}

/// The scored entries ordered by score, then object rank, then timestamp,
/// all descending; entries that rank alike keep their order.
pub fn sort_memory_entries(scored: Vec<(i32, MemoryEntry)>) -> (r: Vec<(i32, MemoryEntry)>)
    ensures
        ranked(r@),
        r@.to_multiset() == scored@.to_multiset(),
        r@.len() == scored@.len(),
        exists|idx: Seq<int>| is_arrangement(r@, scored@, idx) && ties_in_order(r@, idx),
{
    let mut out: Vec<(i32, MemoryEntry)> = Vec::new();
    let mut rest = scored;
    let ghost all = rest@;
    let ghost n = all.len();
    let mut reversed: Vec<(i32, MemoryEntry)> = Vec::new();
    while rest.len() > 0
        invariant
            reversed@ + rest@.reverse() == all.reverse(),
        decreases rest.len(),
    {
        let ghost before = rest@;
        let x = rest.pop().unwrap();
        assert(before.reverse() =~= seq![x] + rest@.reverse());
        reversed.push(x);
        assert(reversed@ + rest@.reverse() =~= all.reverse());
    }
    assert(reversed@ =~= all.reverse());
    assert(all.skip(0) =~= all);
    let ghost mut idx: Seq<int> = Seq::empty();
    proof {
        broadcast use vstd::seq_lib::group_to_multiset_ensures, vstd::multiset::group_multiset_axioms;
        all.lemma_reverse_to_multiset();
        assert(out@.to_multiset() =~= vstd::multiset::Multiset::empty());
        assert(out@.to_multiset().add(reversed@.to_multiset()) =~= all.to_multiset());
    }
    while reversed.len() > 0
        invariant
            n == all.len(),
            reversed@.len() <= n,
            reversed@ == all.skip(n - reversed@.len()).reverse(),
            ranked(out@),
            out@.to_multiset().add(reversed@.to_multiset()) == all.to_multiset(),
            out@.len() + reversed@.len() == n,
            idx.len() == out@.len(),
            forall|i: int| 0 <= i < out@.len() ==> 0 <= #[trigger] idx[i] < out@.len() && out@[i] == all[idx[i]],
            forall|i: int, j: int| 0 <= i < j < out@.len() ==> #[trigger] idx[i] != #[trigger] idx[j],
            ties_in_order(out@, idx),
        decreases reversed.len(),
    {
        let ghost before = reversed@;
        let ghost k: int = n - before.len();
        let x = reversed.pop().unwrap();
        assert(before =~= reversed@.push(x));
        proof {
            let tail = all.skip(k);
            assert(x == before.last());
            assert(before.last() == tail[0]);
            assert(x == all[k]);
            assert(reversed@ =~= all.skip(k + 1).reverse());
            broadcast use vstd::seq_lib::group_to_multiset_ensures;
            assert(before.to_multiset() =~= reversed@.to_multiset().insert(x));
        }
        let mut p: usize = out.len();
        while p > 0 && goes_before(&x, &out[p - 1])
            invariant
                p <= out@.len(),
                forall|q: int| p <= q < out@.len() ==> ranks_before(x, #[trigger] out@[q]),
            decreases p,
        {
            p = p - 1;
        }
        let ghost old_out = out@;
        let ghost old_idx = idx;
        out.insert(p, x);
        proof {
            idx = old_idx.take(p as int).push(k) + old_idx.skip(p as int);
            assert(out@ =~= old_out.take(p as int).push(x) + old_out.skip(p as int));
            assert forall|i: int, j: int| 0 <= i < j < out@.len() implies !ranks_before(#[trigger] out@[j], #[trigger] out@[i]) by {
                if j < p {
                    assert(out@[i] == old_out[i] && out@[j] == old_out[j]);
                } else if j == p {
                    assert(out@[i] == old_out[i]);
                    if p > 0 {
                        assert(!ranks_before(x, old_out[p - 1]));
                        if i < p - 1 {
                            assert(!ranks_before(old_out[p - 1], old_out[i]));
                            lemma_ranks_trans(old_out[i], old_out[p - 1], x);
                        }
                    }
                } else if i > p {
                    assert(out@[i] == old_out[i - 1] && out@[j] == old_out[j - 1]);
                } else if i == p {
                    assert(out@[j] == old_out[j - 1]);
                    assert(ranks_before(x, old_out[j - 1]));
                    lemma_ranks_before_asym(x, old_out[j - 1]);
                } else {
                    assert(out@[i] == old_out[i] && out@[j] == old_out[j - 1]);
                }
            }
            assert forall|i: int| 0 <= i < out@.len() implies 0 <= #[trigger] idx[i] < out@.len() && out@[i] == all[idx[i]] by {
                if i < p {
                    assert(idx[i] == old_idx[i] && out@[i] == old_out[i]);
                } else if i == p {
                    assert(idx[i] == k && out@[i] == x);
                } else {
                    assert(idx[i] == old_idx[i - 1] && out@[i] == old_out[i - 1]);
                }
            }
            assert forall|i: int, j: int| 0 <= i < j < out@.len() implies #[trigger] idx[i] != #[trigger] idx[j] by {
                if j < p {
                    assert(idx[i] == old_idx[i] && idx[j] == old_idx[j]);
                } else if j == p {
                    assert(idx[i] == old_idx[i] && old_idx[i] < k);
                } else if i > p {
                    assert(idx[i] == old_idx[i - 1] && idx[j] == old_idx[j - 1]);
                } else if i == p {
                    assert(idx[j] == old_idx[j - 1] && old_idx[j - 1] < k);
                } else {
                    assert(idx[i] == old_idx[i] && idx[j] == old_idx[j - 1]);
                }
            }
            assert forall|i: int, j: int| 0 <= i < j < out@.len() && !ranks_before(#[trigger] out@[i], #[trigger] out@[j])
                && !ranks_before(out@[j], out@[i]) implies idx[i] < idx[j] by {
                if j < p {
                    assert(idx[i] == old_idx[i] && idx[j] == old_idx[j]);
                    assert(out@[i] == old_out[i] && out@[j] == old_out[j]);
                } else if j == p {
                    assert(idx[i] == old_idx[i] && old_idx[i] < k && idx[j] == k);
                } else if i > p {
                    assert(idx[i] == old_idx[i - 1] && idx[j] == old_idx[j - 1]);
                    assert(out@[i] == old_out[i - 1] && out@[j] == old_out[j - 1]);
                } else if i == p {
                    assert(out@[j] == old_out[j - 1] && ranks_before(x, old_out[j - 1]));
                } else {
                    assert(idx[i] == old_idx[i] && idx[j] == old_idx[j - 1]);
                    assert(out@[i] == old_out[i] && out@[j] == old_out[j - 1]);
                }
            }
            broadcast use vstd::seq_lib::group_to_multiset_ensures, vstd::multiset::group_multiset_axioms;
            vstd::seq_lib::lemma_multiset_commutative(old_out.take(p as int).push(x), old_out.skip(p as int));
            vstd::seq_lib::lemma_multiset_commutative(old_out.take(p as int), old_out.skip(p as int));
            assert(old_out.take(p as int) + old_out.skip(p as int) =~= old_out);
            assert(out@.to_multiset() =~= old_out.to_multiset().insert(x));
            assert(out@.to_multiset().add(reversed@.to_multiset()) =~= all.to_multiset());
        }
    }
    proof {
        broadcast use vstd::multiset::group_multiset_axioms;
        assert(out@.to_multiset().add(reversed@.to_multiset()) =~= out@.to_multiset());
    }
    assert(is_arrangement(out@, all, idx) && ties_in_order(out@, idx));
    out
}

proof fn lemma_ranks_before_asym(a: (i32, MemoryEntry), b: (i32, MemoryEntry))
    requires
        ranks_before(a, b),
    ensures
        !ranks_before(b, a),
{
    if a.0 == b.0 && object_rank_spec(a.1) == object_rank_spec(b.1) {
        if text_lt(a.1.timestamp@, b.1.timestamp@) {
            lemma_text_lt_trans(a.1.timestamp@, b.1.timestamp@, a.1.timestamp@);
            lemma_text_lt_irrefl(a.1.timestamp@);
        }
    }
}

/// No text comes before itself.
pub proof fn lemma_text_lt_irrefl(a: Seq<char>)
    ensures
        !text_lt(a, a),
    decreases a.len(),
{
    if a.len() > 0 {
        lemma_text_lt_irrefl(a.drop_first());
    }
}

// ---------------------------------------------------------------------------
// Seeds
// ---------------------------------------------------------------------------

/// The seed entry with the given id suffix, kind and texts, for the request's workspace.
pub fn build_seed_memory(
    request: &RunRequest,
    id_suffix: &str,
    kind: &str,
    title: &str,
    summary: &str,
    content: &str,
) -> (e: MemoryEntry)
    ensures
        e.id@ == "seed-"@ + id_suffix@,
        e.kind@ == kind@,
        e.title@ == title@,
        e.summary@ == summary@,
        e.content@ == content@,
        e.scope@ == request.workspace_ref.name@,
        e.workspace_id@ == request.workspace_ref.workspace_id@,
        e.session_id@ == "seed"@,
        e.source_run_id@ == "seed:"@ + id_suffix@,
        e.source@ == "docs/README.md"@,
        e.source_type@ == "seed"@,
        e.source_title@ == title@,
        e.source_artifact_path@ == "docs/README.md"@,
        e.governance_version@ == MEMORY_GOVERNANCE_VERSION@,
        e.governance_source@ == "seed_baseline"@,
        e.governance_reason@ == "基线记忆已按当前治理版本固化。"@,
        e.governance_at@ == "9999990000000"@,
        e.verified,
        e.priority == 100,
        !e.archived,
        e.archive_reason@.len() == 0,
        e.created_at@ == "9999990000000"@,
        e.updated_at@ == "9999990000000"@,
        e.timestamp@ == "9999990000000"@,
{
    let mut id = String::from_str("seed-");
    push_str(&mut id, id_suffix);
    let mut run = String::from_str("seed:");
    push_str(&mut run, id_suffix);
    let raw = MemoryEntry {
        id,
        kind: String::from_str(kind),
        title: String::from_str(title),
        summary: String::from_str(summary),
        content: String::from_str(content),
        scope: request.workspace_ref.name.clone(),
        workspace_id: request.workspace_ref.workspace_id.clone(),
        session_id: String::from_str("seed"),
        source_run_id: run,
        source: String::from_str("docs/README.md"),
        source_type: String::from_str("seed"),
        source_title: String::from_str(title),
        source_event_type: String::new(),
        source_artifact_path: String::from_str("docs/README.md"),
        governance_version: String::new(),
        governance_reason: String::new(),
        governance_source: String::new(),
        governance_at: String::new(),
        archive_reason: String::new(),
        verified: true,
        priority: 100,
        archived: false,
        archived_at: String::new(),
        created_at: String::from_str("9999990000000"),
        updated_at: String::from_str("9999990000000"),
        timestamp: String::from_str("9999990000000"),
    };
    proof {
        reveal_strlit("v1");
        reveal_strlit("seed_baseline");
        reveal_strlit("基线记忆已按当前治理版本固化。");
        reveal_strlit("9999990000000");
        reveal_with_fuel(choose_text_spec, 3);
        crate::text::lemma_trim_of_plain("v1"@);
        crate::text::lemma_trim_of_plain("seed_baseline"@);
        crate::text::lemma_trim_of_plain("基线记忆已按当前治理版本固化。"@);
        crate::text::lemma_trim_of_plain("9999990000000"@);
    }
    normalized_memory_entry(&raw)
}

/// The two seed entries every search starts from: the project's main
/// documents and the boundaries of memory.
pub fn seed_memory_entries(request: &RunRequest) -> (r: Vec<MemoryEntry>)
    ensures
        r@.len() == 2,
        r@[0].id@ == "seed-project-entry"@,
        r@[1].id@ == "seed-memory-policy"@,
        r@[0].kind@ == "project_rule"@ && r@[1].kind@ == "project_rule"@,
        r@[0].title@ == "项目主口径与执行入口基线"@,
        r@[1].title@ == "记忆基线与召回边界"@,
{
    let a = build_seed_memory(
        request,
        "project-entry",
        "project_rule",
        "项目主口径与执行入口基线",
        "优先使用 docs/README.md 与 docs/06-development 的当前有效文档理解项目；docs/07-test 只作为验收参考，不作为项目说明主依据。",
        "当前项目是本地智能体。运行时主入口优先参考 docs/README.md、docs/06-development/智能体框架主干开发任务书_V1.md、docs/06-development/本地记忆与知识沉淀需求文档_V1.md、docs/06-development/本地记忆与知识沉淀开发任务书_V1.md。",
    );
    let b = build_seed_memory(
        request,
        "memory-policy",
        "project_rule",
        "记忆基线与召回边界",
        "长期记忆只保留跨任务可复用、已验证、可结构化的结论；README 与开发文档优先，07-test 不应成为长期记忆主基线。",
        "本地记忆与知识沉淀需求文档要求长期记忆服务跨任务复用，只按需召回，不允许把日志、验收记录、一次性过程当成长期记忆主输入。",
    );
    proof {
        reveal_strlit("seed-");
        reveal_strlit("project-entry");
        reveal_strlit("memory-policy");
        reveal_strlit("seed-project-entry");
        reveal_strlit("seed-memory-policy");
        assert("seed-"@ + "project-entry"@ =~= "seed-project-entry"@);
        assert("seed-"@ + "memory-policy"@ =~= "seed-memory-policy"@);
    }
    vec![a, b]
}

/// The fallback of a text: the first of primary and secondary that is not
/// blank, trimmed, else the default.
pub open spec fn fallback_text_spec(primary: Seq<char>, secondary: Seq<char>, default: Seq<char>) -> Seq<char> {
    if trim(primary).len() > 0 {
        trim(primary)
    } else if trim(secondary).len() > 0 {
        trim(secondary)
    } else {
        default
    }
}

/// The fallback of a text (see `fallback_text_spec`).
pub fn fallback_text(primary: &str, secondary: &str, default: &str) -> (r: String)
    ensures
        r@ == fallback_text_spec(primary@, secondary@, default@),
{
    let value = trimmed(primary);
    if !value.as_str().is_empty() {
        return value;
    }
    let value = trimmed(secondary);
    if !value.as_str().is_empty() {
        return value;
    }
    String::from_str(default)
}

/// The fallback of a time (the same rule as `fallback_text`).
pub fn fallback_time(primary: &str, secondary: &str, default: &str) -> (r: String)
    ensures
        r@ == fallback_text_spec(primary@, secondary@, default@),
{
    fallback_text(primary, secondary, default)
}

} // verus!
