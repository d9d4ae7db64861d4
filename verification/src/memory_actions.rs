//! The memory actions of a run: the entry written for a memory write, and
//! the execution records of a write and of a recall. The host stores the
//! entry, searches the memory index and recalls the layered digest.
use vstd::prelude::*;
use crate::contracts::RunRequest;
use crate::execution::{ActionExecution, plain_execution};
use crate::memory::MemoryEntry;
use crate::memory_layer::{digest_layer_phrase, digest_layer_summary, layers_phrase};
use crate::memory_recall::MemoryDigest;
use crate::text::{dec, join, join_strings, push_str, summarize_text, summary_of, usize_text, views};

verus! {

/// Why memory writes never come from the answer cache.
pub const CACHE_WRITE_REASON: &'static str = "记忆写入属于实时副作用动作，不使用回答缓存。";

/// Why memory recalls never come from the answer cache.
pub const CACHE_RECALL_REASON: &'static str = "记忆召回依赖实时存储状态，不使用回答缓存。";

/// The entry a memory write stores, stamped with `now`.
pub open spec fn written_entry(e: MemoryEntry, request: RunRequest, kind: Seq<char>, summary: Seq<char>, content: Seq<char>, now: Seq<char>) -> bool {
    &&& e.id@ == "memory-"@ + now
    &&& e.kind@ == kind
    &&& e.title@ == summary
    &&& e.summary@ == summary
    &&& e.content@ == content
    &&& e.scope@ == request.workspace_ref.name@
    &&& e.workspace_id@ == request.workspace_ref.workspace_id@
    &&& e.session_id@ == request.session_id@
    &&& e.source_run_id@ == request.run_id@
    &&& e.source@ == "run:"@ + request.run_id@
    &&& e.source_type@ == "runtime"@
    &&& e.source_title@ == summary
    &&& e.source_event_type@ == "memory_written"@
    &&& e.source_artifact_path@.len() == 0
    &&& e.governance_version@.len() == 0
    &&& e.governance_reason@.len() == 0
    &&& e.governance_source@.len() == 0
    &&& e.governance_at@.len() == 0
    &&& e.archive_reason@.len() == 0
    &&& e.verified
    &&& e.priority == 0
    &&& !e.archived
    &&& e.archived_at@.len() == 0
    &&& e.created_at@ == now
    &&& e.updated_at@ == now
    &&& e.timestamp@ == now
}

fn labelled(label: &str, value: &str) -> (r: String)
    ensures
        r@ == label@ + value@,
{
    let mut out = String::from_str(label);
    push_str(&mut out, value);
    out
}

/// The entry a memory write stores (see `written_entry`).
pub fn build_memory_entry(request: &RunRequest, kind: &str, summary: &str, content: &str, now: &str) -> (e: MemoryEntry)
    ensures
        written_entry(e, *request, kind@, summary@, content@, now@),
{
    MemoryEntry {
        id: labelled("memory-", now),
        kind: String::from_str(kind),
        title: String::from_str(summary),
        summary: String::from_str(summary),
        content: String::from_str(content),
        scope: request.workspace_ref.name.clone(),
        workspace_id: request.workspace_ref.workspace_id.clone(),
        session_id: request.session_id.clone(),
        source_run_id: request.run_id.clone(),
        source: labelled("run:", request.run_id.as_str()),
        source_type: String::from_str("runtime"),
        source_title: String::from_str(summary),
        source_event_type: String::from_str("memory_written"),
        source_artifact_path: String::new(),
        governance_version: String::new(),
        governance_reason: String::new(),
        governance_source: String::new(),
        governance_at: String::new(),
        archive_reason: String::new(),
        verified: true,
        priority: 0,
        archived: false,
        archived_at: String::new(),
        created_at: String::from_str(now),
        updated_at: String::from_str(now),
        timestamp: String::from_str(now),
    }
}

/// The execution of a completed memory write.
pub fn ok_memory_write(entry: &MemoryEntry) -> (e: ActionExecution)
    ensures
        plain_execution(
            e,
            "写入长期记忆："@ + entry.summary@,
            "已写入 `"@ + entry.kind@ + "` 记忆："@ + entry.summary@,
            "记忆写入完成。\n类型："@ + entry.kind@ + "\n摘要："@ + entry.summary@ + "\n内容摘要："@ + summary_of(entry.content@),
            true,
            Some("已写入 `"@ + entry.kind@ + "` 记忆："@ + entry.summary@),
            "按用户指定内容构造长期记忆记录并写入本地主存储。"@,
            "bypass"@,
            CACHE_WRITE_REASON@,
        ),
{
    let mut result = String::from_str("已写入 `");
    push_str(&mut result, entry.kind.as_str());
    push_str(&mut result, "` 记忆：");
    push_str(&mut result, entry.summary.as_str());
    let mut answer = String::from_str("记忆写入完成。\n类型：");
    push_str(&mut answer, entry.kind.as_str());
    push_str(&mut answer, "\n摘要：");
    push_str(&mut answer, entry.summary.as_str());
    push_str(&mut answer, "\n内容摘要：");
    let s = summarize_text(entry.content.as_str());
    push_str(&mut answer, s.as_str());
    ActionExecution::bypass_ok_with_memory_summary(labelled("写入长期记忆：", entry.summary.as_str()), result, answer,
        String::from_str("按用户指定内容构造长期记忆记录并写入本地主存储。"), CACHE_WRITE_REASON)
}

/// The execution of a memory write the store refused with `error`.
pub fn failed_memory_write(summary: &str, error: &str) -> (e: ActionExecution)
    ensures
        plain_execution(e, "写入长期记忆："@ + summary@, "记忆写入失败："@ + error@, "记忆写入失败："@ + error@, false, None,
            "长期记忆写入失败，按存储错误直接返回。"@, "bypass"@, CACHE_WRITE_REASON@),
{
    ActionExecution::bypass_fail(labelled("写入长期记忆：", summary), labelled("记忆写入失败：", error),
        labelled("记忆写入失败：", error), String::from_str("长期记忆写入失败，按存储错误直接返回。"), CACHE_WRITE_REASON)
}

/// One recalled entry as the answer lists it, numbered `index`.
pub open spec fn entry_text(index: nat, e: MemoryEntry) -> Seq<char> {
    dec(index) + ". ["@ + e.kind@ + "] "@ + e.summary@ + "\n   "@ + summary_of(e.content@)
}

/// The recalled entries, numbered from 1, one per line.
pub open spec fn entries_text(entries: Seq<MemoryEntry>) -> Seq<char> {
    join(Seq::new(entries.len(), |i: int| entry_text((i + 1) as nat, entries[i])), "\n"@)
}

/// The recalled entries as the answer lists them (see `entries_text`).
pub fn render_entries(entries: &[MemoryEntry]) -> (r: String)
    ensures
        r@ == entries_text(entries@),
{
    let ghost all = Seq::new(entries@.len(), |i: int| entry_text((i + 1) as nat, entries@[i]));
    let mut parts: Vec<String> = Vec::new();
    let mut i: usize = 0;
    while i < entries.len()
        invariant
            i <= entries@.len(),
            all == Seq::new(entries@.len(), |i: int| entry_text((i + 1) as nat, entries@[i])),
            views(parts@) == all.take(i as int),
        decreases entries.len() - i,
    {
        let e = &entries[i];
        let mut line = usize_text(i + 1);
        push_str(&mut line, ". [");
        push_str(&mut line, e.kind.as_str());
        push_str(&mut line, "] ");
        push_str(&mut line, e.summary.as_str());
        push_str(&mut line, "\n   ");
        let s = summarize_text(e.content.as_str());
        push_str(&mut line, s.as_str());
        let ghost before = parts@;
        parts.push(line);
        assert(views(parts@) =~= views(before).push(all[i as int]));
        assert(views(parts@) =~= all.take(i + 1));
        i = i + 1;
    }
    assert(all.take(entries@.len() as int) =~= all);
    let r = join_strings(parts.as_slice(), "\n");
    assert(parts@.map_values(|s: String| s@) =~= views(parts@));
    r
}

/// The recall layers of a digest in a phrase.
pub open spec fn phrase_of(d: MemoryDigest) -> Seq<char> {
    layers_phrase(d.has_system_views, d.has_current_objects, d.current_object_count as nat, "，对象 "@, " 条"@)
}

/// The recall layers of a digest as the answer shows them.
pub open spec fn layer_summary_of(d: MemoryDigest) -> Seq<char> {
    layers_phrase(d.has_system_views, d.has_current_objects, d.current_object_count as nat, "（对象 "@, " 条）"@)
}

/// The execution of a recall: the entries found for the query with the
/// layers recalled, or a note that none was found.
pub open spec fn recall_execution_spec(e: ActionExecution, query: Seq<char>, entries: Seq<MemoryEntry>, d: MemoryDigest) -> bool {
    if entries.len() == 0 {
        plain_execution(e, "按需召回记忆："@ + query, "没有找到相关长期记忆。（"@ + phrase_of(d) + "）"@, "当前没有找到与 `"@
            + query + "` 相关的长期记忆。"@, true, None, "先检索长期记忆索引，未命中时直接返回空结果说明；本次召回层为"@
            + phrase_of(d) + "。"@, "bypass"@, CACHE_RECALL_REASON@)
    } else {
        plain_execution(e, "按需召回记忆："@ + query, "已召回 "@ + dec(entries.len()) + " 条相关记忆。（"@ + phrase_of(d) + "）"@,
            "已召回相关长期记忆。\n召回层："@ + layer_summary_of(d) + "\n\n"@ + entries_text(entries), true, None,
            "按查询词检索长期记忆，并返回前几条高相关结果；本次召回层为"@ + phrase_of(d) + "。"@, "bypass"@,
            CACHE_RECALL_REASON@)
    }
}

/// The execution of a recall (see `recall_execution_spec`).
pub fn memory_recall_execution(query: &str, entries: &[MemoryEntry], digest: &MemoryDigest) -> (e: ActionExecution)
    ensures
        recall_execution_spec(e, query@, entries@, *digest),
{
    let phrase = digest_layer_phrase(digest);
    let action = labelled("按需召回记忆：", query);
    if entries.len() == 0 {
        let mut summary = String::from_str("没有找到相关长期记忆。（");
        push_str(&mut summary, phrase.as_str());
        push_str(&mut summary, "）");
        let mut answer = String::from_str("当前没有找到与 `");
        push_str(&mut answer, query);
        push_str(&mut answer, "` 相关的长期记忆。");
        let mut reasoning = String::from_str("先检索长期记忆索引，未命中时直接返回空结果说明；本次召回层为");
        push_str(&mut reasoning, phrase.as_str());
        push_str(&mut reasoning, "。");
        return ActionExecution::bypass_ok(action, summary, answer, reasoning, CACHE_RECALL_REASON);
    }
    let mut summary = String::from_str("已召回 ");
    let n = usize_text(entries.len());
    push_str(&mut summary, n.as_str());
    push_str(&mut summary, " 条相关记忆。（");
    push_str(&mut summary, phrase.as_str());
    push_str(&mut summary, "）");
    let mut answer = String::from_str("已召回相关长期记忆。\n召回层：");
    let layers = digest_layer_summary(digest);
    push_str(&mut answer, layers.as_str());
    push_str(&mut answer, "\n\n");
    let listed = render_entries(entries);
    push_str(&mut answer, listed.as_str());
    let mut reasoning = String::from_str("按查询词检索长期记忆，并返回前几条高相关结果；本次召回层为");
    push_str(&mut reasoning, phrase.as_str());
    push_str(&mut reasoning, "。");
    ActionExecution::bypass_ok(action, summary, answer, reasoning, CACHE_RECALL_REASON)
}

} // verus!
