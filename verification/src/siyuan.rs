//! The Siyuan notes actions: the hits a note or an index record gives, the
//! three best hits, the exported note and its index record, and the
//! execution records of search, read and export. The host reads the notes
//! folder, scores the texts and writes the export.
use vstd::prelude::*;
use crate::contracts::RunRequest;
use crate::execution::{ActionExecution, plain_execution};
use crate::knowledge::KnowledgeHit;
use crate::knowledge_store::KnowledgeRecord;
use crate::text::{dec, join, join_strings, push_str, str_eq, summarize_text, summary_of, usize_text, views};

verus! {

/// Why Siyuan reads and searches never come from the answer cache.
pub const CACHE_DEPENDS_FS: &'static str = "思源能力依赖实时配置与文件系统状态，不使用回答缓存。";

/// Why Siyuan exports never come from the answer cache.
pub const CACHE_WRITE_REASON: &'static str = "思源写入属于实时副作用动作，不使用回答缓存。";

fn labelled(label: &str, value: &str) -> (r: String)
    ensures
        r@ == label@ + value@,
{
    let mut out = String::from_str(label);
    push_str(&mut out, value);
    out
}

/// The execution of a Siyuan action that lacks its configuration.
pub fn missing_siyuan_action(message: &str) -> (e: ActionExecution)
    ensures
        plain_execution(e, "执行思源能力"@, message@, message@, false, None, "思源能力缺少必要配置，无法进入实际执行。"@,
            "bypass"@, CACHE_DEPENDS_FS@),
{
    ActionExecution::bypass_fail(String::from_str("执行思源能力"), String::from_str(message), String::from_str(message),
        String::from_str("思源能力缺少必要配置，无法进入实际执行。"), CACHE_DEPENDS_FS)
}

/// The execution of an export that failed.
pub fn failed_siyuan_write(message: &str) -> (e: ActionExecution)
    ensures
        plain_execution(e, "导出知识到思源"@, "思源写入失败："@ + message@, "思源写入失败："@ + message@, false, None,
            "思源导出阶段发生系统错误，直接按失败收口。"@, "bypass"@, CACHE_WRITE_REASON@),
{
    ActionExecution::bypass_fail(String::from_str("导出知识到思源"), labelled("思源写入失败：", message),
        labelled("思源写入失败：", message), String::from_str("思源导出阶段发生系统错误，直接按失败收口。"), CACHE_WRITE_REASON)
}

/// One hit as the Siyuan search report lists it, numbered `index`.
pub open spec fn siyuan_hit_text(index: nat, h: KnowledgeHit) -> Seq<char> {
    dec(index) + ". "@ + h.path@ + "\n   "@ + h.snippet@ + "\n   来源类型："@ + h.source_type@ + "\n   命中理由："@ + h.reason@
}

/// The hits numbered from 1.
pub open spec fn siyuan_hits_text(hits: Seq<KnowledgeHit>) -> Seq<char> {
    join(Seq::new(hits.len(), |i: int| siyuan_hit_text((i + 1) as nat, hits[i])), "\n"@)
}

/// The hits as the Siyuan search report lists them (see `siyuan_hits_text`).
pub fn render_siyuan_hits(hits: &[KnowledgeHit]) -> (r: String)
    ensures
        r@ == siyuan_hits_text(hits@),
{
    let ghost all = Seq::new(hits@.len(), |i: int| siyuan_hit_text((i + 1) as nat, hits@[i]));
    let mut parts: Vec<String> = Vec::new();
    let mut i: usize = 0;
    while i < hits.len()
        invariant
            i <= hits@.len(),
            all == Seq::new(hits@.len(), |i: int| siyuan_hit_text((i + 1) as nat, hits@[i])),
            views(parts@) == all.take(i as int),
        decreases hits.len() - i,
    {
        let h = &hits[i];
        let mut line = usize_text(i + 1);
        push_str(&mut line, ". ");
        push_str(&mut line, h.path.as_str());
        push_str(&mut line, "\n   ");
        push_str(&mut line, h.snippet.as_str());
        push_str(&mut line, "\n   来源类型：");
        push_str(&mut line, h.source_type.as_str());
        push_str(&mut line, "\n   命中理由：");
        push_str(&mut line, h.reason.as_str());
        let ghost before = parts@;
        parts.push(line);
        assert(views(parts@) =~= views(before).push(all[i as int]));
        assert(views(parts@) =~= all.take(i + 1));
        i = i + 1;
    }
    assert(all.take(hits@.len() as int) =~= all);
    let r = join_strings(parts.as_slice(), "\n");
    assert(parts@.map_values(|s: String| s@) =~= views(parts@));
    r
}

/// The execution of a Siyuan search with the hits found.
pub fn siyuan_search_execution(query: &str, hits: &[KnowledgeHit]) -> (e: ActionExecution)
    ensures
        hits@.len() == 0 ==> plain_execution(e, "检索思源笔记："@ + query@, "没有命中思源笔记摘要。"@, "当前没有找到与 `"@
            + query@ + "` 相关的思源笔记。"@, true, None, "先查询思源索引与正文，未命中时直接返回空结果说明。"@, "bypass"@,
            CACHE_DEPENDS_FS@),
        hits@.len() > 0 ==> plain_execution(e, "检索思源笔记："@ + query@, "已返回思源笔记摘要。"@, "思源检索结果：\n"@
            + siyuan_hits_text(hits@), true, None, "综合思源索引与正文检索结果返回相关笔记摘要。"@, "bypass"@,
            CACHE_DEPENDS_FS@),
{
    let action = labelled("检索思源笔记：", query);
    if hits.len() == 0 {
        let mut answer = String::from_str("当前没有找到与 `");
        push_str(&mut answer, query);
        push_str(&mut answer, "` 相关的思源笔记。");
        return ActionExecution::bypass_ok(action, String::from_str("没有命中思源笔记摘要。"), answer,
            String::from_str("先查询思源索引与正文，未命中时直接返回空结果说明。"), CACHE_DEPENDS_FS);
    }
    let listed = render_siyuan_hits(hits);
    ActionExecution::bypass_ok(action, String::from_str("已返回思源笔记摘要。"), labelled("思源检索结果：\n", listed.as_str()),
        String::from_str("综合思源索引与正文检索结果返回相关笔记摘要。"), CACHE_DEPENDS_FS)
}

/// The execution of a note read: its summary.
pub fn siyuan_read_ok(target: &str, content: &str) -> (e: ActionExecution)
    ensures
        plain_execution(e, "读取思源正文："@ + target@, "思源正文读取成功，摘要："@ + summary_of(content@), "思源正文读取完成："@
            + target@ + "\n"@ + summary_of(content@), true, None, "直接读取指定思源文档并压缩成可展示摘要。"@, "bypass"@,
            CACHE_DEPENDS_FS@),
{
    let s = summarize_text(content);
    let mut answer = String::from_str("思源正文读取完成：");
    push_str(&mut answer, target);
    push_str(&mut answer, "\n");
    push_str(&mut answer, s.as_str());
    ActionExecution::bypass_ok(labelled("读取思源正文：", target), labelled("思源正文读取成功，摘要：", s.as_str()), answer,
        String::from_str("直接读取指定思源文档并压缩成可展示摘要。"), CACHE_DEPENDS_FS)
}

/// The execution of a note read that failed with `error`.
pub fn siyuan_read_failed(path: &str, error: &str) -> (e: ActionExecution)
    ensures
        plain_execution(e, "读取思源正文："@ + path@, "思源正文读取失败："@ + error@, "思源正文读取失败："@ + error@, false,
            None, "指定思源文档读取失败，按系统错误直接返回。"@, "bypass"@, CACHE_DEPENDS_FS@),
{
    ActionExecution::bypass_fail(labelled("读取思源正文：", path), labelled("思源正文读取失败：", error),
        labelled("思源正文读取失败：", error), String::from_str("指定思源文档读取失败，按系统错误直接返回。"), CACHE_DEPENDS_FS)
}

/// What an export says of the summary write-back.
pub fn sync_hint(sync_enabled: bool) -> (r: &'static str)
    ensures
        r@ == if sync_enabled { "已开启摘要回写。"@ } else { "摘要回写未开启。"@ },
{
    if sync_enabled { "已开启摘要回写。" } else { "摘要回写未开启。" }
}

/// The execution of a completed export.
pub fn siyuan_write_ok(path: &str, hint: &str) -> (e: ActionExecution)
    ensures
        plain_execution(e, "导出知识到思源："@ + path@, "知识已导出到思源目录。"@, "思源导出完成："@ + path@ + "\n"@ + hint@, true,
            None, "将当前输入整理为思源文档并同步写入知识索引。"@, "bypass"@, CACHE_WRITE_REASON@),
{
    let mut answer = String::from_str("思源导出完成：");
    push_str(&mut answer, path);
    push_str(&mut answer, "\n");
    push_str(&mut answer, hint);
    ActionExecution::bypass_ok(labelled("导出知识到思源：", path), String::from_str("知识已导出到思源目录。"), answer,
        String::from_str("将当前输入整理为思源文档并同步写入知识索引。"), CACHE_WRITE_REASON)
}

/// The execution of a Siyuan export: refused while automatic writing is
/// off or no export path is known (`path`), failed when writing the note
/// failed, else completed with the sync hint the export gave back.
pub fn siyuan_write_execution(auto_write_enabled: bool, path: Option<&str>, exported: Result<&str, String>) -> (e: ActionExecution)
    ensures
        !auto_write_enabled ==> plain_execution(e, "执行思源能力"@, "当前未开启思源自动写入。"@, "当前未开启思源自动写入。"@,
            false, None, "思源能力缺少必要配置，无法进入实际执行。"@, "bypass"@, CACHE_DEPENDS_FS@),
        auto_write_enabled && path is None ==> plain_execution(e, "执行思源能力"@, "当前未配置思源导出目录。"@,
            "当前未配置思源导出目录。"@, false, None, "思源能力缺少必要配置，无法进入实际执行。"@, "bypass"@, CACHE_DEPENDS_FS@),
        auto_write_enabled && path is Some && exported is Err ==> plain_execution(e, "导出知识到思源"@,
            "思源写入失败：思源导出失败"@, "思源写入失败：思源导出失败"@, false, None, "思源导出阶段发生系统错误，直接按失败收口。"@,
            "bypass"@, CACHE_WRITE_REASON@),
        auto_write_enabled && path is Some && exported is Ok ==> plain_execution(e, "导出知识到思源："@ + path->0@,
            "知识已导出到思源目录。"@, "思源导出完成："@ + path->0@ + "\n"@ + exported->Ok_0@, true, None,
            "将当前输入整理为思源文档并同步写入知识索引。"@, "bypass"@, CACHE_WRITE_REASON@),
{
    if !auto_write_enabled {
        return missing_siyuan_action("当前未开启思源自动写入。");
    }
    let target = match path {
        Some(p) => p,
        None => { return missing_siyuan_action("当前未配置思源导出目录。"); },
    };
    match exported {
        Ok(hint) => siyuan_write_ok(target, hint),
        Err(_) => {
            let e = failed_siyuan_write("思源导出失败");
            proof {
                reveal_strlit("思源写入失败：");
                reveal_strlit("思源导出失败");
                reveal_strlit("思源写入失败：思源导出失败");
                assert("思源写入失败："@ + "思源导出失败"@ =~= "思源写入失败：思源导出失败"@);
            }
            e
        },
    }
}

/// The text of an exported note: the input as its title, then its summary.
pub fn siyuan_export_content(user_input: &str) -> (r: String)
    ensures
        r@ == "# "@ + user_input@ + "\n\n"@ + summary_of(user_input@),
{
    let mut out = String::from_str("# ");
    push_str(&mut out, user_input);
    push_str(&mut out, "\n\n");
    let s = summarize_text(user_input);
    push_str(&mut out, s.as_str());
    out
}

/// The file name of a new export: the workspace and the run.
pub fn siyuan_export_file_name(request: &RunRequest) -> (r: String)
    ensures
        r@ == request.workspace_ref.workspace_id@ + "-"@ + request.run_id@ + ".md"@,
{
    let mut out = request.workspace_ref.workspace_id.clone();
    push_str(&mut out, "-");
    push_str(&mut out, request.run_id.as_str());
    push_str(&mut out, ".md");
    out
}

/// The index record of an exported note written to `path` at `now`.
pub open spec fn export_record_spec(r: KnowledgeRecord, request: RunRequest, path: Seq<char>, now: Seq<char>) -> bool {
    &&& r.id@ == "siyuan-note-"@ + now
    &&& r.knowledge_type@ == "document_digest"@
    &&& r.title@ == summary_of(request.user_input@)
    &&& r.summary@ == summary_of(request.user_input@)
    &&& r.content@ == "思源导出知识："@ + request.user_input@
    &&& views(r.tags@) == seq!["siyuan"@, request.workspace_ref.workspace_id@]
    &&& r.source@ == path
    &&& r.source_type@ == "siyuan"@
    &&& r.verified
    &&& r.workspace_id@ == request.workspace_ref.workspace_id@
    &&& r.priority == 1
    &&& !r.archived
    &&& r.created_at@ == now
    &&& r.updated_at@ == now
}

/// The index record of an exported note (see `export_record_spec`).
pub fn siyuan_export_record(request: &RunRequest, path: &str, now: &str) -> (r: KnowledgeRecord)
    ensures
        export_record_spec(r, *request, path@, now@),
{
    let mut tags: Vec<String> = Vec::new();
    tags.push(String::from_str("siyuan"));
    tags.push(request.workspace_ref.workspace_id.clone());
    assert(views(tags@) =~= seq!["siyuan"@, request.workspace_ref.workspace_id@]);
    KnowledgeRecord {
        id: labelled("siyuan-note-", now),
        knowledge_type: String::from_str("document_digest"),
        title: summarize_text(request.user_input.as_str()),
        summary: summarize_text(request.user_input.as_str()),
        content: labelled("思源导出知识：", request.user_input.as_str()),
        tags,
        source: String::from_str(path),
        source_type: String::from_str("siyuan"),
        verified: true,
        workspace_id: request.workspace_ref.workspace_id.clone(),
        priority: 1,
        archived: false,
        created_at: String::from_str(now),
        updated_at: String::from_str(now),
    }
}

/// The text of a knowledge record exported as a note: its title, summary
/// and content, separated by blank lines.
pub fn knowledge_note_content(record: &KnowledgeRecord) -> (r: String)
    ensures
        r@ == "# "@ + record.title@ + "\n\n"@ + record.summary@ + "\n\n"@ + record.content@,
{
    let mut out = String::from_str("# ");
    push_str(&mut out, record.title.as_str());
    push_str(&mut out, "\n\n");
    push_str(&mut out, record.summary.as_str());
    push_str(&mut out, "\n\n");
    push_str(&mut out, record.content.as_str());
    out
}

/// The file name of a knowledge record exported as a note: the workspace and the record.
pub fn knowledge_note_file_name(request: &RunRequest, record: &KnowledgeRecord) -> (r: String)
    ensures
        r@ == request.workspace_ref.workspace_id@ + "-"@ + record.id@ + ".md"@,
{
    let mut out = request.workspace_ref.workspace_id.clone();
    push_str(&mut out, "-");
    push_str(&mut out, record.id.as_str());
    push_str(&mut out, ".md");
    out
}

/// The index record of a knowledge record exported to the note at `path`
/// at `now`: the same knowledge, pointing at the note, one step higher in
/// priority, its content summarized.
pub open spec fn note_index_spec(r: KnowledgeRecord, request: RunRequest, k: KnowledgeRecord, path: Seq<char>, now: Seq<char>) -> bool {
    &&& r.id@ == "siyuan-"@ + k.id@
    &&& r.knowledge_type == k.knowledge_type
    &&& r.title == k.title
    &&& r.summary == k.summary
    &&& r.content@ == summary_of(k.content@)
    &&& views(r.tags@) == views(k.tags@)
    &&& r.source@ == path
    &&& r.source_type@ == "siyuan"@
    &&& r.verified == k.verified
    &&& r.workspace_id@ == request.workspace_ref.workspace_id@
    &&& r.priority == k.priority + 1
    &&& !r.archived
    &&& r.created_at == k.created_at
    &&& r.updated_at@ == now
}

/// The index record of a knowledge record exported as a note (see `note_index_spec`).
pub fn note_index_record(request: &RunRequest, k: &KnowledgeRecord, path: &str, now: &str) -> (r: KnowledgeRecord)
    requires
        k.priority < i32::MAX,
    ensures
        note_index_spec(r, *request, *k, path@, now@),
{
    let tags = crate::capabilities::copy_strings(&k.tags);
    assert(views(tags@) =~= views(k.tags@)) by {
        assert(tags@.map_values(|t: String| t@) == k.tags@.map_values(|t: String| t@));
    }
    KnowledgeRecord {
        id: labelled("siyuan-", k.id.as_str()),
        knowledge_type: k.knowledge_type.clone(),
        title: k.title.clone(),
        summary: k.summary.clone(),
        content: summarize_text(k.content.as_str()),
        tags,
        source: String::from_str(path),
        source_type: String::from_str("siyuan"),
        verified: k.verified,
        workspace_id: request.workspace_ref.workspace_id.clone(),
        priority: k.priority + 1,
        archived: false,
        created_at: k.created_at.clone(),
        updated_at: String::from_str(now),
    }
}

/// Whether an index record is a Siyuan note.
pub fn is_siyuan_record(r: &KnowledgeRecord) -> (b: bool)
    ensures
        b == (r.source_type@ == "siyuan"@),
{
    str_eq(r.source_type.as_str(), "siyuan")
}

/// The text an index record is scored on: title, summary and content.
pub fn siyuan_record_haystack(r: &KnowledgeRecord) -> (s: String)
    ensures
        s@ == r.title@ + " "@ + r.summary@ + " "@ + r.content@,
{
    let mut out = r.title.clone();
    push_str(&mut out, " ");
    push_str(&mut out, r.summary.as_str());
    push_str(&mut out, " ");
    push_str(&mut out, r.content.as_str());
    out
}

/// The hit of an index record.
pub fn siyuan_record_hit(r: &KnowledgeRecord) -> (h: KnowledgeHit)
    ensures
        h.path@ == r.source@ && h.snippet@ == r.summary@ && h.source_type@ == "siyuan_index"@ && h.source_label@
            == "用户确认知识"@ && h.knowledge_type@ == r.knowledge_type@ && h.confidence@ == (if r.verified {
            "高（用户沉淀确认）"@
        } else {
            "中（待进一步验证）"@
        }) && h.updated_at@ == r.updated_at@ && h.reason@ == "思源索引命中"@,
{
    KnowledgeHit {
        path: r.source.clone(),
        snippet: r.summary.clone(),
        source_type: String::from_str("siyuan_index"),
        source_label: String::from_str("用户确认知识"),
        knowledge_type: r.knowledge_type.clone(),
        confidence: if r.verified { String::from_str("高（用户沉淀确认）") } else { String::from_str("中（待进一步验证）") },
        updated_at: r.updated_at.clone(),
        reason: String::from_str("思源索引命中"),
    }
}

/// The hit of a note file: its path and a summary of its text.
pub fn siyuan_file_hit(path: &str, content: &str) -> (h: KnowledgeHit)
    ensures
        h.path@ == path@ && h.snippet@ == summary_of(content@) && h.source_type@ == "siyuan_file"@ && h.source_label@
            == "用户确认知识"@ && h.knowledge_type@ == "user_curated"@ && h.confidence@ == "高（用户沉淀确认）"@
            && h.updated_at@.len() == 0 && h.reason@ == "思源正文命中"@,
{
    KnowledgeHit {
        path: String::from_str(path),
        snippet: summarize_text(content),
        source_type: String::from_str("siyuan_file"),
        source_label: String::from_str("用户确认知识"),
        knowledge_type: String::from_str("user_curated"),
        confidence: String::from_str("高（用户沉淀确认）"),
        updated_at: String::new(),
        reason: String::from_str("思源正文命中"),
    }
}

/// No hit has a higher score than an earlier one.
pub open spec fn by_score(s: Seq<(i32, KnowledgeHit)>) -> bool {
    forall|i: int, j: int| 0 <= i < j < s.len() ==> #[trigger] s[i].0 >= #[trigger] s[j].0
}

/// `s` holds the items of `orig`, each once: `idx[i]` is where `s[i]` stood in `orig`.
pub open spec fn is_arrangement(s: Seq<(i32, KnowledgeHit)>, orig: Seq<(i32, KnowledgeHit)>, idx: Seq<int>) -> bool {
    &&& idx.len() == s.len()
    &&& forall|i: int| 0 <= i < s.len() ==> 0 <= #[trigger] idx[i] < orig.len() && s[i] == orig[idx[i]]
    &&& forall|i: int, j: int| 0 <= i < j < s.len() ==> #[trigger] idx[i] != #[trigger] idx[j]
}

/// Hits of equal score keep the order they had.
pub open spec fn ties_in_order(s: Seq<(i32, KnowledgeHit)>, idx: Seq<int>) -> bool {
    forall|i: int, j: int| 0 <= i < j < s.len() && #[trigger] s[i].0 == #[trigger] s[j].0 ==> idx[i] < idx[j]
}

/// The three highest-scored hits, highest first (ties in their order), or
/// all of them when there are fewer.
pub fn top_three(scored: Vec<(i32, KnowledgeHit)>) -> (r: Vec<(i32, KnowledgeHit)>)
    ensures
        r@.len() == (if scored@.len() < 3 { scored@.len() } else { 3 }),
        exists|s: Seq<(i32, KnowledgeHit)>, idx: Seq<int>| by_score(s) && s.len() == scored@.len() && is_arrangement(s,
            scored@, idx) && ties_in_order(s, idx) && s.to_multiset() == scored@.to_multiset() && r@ == s.take(
            r@.len() as int),
{
    let mut out: Vec<(i32, KnowledgeHit)> = Vec::new();
    let mut rest = scored;
    let ghost all = rest@;
    let ghost n = all.len();
    let mut reversed: Vec<(i32, KnowledgeHit)> = Vec::new();
    while rest.len() > 0
        invariant
            reversed@ + rest@.reverse() == all.reverse(),
        decreases rest.len(),
    {
        let ghost before = rest@;
        let x = rest.pop().unwrap();
        assert(before.reverse() =~= seq![x] + rest@.reverse());
        reversed.push(x);
        assert(reversed@ + rest@.reverse() =~= all.reverse());
    }
    assert(reversed@ =~= all.reverse());
    assert(all.skip(0) =~= all);
    let ghost mut idx: Seq<int> = Seq::empty();
    proof {
        broadcast use vstd::seq_lib::group_to_multiset_ensures, vstd::multiset::group_multiset_axioms;
        all.lemma_reverse_to_multiset();
        assert(out@.to_multiset() =~= vstd::multiset::Multiset::empty());
        assert(out@.to_multiset().add(reversed@.to_multiset()) =~= all.to_multiset());
    }
    while reversed.len() > 0
        invariant
            n == all.len(),
            reversed@.len() <= n,
            reversed@ == all.skip(n - reversed@.len()).reverse(),
            by_score(out@),
            out@.to_multiset().add(reversed@.to_multiset()) == all.to_multiset(),
            out@.len() + reversed@.len() == n,
            idx.len() == out@.len(),
            forall|i: int| 0 <= i < out@.len() ==> 0 <= #[trigger] idx[i] < out@.len() && out@[i] == all[idx[i]],
            forall|i: int, j: int| 0 <= i < j < out@.len() ==> #[trigger] idx[i] != #[trigger] idx[j],
            ties_in_order(out@, idx),
        decreases reversed.len(),
    {
        let ghost before = reversed@;
        let ghost k: int = n - before.len();
        let x = reversed.pop().unwrap();
        assert(before =~= reversed@.push(x));
        proof {
            let tail = all.skip(k);
            assert(x == before.last());
            assert(before.last() == tail[0]);
            assert(x == all[k]);
            assert(reversed@ =~= all.skip(k + 1).reverse());
            broadcast use vstd::seq_lib::group_to_multiset_ensures;
            assert(before.to_multiset() =~= reversed@.to_multiset().insert(x));
        }
        let mut p: usize = out.len();
        while p > 0 && x.0 > out[p - 1].0
            invariant
                p <= out@.len(),
                forall|q: int| p <= q < out@.len() ==> x.0 > #[trigger] out@[q].0,
            decreases p,
        {
            p = p - 1;
        }
        let ghost old_out = out@;
        let ghost old_idx = idx;
        out.insert(p, x);
        proof {
            idx = old_idx.take(p as int).push(k) + old_idx.skip(p as int);
            assert(out@ =~= old_out.take(p as int).push(x) + old_out.skip(p as int));
            assert forall|i: int, j: int| 0 <= i < j < out@.len() implies #[trigger] out@[i].0 >= #[trigger] out@[j].0 by {
                if j < p {
                    assert(out@[i] == old_out[i] && out@[j] == old_out[j]);
                } else if j == p {
                    assert(out@[i] == old_out[i]);
                    if p > 0 {
                        assert(x.0 <= old_out[p - 1].0);
                        if i < p - 1 {
                            assert(old_out[i].0 >= old_out[p - 1].0);
                        }
                    }
                } else if i > p {
                    assert(out@[i] == old_out[i - 1] && out@[j] == old_out[j - 1]);
                } else if i == p {
                    assert(out@[j] == old_out[j - 1]);
                } else {
                    assert(out@[i] == old_out[i] && out@[j] == old_out[j - 1]);
                    assert(old_out[i].0 >= old_out[j - 1].0);
                }
            }
            assert forall|i: int| 0 <= i < out@.len() implies 0 <= #[trigger] idx[i] < out@.len() && out@[i] == all[idx[i]] by {
                if i < p {
                    assert(idx[i] == old_idx[i] && out@[i] == old_out[i]);
                } else if i == p {
                    assert(idx[i] == k && out@[i] == x);
                } else {
                    assert(idx[i] == old_idx[i - 1] && out@[i] == old_out[i - 1]);
                }
            }
            assert forall|i: int, j: int| 0 <= i < j < out@.len() implies #[trigger] idx[i] != #[trigger] idx[j] by {
                if j < p {
                    assert(idx[i] == old_idx[i] && idx[j] == old_idx[j]);
                } else if j == p {
                    assert(idx[i] == old_idx[i] && old_idx[i] < k);
                } else if i > p {
                    assert(idx[i] == old_idx[i - 1] && idx[j] == old_idx[j - 1]);
                } else if i == p {
                    assert(idx[j] == old_idx[j - 1] && old_idx[j - 1] < k);
                } else {
                    assert(idx[i] == old_idx[i] && idx[j] == old_idx[j - 1]);
                }
            }
            assert forall|i: int, j: int| 0 <= i < j < out@.len() && #[trigger] out@[i].0 == #[trigger] out@[j].0 implies idx[i]
                < idx[j] by {
                if j < p {
                    assert(idx[i] == old_idx[i] && idx[j] == old_idx[j]);
                    assert(out@[i] == old_out[i] && out@[j] == old_out[j]);
                } else if j == p {
                    assert(idx[i] == old_idx[i] && old_idx[i] < k && idx[j] == k);
                } else if i > p {
                    assert(idx[i] == old_idx[i - 1] && idx[j] == old_idx[j - 1]);
                    assert(out@[i] == old_out[i - 1] && out@[j] == old_out[j - 1]);
                } else if i == p {
                    assert(out@[j] == old_out[j - 1] && x.0 > old_out[j - 1].0);
                } else {
                    assert(idx[i] == old_idx[i] && idx[j] == old_idx[j - 1]);
                    assert(out@[i] == old_out[i] && out@[j] == old_out[j - 1]);
                }
            }
            broadcast use vstd::seq_lib::group_to_multiset_ensures, vstd::multiset::group_multiset_axioms;
            vstd::seq_lib::lemma_multiset_commutative(old_out.take(p as int).push(x), old_out.skip(p as int));
            vstd::seq_lib::lemma_multiset_commutative(old_out.take(p as int), old_out.skip(p as int));
            assert(old_out.take(p as int) + old_out.skip(p as int) =~= old_out);
            assert(out@.to_multiset() =~= old_out.to_multiset().insert(x));
            assert(out@.to_multiset().add(reversed@.to_multiset()) =~= all.to_multiset());
        }
    }
    proof {
        broadcast use vstd::multiset::group_multiset_axioms;
        assert(out@.to_multiset().add(reversed@.to_multiset()) =~= out@.to_multiset());
    }
    let ghost sorted = out@;
    let ghost sidx = idx;
    assert(sorted.take(sorted.len() as int) =~= sorted);
    while out.len() > 3
        invariant
            out@ == sorted.take(out@.len() as int),
            out@.len() <= sorted.len(),
            out@.len() >= (if sorted.len() < 3 { sorted.len() } else { 3 }),
            sorted.len() == all.len(),
        decreases out.len(),
    {
        let ghost before = out@;
        out.pop();
        assert(out@ =~= sorted.take(out@.len() as int));
    }
    assert(by_score(sorted) && sorted.len() == all.len() && is_arrangement(sorted, all, sidx) && ties_in_order(sorted, sidx)
        && sorted.to_multiset() == all.to_multiset() && out@ == sorted.take(out@.len() as int));
    out
}

} // verus!
