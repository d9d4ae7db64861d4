//! Answers that need no model: the capability explanation, and the
//! report of a local knowledge search (the host searches the knowledge base).
use vstd::prelude::*;
use crate::execution::{ActionExecution, plain_execution};
use crate::knowledge::KnowledgeHit;
use crate::text::{dec, is_blank, join, join_strings, push_str, usize_text, views};

verus! {

/// Why the capability explanation never comes from the answer cache.
pub const EXPLAIN_CACHE_REASON: &'static str = "能力说明属于即时生成内容，当前不使用回答缓存。";

/// Why knowledge search results never come from the answer cache.
pub const KNOWLEDGE_CACHE_REASON: &'static str = "知识检索依赖实时知识库状态，不使用回答缓存。";

/// What the runtime can do, in the user's words.
pub const CAPABILITY_ANSWER: &'static str = "你可以把我当成会推进本地项目的工作助手，而不只是聊天窗口。\n\n你可以直接这样说：\n1. 检查当前项目状态，并告诉我下一步该做什么。\n2. 跑测试；如果失败，定位原因并给出最小修复。\n3. 修改一个功能，但先说明影响范围和验证方式。\n4. 准备上线前检查清单，执行后留下证据。\n5. 继续上次任务，接着已完成的 change 往前推进。\n\n我和通用竞品最大的区别：我会围绕你的本地工作区、项目文档、执行记录和验证证据持续推进；涉及文件修改、命令执行或高风险动作时，会尽量给出确认、影响范围和可回退线索。";

/// The execution that explains the runtime's capabilities.
pub fn execute_explain() -> (e: ActionExecution)
    ensures
        plain_execution(e, "返回当前已支持的能力说明。"@, "已通过模型生成当前能力说明。"@, CAPABILITY_ANSWER@, true, None,
            "使用本地静态模板返回当前运行时已支持的能力，避免能力说明依赖外部 provider。"@, "bypass"@, EXPLAIN_CACHE_REASON@),
{
    ActionExecution::bypass_ok(
        String::from_str("返回当前已支持的能力说明。"),
        String::from_str("已通过模型生成当前能力说明。"),
        String::from_str(CAPABILITY_ANSWER),
        String::from_str("使用本地静态模板返回当前运行时已支持的能力，避免能力说明依赖外部 provider。"),
        EXPLAIN_CACHE_REASON,
    )
}

/// A text, or `未提供` when it is blank.
pub open spec fn or_missing(v: Seq<char>) -> Seq<char> {
    if is_blank(v) { "未提供"@ } else { v }
}

/// One knowledge hit as the search report lists it, numbered `index`.
pub open spec fn hit_text(index: nat, h: KnowledgeHit) -> Seq<char> {
    dec(index) + ". "@ + h.path@ + "\n   "@ + h.snippet@ + "\n   来源分类："@ + h.source_label@ + "\n   来源类型："@
        + h.source_type@ + "\n   知识类型："@ + h.knowledge_type@ + "\n   可信度："@ + h.confidence@ + "\n   更新时间："@
        + or_missing(h.updated_at@) + "\n   命中理由："@ + h.reason@
}

/// The hits numbered from 1, one block per hit.
pub open spec fn hits_text(hits: Seq<KnowledgeHit>) -> Seq<char> {
    join(Seq::new(hits.len(), |i: int| hit_text((i + 1) as nat, hits[i])), "\n"@)
}

/// The hits as the search report lists them (see `hits_text`).
pub fn render_hits(hits: &[KnowledgeHit]) -> (r: String)
    ensures
        r@ == hits_text(hits@),
{
    let ghost all = Seq::new(hits@.len(), |i: int| hit_text((i + 1) as nat, hits@[i]));
    let mut parts: Vec<String> = Vec::new();
    let mut i: usize = 0;
    while i < hits.len()
        invariant
            i <= hits@.len(),
            all == Seq::new(hits@.len(), |i: int| hit_text((i + 1) as nat, hits@[i])),
            views(parts@) == all.take(i as int),
        decreases hits.len() - i,
    {
        let h = &hits[i];
        let mut line = usize_text(i + 1);
        push_str(&mut line, ". ");
        push_str(&mut line, h.path.as_str());
        push_str(&mut line, "\n   ");
        push_str(&mut line, h.snippet.as_str());
        push_str(&mut line, "\n   来源分类：");
        push_str(&mut line, h.source_label.as_str());
        push_str(&mut line, "\n   来源类型：");
        push_str(&mut line, h.source_type.as_str());
        push_str(&mut line, "\n   知识类型：");
        push_str(&mut line, h.knowledge_type.as_str());
        push_str(&mut line, "\n   可信度：");
        push_str(&mut line, h.confidence.as_str());
        push_str(&mut line, "\n   更新时间：");
        if crate::text::blank(h.updated_at.as_str()) {
            push_str(&mut line, "未提供");
        } else {
            push_str(&mut line, h.updated_at.as_str());
        }
        push_str(&mut line, "\n   命中理由：");
        push_str(&mut line, h.reason.as_str());
        let ghost before = parts@;
        parts.push(line);
        assert(views(parts@) =~= views(before).push(all[i as int]));
        assert(views(parts@) =~= all.take(i + 1));
        i = i + 1;
    }
    assert(all.take(hits@.len() as int) =~= all);
    let r = join_strings(parts.as_slice(), "\n");
    assert(parts@.map_values(|s: String| s@) =~= views(parts@));
    r
}

/// The execution of a knowledge search with the hits found.
pub open spec fn knowledge_search_spec(e: ActionExecution, query: Seq<char>, hits: Seq<KnowledgeHit>) -> bool {
    if hits.len() == 0 {
        plain_execution(e, "检索本地知识："@ + query, "没有找到相关知识内容。"@, "当前没有在本地知识源中找到与 `"@ + query
            + "` 相关的内容。"@, true, None, "先检索本地知识源，未命中时直接返回空结果说明。"@, "bypass"@,
            KNOWLEDGE_CACHE_REASON@)
    } else {
        plain_execution(e, "检索本地知识："@ + query, "已从本地知识源返回 "@ + dec(hits.len()) + " 条摘要结果。"@,
            "本地知识检索结果：\n"@ + hits_text(hits), true, None, "综合 README、开发文档和知识索引返回高相关知识片段。"@,
            "bypass"@, KNOWLEDGE_CACHE_REASON@)
    }
}

/// The execution of a knowledge search (see `knowledge_search_spec`).
pub fn knowledge_search_execution(query: &str, hits: &[KnowledgeHit]) -> (e: ActionExecution)
    ensures
        knowledge_search_spec(e, query@, hits@),
{
    let mut action = String::from_str("检索本地知识：");
    push_str(&mut action, query);
    if hits.len() == 0 {
        let mut answer = String::from_str("当前没有在本地知识源中找到与 `");
        push_str(&mut answer, query);
        push_str(&mut answer, "` 相关的内容。");
        return ActionExecution::bypass_ok(action, String::from_str("没有找到相关知识内容。"), answer,
            String::from_str("先检索本地知识源，未命中时直接返回空结果说明。"), KNOWLEDGE_CACHE_REASON);
    }
    let mut summary = String::from_str("已从本地知识源返回 ");
    let n = usize_text(hits.len());
    push_str(&mut summary, n.as_str());
    push_str(&mut summary, " 条摘要结果。");
    let mut answer = String::from_str("本地知识检索结果：\n");
    let listed = render_hits(hits);
    push_str(&mut answer, listed.as_str());
    ActionExecution::bypass_ok(action, summary, answer, String::from_str("综合 README、开发文档和知识索引返回高相关知识片段。"),
        KNOWLEDGE_CACHE_REASON)
}

/// The error text of a failed model call: its code and message.
pub fn llm_error_message(code: &str, message: &str) -> (r: String)
    ensures
        r@ == code@ + ": "@ + message@,
{
    let mut out = String::from_str(code);
    push_str(&mut out, ": ");
    push_str(&mut out, message);
    out
}

} // verus!
