//! Answering questions about the project from its documents: which
//! questions ask for the project's status, which status documents are read,
//! the context built from them, the stable answers for known stages, and the
//! execution records of cached, model and recovered answers. The host reads
//! the documents, searches the knowledge base and asks the model.
use vstd::prelude::*;
use crate::answer_cache::{
    AnswerCacheEntry, AnswerCacheProbe, answer_cache_entry, cache_key_spec, cached_answer, cached_answer_reasoning,
    cached_reasoning_spec, has_key, last_with_key, probe_answer_cache_or_bypass, records_answer, HIT_REASON,
};
use crate::answer_sanitize::{is_answer_usable, sanitize_answer, sanitize_spec, usable_spec};
use crate::contracts::RunRequest;
use crate::execution::{ActionExecution, opt_view, plain_execution};
use crate::knowledge::KnowledgeHit;
use crate::memory::{looks_like_path_only, path_only_spec};
use crate::text::{
    chars_of, contains, has_sub, join, join_strings, push_str, str_eq, summarize_text, summary_of, trim, trimmed, views,
};

verus! {

/// The cache scene of project answers.
pub const PROJECT_SCENE: &'static str = "project_answer";

/// The action summary of every project answer.
pub const PROJECT_ACTION: &'static str = "基于本地项目文档生成项目说明。";

/// The context when no document snippet was found.
pub const NO_SNIPPETS: &'static str = "当前没有检索到可用项目文档片段。";

/// The text by which the empty context is recognized.
pub const NO_SNIPPETS_MARKER: &'static str = "当前没有检索到可用项目文档片段";

/// The answer used when the model's answer is not usable.
pub const DEFAULT_PROJECT_ANSWER: &'static str = "当前项目是一个本地智能体系统，围绕运行时、网关和前端工作台组织能力。";

/// Why the cache is bypassed without document snippets.
pub const NO_SNIPPETS_BYPASS: &'static str = "当前没有稳定项目文档片段，直接走恢复或模型路径。";

/// The stable answer while stage H waits at its Gate-H review.
pub const HERMES_STATUS_ANSWER: &'static str = "当前停在阶段 H 的 Gate-H 聚合复核暂停点：Gate-H 仍是执行中、未签收，当前活跃 change 为 `H-gate-h-signoff-20260416`。现在不能默认继续推进，是因为 H-02 仍处于并行观察 / 冻结观察 warning，当前无新的合格受限样本，第二窗口仍是 `aborted_manual_takeover`；H-03 虽已完成 `H03-37`、`H03-38`、`H03-39`，但最强结论只到“建议主控评估是否切主推进”，仍不等于 ready。Gate-H 已完成当前轮次聚合复核判断，但聚合层不能写得比 H-02 / H-03 输入更强，所以当前只能维持 `warning / 执行中 / 未签收 / 不可签收`。后续只有在出现新的 H-02 合格受限样本、H-03 获得超出当前 warning 的更强证据，或主控明确给出新的更强裁决口径时，才值得重新启动下一轮推进。";

/// The stable answer during the loyal-user conversion stage.
pub const LOYAL_STATUS_ANSWER: &'static str = "已完成能力：在线模型对话、文件读写、受控命令执行、缓存、正式记忆查看与删除、会话续推，以及首页继续上次任务和下一步建议都已落到主链路，并已有 `tmp/loyal-user-acceptance/memory-visibility-sample.json`、`tmp/loyal-user-acceptance/memory-delete-sample.json`、`tmp/loyal-user-acceptance/project-continue-sample.json`、`tmp/loyal-user-acceptance/workspace-dashboard-sample.json` 留证。当前阶段：项目已从第二阶段短期可用，推进到忠实用户转化导向收口期；正式验收里工作包 A 已通过，整体结论仍是有条件通过，正在补工作包 D 的项目状态理解增强。待收口项：还需要把项目状态类回答稳定绑定到独立状态样本、验证路径和完成标准，并让“现在最该做什么 / 继续下一步 / 还差什么”更明确指向当前阶段动作。验证路径与完成标准：本轮应补 `tmp/loyal-user-acceptance/project-status-loyal-summary.json` 与 `tmp/loyal-user-acceptance/next-step-sample.json`，并回填 `docs/07-test/忠实用户转化导向验收文档_V1.md` 的工作包 D、构建验证和整体结论；做到回答能明确指出已完成能力、当前阶段、待收口项，并进一步指向样本或完成标准，才算通过。";

/// The stable answer during the short-term usability stage.
pub const PHASE2_STATUS_ANSWER: &'static str = "已完成能力：在线模型对话主链路、工作区内文件读取与写入、受控命令执行、本地缓存最小闭环，以及记忆和知识沉淀继续增强，这些能力都已有真实样本留证。当前阶段：仍处在第二阶段短期可用目标下的主链路收口期，重点继续把项目说明、验证留痕和前端事件日志展示做稳。待收口项：项目状态类回答还需要进一步细化到样本和完成标准，会话续答质量也还依赖压缩摘要厚度。下一步建议：优先围绕忠实用户转化方向补连续性、记忆可见性和续推体验。";

/// The stable answer when no known stage is recognized.
pub const GENERIC_STATUS_ANSWER: &'static str = "当前项目已经具备基础运行能力，正在继续收口项目说明、执行验证和长期沉淀这几条主链路。";

/// The recovery answer when no document snippet is available.
pub const NO_DOCS_RECOVERY: &'static str = "当前缺少可复用的项目文档片段，建议先补充 README 或开发文档后再追问。";

/// The recovery answer for a general project question.
pub const GENERAL_RECOVERY: &'static str = "当前项目是一个围绕运行时、网关和前端工作台组织能力的本地智能体系统，重点在让在线模型接入后的对话、执行和沉淀链路稳定可用。结合现有文档，当前阶段更偏向主链路收口，而不是继续扩展重型未来能力。";

/// The phrases that mark a question about the project's status.
pub open spec fn status_tokens() -> Seq<Seq<char>> {
    seq!["停在什么状态"@, "做到什么程度"@, "进度"@, "当前阶段"@, "实现了什么"@, "完成了吗"@, "当前情况"@, "为什么不能继续"@, "默认推进"@, "为什么停"@, "暂停点"@, "重启"@, "恢复推进"@, "还差什么"@, "继续下一步"@, "现在最该做什么"@, "下一步做什么"@]
}

fn status_token(i: usize) -> (t: &'static str)
    requires
        i < 17,
    ensures
        t@ == status_tokens()[i as int],
{
    match i {
        0 => "停在什么状态",
        1 => "做到什么程度",
        2 => "进度",
        3 => "当前阶段",
        4 => "实现了什么",
        5 => "完成了吗",
        6 => "当前情况",
        7 => "为什么不能继续",
        8 => "默认推进",
        9 => "为什么停",
        10 => "暂停点",
        11 => "重启",
        12 => "恢复推进",
        13 => "还差什么",
        14 => "继续下一步",
        15 => "现在最该做什么",
        _ => "下一步做什么",
    }
}

/// The question asks for the project's status.
pub open spec fn status_request_spec(u: Seq<char>) -> bool {
    exists|i: int| 0 <= i < status_tokens().len() && #[trigger] has_sub(u, status_tokens()[i])
}

/// Whether the question asks for the project's status.
pub fn is_project_status_request(u: &str) -> (r: bool)
    ensures
        r == status_request_spec(u@),
{
    let mut i: usize = 0;
    while i < 17
        invariant
            i <= 17,
            status_tokens().len() == 17,
            forall|j: int| 0 <= j < i ==> !#[trigger] has_sub(u@, status_tokens()[j]),
        decreases 17 - i,
    {
        if contains(u, status_token(i)) {
            return true;
        }
        i = i + 1;
    }
    false
}

/// The query used when the question itself finds no document.
pub open spec fn fallback_query_spec(u: Seq<char>) -> Seq<char> {
    if status_request_spec(u) {
        "阶段 H Gate-H 聚合复核 current-state 当前活跃 change warning 未签收 不可签收 H-02 H-03 暂停点 重启条件"@
    } else {
        "项目 智能体 本地 主干 架构 运行时"@
    }
}

/// The query used when the question itself finds no document.
pub fn project_context_fallback_query(u: &str) -> (r: &'static str)
    ensures
        r@ == fallback_query_spec(u@),
{
    if is_project_status_request(u) {
        "阶段 H Gate-H 聚合复核 current-state 当前活跃 change warning 未签收 不可签收 H-02 H-03 暂停点 重启条件"
    } else {
        "项目 智能体 本地 主干 架构 运行时"
    }
}

/// The status documents read for a status question, below the docs folder,
/// the current stage's first.
pub open spec fn status_doc_paths() -> Seq<Seq<char>> {
    seq!["11-hermes-rebuild/current-state.md"@, "11-hermes-rebuild/changes/H-gate-h-signoff-20260416/status.md"@, "11-hermes-rebuild/changes/H-gate-h-signoff-20260416/review.md"@, "11-hermes-rebuild/changes/INDEX.md"@, "README.md"@, "11-hermes-rebuild/Hermes重构总路线图_完整计划.md"@, "11-hermes-rebuild/stage-plans/阶段计划总表.md"@, "06-development/忠实用户转化导向开发任务书_V1.md"@, "07-test/忠实用户转化导向验收文档_V1.md"@, "06-development/第二阶段需求文档_V1.md"@, "06-development/第二阶段产品定位与开发重点清单_V1.md"@, "06-development/第二阶段短期可用能力开发任务书_V1.md"@, "07-test/第二阶段短期可用能力验收文档_V1.md"@]
}

/// The status documents read for a status question (see `status_doc_paths`).
pub fn project_status_doc_paths() -> (r: Vec<String>)
    ensures
        views(r@) == status_doc_paths(),
{
    let mut r: Vec<String> = Vec::new();
    r.push(String::from_str("11-hermes-rebuild/current-state.md"));
    r.push(String::from_str("11-hermes-rebuild/changes/H-gate-h-signoff-20260416/status.md"));
    r.push(String::from_str("11-hermes-rebuild/changes/H-gate-h-signoff-20260416/review.md"));
    r.push(String::from_str("11-hermes-rebuild/changes/INDEX.md"));
    r.push(String::from_str("README.md"));
    r.push(String::from_str("11-hermes-rebuild/Hermes重构总路线图_完整计划.md"));
    r.push(String::from_str("11-hermes-rebuild/stage-plans/阶段计划总表.md"));
    r.push(String::from_str("06-development/忠实用户转化导向开发任务书_V1.md"));
    r.push(String::from_str("07-test/忠实用户转化导向验收文档_V1.md"));
    r.push(String::from_str("06-development/第二阶段需求文档_V1.md"));
    r.push(String::from_str("06-development/第二阶段产品定位与开发重点清单_V1.md"));
    r.push(String::from_str("06-development/第二阶段短期可用能力开发任务书_V1.md"));
    r.push(String::from_str("07-test/第二阶段短期可用能力验收文档_V1.md"));
    assert(views(r@) =~= status_doc_paths());
    r
}

/// The fixed summary of a known status document, by its file name.
pub open spec fn known_summary_spec(name: Seq<char>) -> Option<Seq<char>> {
    if has_sub(name, "忠实用户转化导向开发任务书"@) {
        Some("当前正式阶段已经切到忠实用户转化导向，顺序按 A、B、C、D、E、F 推进；其中项目状态回答要求稳定输出已完成能力、当前阶段、待收口项，并进一步展开到真实样本、验证路径和完成标准。"@)
    } else if has_sub(name, "忠实用户转化导向验收文档"@) {
        Some("最新正式验收里工作包 A 已通过、整体结论仍为有条件通过；工作包 D 还要求补独立项目状态样本，并在回答中明确做到什么程度、为什么这样判断、下一步做什么。"@)
    } else if has_sub(name, "第二阶段需求文档"@) {
        Some("定位为面向长期学习、长期成长、长期积累、可持续专精的本地个人智能体平台；当前阶段优先收口在线模型可用后的短期可用能力，不扩到多智能体、语音、浏览器全局观察和桌面自动化。"@)
    } else if has_sub(name, "产品定位与开发重点清单"@) {
        Some("当前开发重点已经固定为在线模型主链路、本地缓存与上下文复用、记忆与知识沉淀、skill 接口预留和本地小模型兜底预研；短期目标是把系统做到可对话、可执行、可持续使用。"@)
    } else if has_sub(name, "短期可用能力开发任务书"@) {
        Some("第二阶段短期正式交付范围包括在线模型对话主链路、工作区内文件读取、工作区内文件写入、受控命令执行、任务分析执行验证收口主链路、本地缓存最小闭环，以及记忆与知识沉淀继续增强。"@)
    } else if has_sub(name, "短期可用能力验收文档"@) {
        Some("已完成的真实留证覆盖自然语言对话、缓存命中、文件读取、文件写入、命令执行、能力说明和高风险确认；当前正式结论仍为有条件通过，非阻断问题集中在项目状态类说明还不够细。"@)
    } else {
        None
    }
}

/// The fixed summary of a known status document (see `known_summary_spec`);
/// other documents are summarized from their content by the host.
pub fn project_status_known_summary(name: &str) -> (r: Option<&'static str>)
    ensures
        match r {
            Some(s) => known_summary_spec(name@) == Some(s@),
            None => known_summary_spec(name@) is None,
        },
{
    if contains(name, "忠实用户转化导向开发任务书") {
        return Some("当前正式阶段已经切到忠实用户转化导向，顺序按 A、B、C、D、E、F 推进；其中项目状态回答要求稳定输出已完成能力、当前阶段、待收口项，并进一步展开到真实样本、验证路径和完成标准。");
    }
    if contains(name, "忠实用户转化导向验收文档") {
        return Some("最新正式验收里工作包 A 已通过、整体结论仍为有条件通过；工作包 D 还要求补独立项目状态样本，并在回答中明确做到什么程度、为什么这样判断、下一步做什么。");
    }
    if contains(name, "第二阶段需求文档") {
        return Some("定位为面向长期学习、长期成长、长期积累、可持续专精的本地个人智能体平台；当前阶段优先收口在线模型可用后的短期可用能力，不扩到多智能体、语音、浏览器全局观察和桌面自动化。");
    }
    if contains(name, "产品定位与开发重点清单") {
        return Some("当前开发重点已经固定为在线模型主链路、本地缓存与上下文复用、记忆与知识沉淀、skill 接口预留和本地小模型兜底预研；短期目标是把系统做到可对话、可执行、可持续使用。");
    }
    if contains(name, "短期可用能力开发任务书") {
        return Some("第二阶段短期正式交付范围包括在线模型对话主链路、工作区内文件读取、工作区内文件写入、受控命令执行、任务分析执行验证收口主链路、本地缓存最小闭环，以及记忆与知识沉淀继续增强。");
    }
    if contains(name, "短期可用能力验收文档") {
        return Some("已完成的真实留证覆盖自然语言对话、缓存命中、文件读取、文件写入、命令执行、能力说明和高风险确认；当前正式结论仍为有条件通过，非阻断问题集中在项目状态类说明还不够细。");
    }
    None
}

/// One section of the status context: the document and its summary.
pub fn project_status_section(path: &str, summary: &str) -> (r: String)
    ensures
        r@ == "文件："@ + path@ + "\n摘要："@ + summary@,
{
    let mut out = String::from_str("文件：");
    push_str(&mut out, path);
    push_str(&mut out, "\n摘要：");
    push_str(&mut out, summary);
    out
}

/// One knowledge hit as the context shows it.
pub open spec fn hit_section(h: KnowledgeHit) -> Seq<char> {
    "文件："@ + h.path@ + "\n片段："@ + h.snippet@
}

/// The context of a project answer: the status sections for a status
/// question that found any, else the knowledge hits, else a note that none
/// was found.
pub open spec fn project_context_spec(u: Seq<char>, sections: Seq<Seq<char>>, hits: Seq<KnowledgeHit>) -> Seq<char> {
    if status_request_spec(u) && sections.len() > 0 {
        join(sections, "\n\n"@)
    } else if hits.len() == 0 {
        NO_SNIPPETS@
    } else {
        join(hits.map_values(|h: KnowledgeHit| hit_section(h)), "\n\n"@)
    }
}

/// The context of a project answer (see `project_context_spec`).
pub fn build_project_context(u: &str, status_sections: &[String], hits: &[KnowledgeHit]) -> (r: String)
    ensures
        r@ == project_context_spec(u@, views(status_sections@), hits@),
{
    if is_project_status_request(u) && status_sections.len() > 0 {
        let r = join_strings(status_sections, "\n\n");
        assert(status_sections@.map_values(|s: String| s@) =~= views(status_sections@));
        return r;
    }
    if hits.len() == 0 {
        return String::from_str(NO_SNIPPETS);
    }
    let mut parts: Vec<String> = Vec::new();
    let mut i: usize = 0;
    while i < hits.len()
        invariant
            i <= hits@.len(),
            views(parts@) == hits@.take(i as int).map_values(|h: KnowledgeHit| hit_section(h)),
        decreases hits.len() - i,
    {
        let mut s = String::from_str("文件：");
        push_str(&mut s, hits[i].path.as_str());
        push_str(&mut s, "\n片段：");
        push_str(&mut s, hits[i].snippet.as_str());
        let ghost before = parts@;
        parts.push(s);
        assert(views(parts@) =~= views(before).push(hit_section(hits@[i as int])));
        assert(views(parts@) =~= hits@.take(i + 1).map_values(|h: KnowledgeHit| hit_section(h)));
        i = i + 1;
    }
    assert(hits@.take(hits@.len() as int) =~= hits@);
    let r = join_strings(parts.as_slice(), "\n\n");
    assert(parts@.map_values(|s: String| s@) =~= views(parts@));
    r
}

/// The result summary of a project answer.
pub open spec fn result_summary_spec(snippets: Seq<char>) -> Seq<char> {
    "已基于项目文档片段完成一次项目说明回答："@ + summary_of(snippets)
}

/// The result summary of a project answer.
pub fn project_result_summary(snippets: &str) -> (r: String)
    ensures
        r@ == result_summary_spec(snippets@),
{
    let mut out = String::from_str("已基于项目文档片段完成一次项目说明回答：");
    let s = summarize_text(snippets);
    push_str(&mut out, s.as_str());
    out
}

/// The context comes from the loyal-user conversion stage.
pub open spec fn loyal_context_spec(s: Seq<char>) -> bool {
    has_sub(s, "忠实用户转化导向"@) || has_sub(s, "工作包 A 已通过"@) || has_sub(s, "工作包 D"@)
        || has_sub(s, "memory-visibility-sample.json"@)
}

/// The context comes from stage H.
pub open spec fn hermes_context_spec(s: Seq<char>) -> bool {
    has_sub(s, "阶段 H"@) || has_sub(s, "Gate-H"@) || has_sub(s, "H-gate-h-signoff-20260416"@) || has_sub(s, "聚合复核"@)
}

/// The context comes from the short-term usability stage.
pub open spec fn phase2_context_spec(s: Seq<char>) -> bool {
    has_sub(s, "在线模型对话主链路"@) || has_sub(s, "工作区内文件读取与写入"@) || has_sub(s, "受控命令执行"@)
        || has_sub(s, "本地缓存最小闭环"@)
}

/// Whether the context comes from the loyal-user conversion stage.
pub fn is_loyal_status_context(s: &str) -> (r: bool)
    ensures
        r == loyal_context_spec(s@),
{
    contains(s, "忠实用户转化导向") || contains(s, "工作包 A 已通过") || contains(s, "工作包 D")
        || contains(s, "memory-visibility-sample.json")
}

/// Whether the context comes from stage H.
pub fn is_hermes_status_context(s: &str) -> (r: bool)
    ensures
        r == hermes_context_spec(s@),
{
    contains(s, "阶段 H") || contains(s, "Gate-H") || contains(s, "H-gate-h-signoff-20260416") || contains(s, "聚合复核")
}

/// Whether the context comes from the short-term usability stage.
pub fn is_phase2_status_context(s: &str) -> (r: bool)
    ensures
        r == phase2_context_spec(s@),
{
    contains(s, "在线模型对话主链路") || contains(s, "工作区内文件读取与写入") || contains(s, "受控命令执行")
        || contains(s, "本地缓存最小闭环")
}

/// The stable status answer for the stage the context comes from; stage H
/// first, then the loyal-user stage, then the short-term stage.
pub open spec fn stable_status_spec(s: Seq<char>) -> Seq<char> {
    if hermes_context_spec(s) {
        HERMES_STATUS_ANSWER@
    } else if loyal_context_spec(s) {
        LOYAL_STATUS_ANSWER@
    } else if phase2_context_spec(s) {
        PHASE2_STATUS_ANSWER@
    } else {
        GENERIC_STATUS_ANSWER@
    }
}

/// The stable status answer (see `stable_status_spec`).
pub fn stable_project_status_answer(snippets: &str) -> (r: &'static str)
    ensures
        r@ == stable_status_spec(snippets@),
{
    if is_hermes_status_context(snippets) {
        return HERMES_STATUS_ANSWER;
    }
    if is_loyal_status_context(snippets) {
        return LOYAL_STATUS_ANSWER;
    }
    if is_phase2_status_context(snippets) {
        return PHASE2_STATUS_ANSWER;
    }
    GENERIC_STATUS_ANSWER
}

/// A character of the CJK unified ideographs block.
pub open spec fn is_cjk(c: char) -> bool {
    '\u{4e00}' <= c && c <= '\u{9fff}'
}

/// The text holds a CJK character.
pub open spec fn has_cjk_spec(s: Seq<char>) -> bool {
    exists|i: int| 0 <= i < s.len() && #[trigger] is_cjk(s[i])
}

/// Whether the text holds a CJK character.
pub fn has_cjk_text(content: &str) -> (r: bool)
    ensures
        r == has_cjk_spec(content@),
{
    let v = chars_of(content);
    let mut i: usize = 0;
    while i < v.len()
        invariant
            i <= v@.len(),
            v@ == content@,
            forall|j: int| 0 <= j < i ==> !#[trigger] is_cjk(v@[j]),
        decreases v.len() - i,
    {
        if '\u{4e00}' <= v[i] && v[i] <= '\u{9fff}' {
            assert(is_cjk(v@[i as int]));
            return true;
        }
        i = i + 1;
    }
    false
}

/// A model answer usable as a project answer: usable, with Chinese text,
/// and more than a bare path.
pub open spec fn project_usable_spec(c: Seq<char>) -> bool {
    usable_spec(c) && has_cjk_spec(c) && !path_only_spec(c)
}

/// Whether a model answer is usable as a project answer.
pub fn is_project_answer_usable(content: &str) -> (r: bool)
    ensures
        r == project_usable_spec(content@),
{
    is_answer_usable(content) && has_cjk_text(content) && !looks_like_path_only(content)
}

/// The cleaned answer when usable as a project answer, else the fallback.
pub open spec fn sanitize_project_spec(content: Seq<char>, fallback: Seq<char>) -> Seq<char> {
    let a = sanitize_spec(content, fallback);
    if project_usable_spec(a) {
        a
    } else {
        fallback
    }
}

/// The cleaned answer (see `sanitize_project_spec`).
pub fn sanitize_project_answer(content: &str, fallback: &str) -> (r: String)
    ensures
        r@ == sanitize_project_spec(content@, fallback@),
{
    let answer = sanitize_answer(content, fallback);
    if is_project_answer_usable(answer.as_str()) {
        answer
    } else {
        String::from_str(fallback)
    }
}

/// The answer shown for a model reply: the stable status answer for a
/// status question, else the cleaned reply.
pub open spec fn finalized_spec(u: Seq<char>, content: Seq<char>, snippets: Seq<char>) -> Seq<char> {
    if status_request_spec(u) {
        stable_status_spec(snippets)
    } else {
        sanitize_project_spec(content, DEFAULT_PROJECT_ANSWER@)
    }
}

/// The answer shown for a model reply (see `finalized_spec`).
pub fn finalized_project_answer(u: &str, content: &str, snippets: &str) -> (r: String)
    ensures
        r@ == finalized_spec(u@, content@, snippets@),
{
    if is_project_status_request(u) {
        return String::from_str(stable_project_status_answer(snippets));
    }
    sanitize_project_answer(content, DEFAULT_PROJECT_ANSWER)
}

/// The reply is unusable, or only the default answer is left.
pub open spec fn should_recover_spec(content: Seq<char>, final_answer: Seq<char>) -> bool {
    !project_usable_spec(content) || trim(final_answer) == DEFAULT_PROJECT_ANSWER@
}

/// Whether the recovery path is to be taken.
pub fn should_recover_project_answer(content: &str, final_answer: &str) -> (r: bool)
    ensures
        r == should_recover_spec(content@, final_answer@),
{
    let t = trimmed(final_answer);
    !is_project_answer_usable(content) || str_eq(t.as_str(), DEFAULT_PROJECT_ANSWER)
}

/// The recovery answer from the documents alone.
pub open spec fn fallback_summary_spec(snippets: Seq<char>) -> Seq<char> {
    if has_sub(snippets, NO_SNIPPETS_MARKER@) {
        NO_DOCS_RECOVERY@
    } else if hermes_context_spec(snippets) || loyal_context_spec(snippets) || phase2_context_spec(snippets) {
        stable_status_spec(snippets)
    } else {
        GENERAL_RECOVERY@
    }
}

/// The recovery answer from the documents alone (see `fallback_summary_spec`).
pub fn fallback_project_summary(snippets: &str) -> (r: String)
    ensures
        r@ == fallback_summary_spec(snippets@),
{
    if contains(snippets, NO_SNIPPETS_MARKER) {
        String::from_str(NO_DOCS_RECOVERY)
    } else if is_hermes_status_context(snippets) || is_loyal_status_context(snippets) || is_phase2_status_context(snippets) {
        String::from_str(stable_project_status_answer(snippets))
    } else {
        String::from_str(GENERAL_RECOVERY)
    }
}

/// The cache summary of a recovered answer.
pub fn recover_cache_summary(summary: &str) -> (r: String)
    ensures
        r@ == "已基于项目文档恢复生成项目说明："@ + summary_of(summary@),
{
    let mut out = String::from_str("已基于项目文档恢复生成项目说明：");
    let s = summarize_text(summary);
    push_str(&mut out, s.as_str());
    out
}

/// The execution of a project answer from the model.
pub fn ok_project_answer(probe: &AnswerCacheProbe, result_summary: String, final_answer: String) -> (e: ActionExecution)
    ensures
        plain_execution(e, PROJECT_ACTION@, result_summary@, final_answer@, true, None,
            "优先依据当前执行入口与项目文档片段组织项目说明。"@ + probe.reason@, probe.status@, probe.reason@),
{
    let mut reasoning = String::from_str("优先依据当前执行入口与项目文档片段组织项目说明。");
    push_str(&mut reasoning, probe.reason.as_str());
    ActionExecution::cached_ok(String::from_str(PROJECT_ACTION), result_summary, final_answer, reasoning,
        probe.status.clone(), probe.reason.clone())
}

/// The answer text of a recovered project answer.
pub open spec fn recovered_answer_spec(summary: Seq<char>) -> Seq<char> {
    "主回答未成功，已切换到项目文档恢复路径。\n"@ + summary
}

/// The execution of a project answer recovered from the documents.
pub fn recovered_project_answer(probe: &AnswerCacheProbe, cause: &str, summary: String) -> (e: ActionExecution)
    ensures
        plain_execution(e, PROJECT_ACTION@, "项目说明主回答失败，已执行单次恢复："@ + cause@, recovered_answer_spec(summary@),
            true, None, "模型回答不可用，已降级为项目文档恢复路径。"@ + probe.reason@, probe.status@, probe.reason@),
{
    let mut result = String::from_str("项目说明主回答失败，已执行单次恢复：");
    push_str(&mut result, cause);
    let mut answer = String::from_str("主回答未成功，已切换到项目文档恢复路径。\n");
    push_str(&mut answer, summary.as_str());
    let mut reasoning = String::from_str("模型回答不可用，已降级为项目文档恢复路径。");
    push_str(&mut reasoning, probe.reason.as_str());
    ActionExecution::cached_ok(String::from_str(PROJECT_ACTION), result, answer, reasoning, probe.status.clone(),
        probe.reason.clone())
}

/// The cache lookup of a project question: bypassed without document snippets.
pub fn probe_project_cache(request: &RunRequest, snippets: &str, entries: &Vec<AnswerCacheEntry>) -> (p: AnswerCacheProbe)
    ensures
        p.answer is Some ==> p.status@ == "hit"@,
        has_sub(snippets@, NO_SNIPPETS_MARKER@) ==> p.status@ == "bypass"@ && p.reason@ == NO_SNIPPETS_BYPASS@
            && p.answer is None,
        !has_sub(snippets@, NO_SNIPPETS_MARKER@) ==> p.cache_key@ == cache_key_spec(PROJECT_SCENE@,
            request.user_input@, snippets@) && (!has_key(entries@, p.cache_key@) ==> p.status@ == "miss"@
            && p.answer is None) && (has_key(entries@, p.cache_key@) ==> forall|j: int| #[trigger]
            last_with_key(entries@, p.cache_key@, j) ==> p.status@ == "hit"@ && opt_view(p.answer) == Some(
            entries@[j].answer@) && opt_view(p.summary) == Some(entries@[j].summary@) && p.reason@ == HIT_REASON@),
{
    let available = !contains(snippets, NO_SNIPPETS_MARKER);
    probe_answer_cache_or_bypass(PROJECT_SCENE, request.user_input.as_str(), snippets, available, NO_SNIPPETS_BYPASS, entries)
}

/// The answer reused from the cache, when its cleaned text is not empty.
pub fn project_cache_hit(snippets: &str, probe: &AnswerCacheProbe) -> (r: Option<ActionExecution>)
    ensures
        match probe.answer {
            None => r is None,
            Some(a) => if sanitize_project_spec(a@, Seq::empty()).len() == 0 {
                r is None
            } else {
                r matches Some(e) && plain_execution(e, PROJECT_ACTION@, match probe.summary {
                    Some(s) => s@,
                    None => "已复用本地缓存回答。"@,
                }, sanitize_project_spec(a@, Seq::empty()), true, None, cached_reasoning_spec(
                    "当前输入与项目文档摘要"@, snippets@), probe.status@, probe.reason@)
            },
        },
{
    let raw = match &probe.answer {
        Some(a) => a.clone(),
        None => { return None; },
    };
    proof {
        reveal_strlit("");
    }
    let answer = sanitize_project_answer(raw.as_str(), "");
    if answer.as_str().is_empty() {
        return None;
    }
    let reasoning = cached_answer_reasoning("当前输入与项目文档摘要", snippets);
    Some(cached_answer(PROJECT_ACTION, probe, answer, reasoning))
}

/// The cache entry of a project answer, when one is to be recorded.
pub fn project_cache_entry(
    request: &RunRequest,
    probe: &AnswerCacheProbe,
    snippets: &str,
    answer: &str,
    summary: &str,
    created_at: &str,
) -> (r: Option<AnswerCacheEntry>)
    ensures
        r is Some <==> records_answer(*probe, answer@),
        r matches Some(e) ==> e.cache_key@ == probe.cache_key@ && e.scene@ == PROJECT_SCENE@ && e.user_input@
            == summary_of(request.user_input@) && e.context_digest@ == summary_of(snippets@) && e.answer@ == answer@
            && e.summary@ == summary_of(summary@) && e.created_at@ == created_at@,
{
    answer_cache_entry(probe, PROJECT_SCENE, request.user_input.as_str(), snippets, answer, summary, created_at)
}

/// The recovered project answer for `cause`, and its cache entry.
pub open spec fn recovered_project_outcome(
    r: (ActionExecution, Option<AnswerCacheEntry>),
    snippets: Seq<char>,
    probe: AnswerCacheProbe,
    cause: Seq<char>,
) -> bool {
    let fallback = fallback_summary_spec(snippets);
    &&& plain_execution(r.0, PROJECT_ACTION@, "项目说明主回答失败，已执行单次恢复："@ + cause, recovered_answer_spec(fallback),
        true, None, "模型回答不可用，已降级为项目文档恢复路径。"@ + probe.reason@, probe.status@, probe.reason@)
    &&& (r.1 is Some <==> records_answer(probe, fallback))
    &&& (r.1 matches Some(e) ==> e.answer@ == fallback && e.summary@ == summary_of(
        "已基于项目文档恢复生成项目说明："@ + summary_of(fallback)) && e.cache_key@ == probe.cache_key@)
}

/// The project answer made of the model's reply `content`, and its cache
/// entry: the finalized reply, else the recovery when it is not usable.
pub open spec fn project_reply_outcome(
    r: (ActionExecution, Option<AnswerCacheEntry>),
    request: RunRequest,
    snippets: Seq<char>,
    probe: AnswerCacheProbe,
    content: Seq<char>,
) -> bool {
    let fin = finalized_spec(request.user_input@, content, snippets);
    if should_recover_spec(content, fin) {
        recovered_project_outcome(r, snippets, probe, "模型输出不可用"@)
    } else {
        &&& plain_execution(r.0, PROJECT_ACTION@, result_summary_spec(snippets), fin, true, None,
            "优先依据当前执行入口与项目文档片段组织项目说明。"@ + probe.reason@, probe.status@, probe.reason@)
        &&& (r.1 is Some <==> records_answer(probe, fin))
        &&& (r.1 matches Some(e) ==> e.answer@ == fin && e.summary@ == summary_of(result_summary_spec(snippets))
            && e.cache_key@ == probe.cache_key@)
    }
}

/// The recovered answer when the model failed for `cause`, and its cache entry.
pub fn recover_project_answer(
    request: &RunRequest,
    snippets: &str,
    probe: &AnswerCacheProbe,
    cause: &str,
    created_at: &str,
) -> (r: (ActionExecution, Option<AnswerCacheEntry>))
    ensures
        recovered_project_outcome(r, snippets@, *probe, cause@),
{
    let summary = fallback_project_summary(snippets);
    let cache_summary = recover_cache_summary(summary.as_str());
    let entry = project_cache_entry(request, probe, snippets, summary.as_str(), cache_summary.as_str(), created_at);
    (recovered_project_answer(probe, cause, summary), entry)
}

/// The outcome of a model reply: the recovered answer when it is not
/// usable, else the answer with its cache entry.
pub fn project_answer_success(
    request: &RunRequest,
    snippets: &str,
    probe: &AnswerCacheProbe,
    content: &str,
    created_at: &str,
) -> (r: (ActionExecution, Option<AnswerCacheEntry>))
    ensures
        project_reply_outcome(r, *request, snippets@, *probe, content@),
{
    let final_answer = finalized_project_answer(request.user_input.as_str(), content, snippets);
    if should_recover_project_answer(content, final_answer.as_str()) {
        return recover_project_answer(request, snippets, probe, "模型输出不可用", created_at);
    }
    let result_summary = project_result_summary(snippets);
    let entry = project_cache_entry(request, probe, snippets, final_answer.as_str(), result_summary.as_str(), created_at);
    (ok_project_answer(probe, result_summary, final_answer), entry)
}

/// The outcome of asking the model: its reply, or the recovery when the
/// call failed.
pub fn finish_project_answer(
    request: &RunRequest,
    snippets: &str,
    probe: &AnswerCacheProbe,
    reply: Result<String, String>,
    created_at: &str,
) -> (r: (ActionExecution, Option<AnswerCacheEntry>))
    ensures
        match reply {
            Err(error) => recovered_project_outcome(r, snippets@, *probe, error@),
            Ok(content) => project_reply_outcome(r, *request, snippets@, *probe, content@),
        },
{
    match reply {
        Ok(content) => project_answer_success(request, snippets, probe, content.as_str(), created_at),
        Err(error) => recover_project_answer(request, snippets, probe, error.as_str(), created_at),
    }
}

} // verus!
