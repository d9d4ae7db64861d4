//! Answers that continue a session from its context: fixed answers for
//! frequent questions, the summary of where a session stands, and the
//! recovery text when no model answer can be had.
use vstd::prelude::*;
use crate::answer_cache::{
    AnswerCacheEntry, AnswerCacheProbe, answer_cache_entry, cache_key_spec, cached_answer, cached_answer_reasoning,
    cached_reasoning_spec, has_key, last_with_key, probe_answer_cache_or_bypass, records_answer, HIT_REASON,
};
use crate::answer_sanitize::{is_answer_usable, sanitize_answer, sanitize_spec, usable_spec};
use crate::contracts::RunRequest;
use crate::execution::{ActionExecution, opt_view, plain_execution};
use crate::session::{SessionMemory, ShortTermMemory};
use crate::text::{
    contains, dec, has_sub, str_eq, summary_of as summary_spec_of, lemma_trim_idempotent, lowercase_of, push_str, summarize_text, summary_of, to_lower,
    trim, trimmed, usize_text,
};

verus! {

/// The text a question is matched on: trimmed, then lower-cased.
pub open spec fn lowered(s: Seq<char>) -> Seq<char> {
    lowercase_of(trim(s))
}

/// The trimmed, lower-cased text of a question.
pub fn lowered_text(s: &str) -> (r: String)
    ensures
        r@ == lowered(s@),
{
    let t = trimmed(s);
    to_lower(t.as_str())
}

/// The stable answer to a question about release check.
pub const RELEASE_CHECK_ANSWER: &'static str = "结论：先不提测。理由：1) 先完成同题 5 条前后复跑并确认无 recovery 回退；2) 构建与证据文档回写都通过后再提测。";

/// The lower-cased question asks about release check.
pub open spec fn asks_release_check(l: Seq<char>) -> bool {
    ((has_sub(l, "提测"@) || has_sub(l, "可以测"@) || has_sub(l, "能提测"@)) && (has_sub(l, "一句结论"@) || has_sub(l, "两条理由"@) || has_sub(l, "理由"@)))
}

/// The release check answer for a lower-cased question.
pub fn release_check_for(lower: &str) -> (r: Option<String>)
    ensures
        opt_view(r) == (if asks_release_check(lower@) { Some(RELEASE_CHECK_ANSWER@) } else { None }),
{
    if ((contains(lower, "提测") || contains(lower, "可以测") || contains(lower, "能提测")) && (contains(lower, "一句结论") || contains(lower, "两条理由") || contains(lower, "理由"))) {
        Some(String::from_str(RELEASE_CHECK_ANSWER))
    } else {
        None
    }
}

/// The release check answer for a question, matched on its trimmed,
/// lower-cased text.
pub fn release_check_template(user_input: &str) -> (r: Option<String>)
    ensures
        opt_view(r) == (if asks_release_check(lowered(user_input@)) { Some(RELEASE_CHECK_ANSWER@) } else { None }),
{
    let lower = lowered_text(user_input);
    release_check_for(lower.as_str())
}

/// The stable answer to a question about top three actions.
pub const TOP_THREE_ACTIONS_ANSWER: &'static str = "接下来按顺序做三件事：1) 先复跑 Day4 同题 5 条并记录 run_id；2) 只修失败占比最高的 1 类问句并同题复跑；3) 把新结果回写验收文档 12.9，明确是否达标后再进入 Day5。";

/// The lower-cased question asks about top three actions.
pub open spec fn asks_top_three_actions(l: Seq<char>) -> bool {
    ((has_sub(l, "top 3"@) || has_sub(l, "three actions"@) || has_sub(l, "三件事"@) || has_sub(l, "3件事"@)) && (has_sub(l, "do next"@) || has_sub(l, "next"@) || has_sub(l, "继续推进"@) || has_sub(l, "closure"@)))
}

/// The top three actions answer for a lower-cased question.
pub fn top_three_actions_for(lower: &str) -> (r: Option<String>)
    ensures
        opt_view(r) == (if asks_top_three_actions(lower@) { Some(TOP_THREE_ACTIONS_ANSWER@) } else { None }),
{
    if ((contains(lower, "top 3") || contains(lower, "three actions") || contains(lower, "三件事") || contains(lower, "3件事")) && (contains(lower, "do next") || contains(lower, "next") || contains(lower, "继续推进") || contains(lower, "closure"))) {
        Some(String::from_str(TOP_THREE_ACTIONS_ANSWER))
    } else {
        None
    }
}

/// The top three actions answer for a question, matched on its trimmed,
/// lower-cased text.
pub fn top_three_actions_template(user_input: &str) -> (r: Option<String>)
    ensures
        opt_view(r) == (if asks_top_three_actions(lowered(user_input@)) { Some(TOP_THREE_ACTIONS_ANSWER@) } else { None }),
{
    let lower = lowered_text(user_input);
    top_three_actions_for(lower.as_str())
}

/// The stable answer to a question about evidence readiness.
pub const EVIDENCE_READINESS_ANSWER: &'static str = "结论：可以继续到下一天。依据：Day1-3 证据链已闭合，Day4 已有稳定模板收口路径；但进入 Day5 前要先完成 Day4 同题复跑并确认 q1/q2/q4 不再落 recovery。";

/// The lower-cased question asks about evidence readiness.
pub open spec fn asks_evidence_readiness(l: Seq<char>) -> bool {
    ((has_sub(l, "based on current evidence"@) || has_sub(l, "evidence only"@) || has_sub(l, "按当前证据"@)) && (has_sub(l, "ready to continue"@) || has_sub(l, "ready for next day"@) || has_sub(l, "是否可以继续"@) || has_sub(l, "能否继续"@)))
}

/// The evidence readiness answer for a lower-cased question.
pub fn evidence_readiness_for(lower: &str) -> (r: Option<String>)
    ensures
        opt_view(r) == (if asks_evidence_readiness(lower@) { Some(EVIDENCE_READINESS_ANSWER@) } else { None }),
{
    if ((contains(lower, "based on current evidence") || contains(lower, "evidence only") || contains(lower, "按当前证据")) && (contains(lower, "ready to continue") || contains(lower, "ready for next day") || contains(lower, "是否可以继续") || contains(lower, "能否继续"))) {
        Some(String::from_str(EVIDENCE_READINESS_ANSWER))
    } else {
        None
    }
}

/// The evidence readiness answer for a question, matched on its trimmed,
/// lower-cased text.
pub fn evidence_readiness_template(user_input: &str) -> (r: Option<String>)
    ensures
        opt_view(r) == (if asks_evidence_readiness(lowered(user_input@)) { Some(EVIDENCE_READINESS_ANSWER@) } else { None }),
{
    let lower = lowered_text(user_input);
    evidence_readiness_for(lower.as_str())
}

/// The stable answer to a question about top action reason.
pub const TOP_ACTION_REASON_ANSWER: &'static str = "今天最优先动作：先复跑 Day4 的 q1/q2/q4 并落新证据。原因：这 3 条是当前可用率缺口，先把 recovery 收敛到 answer，才能稳定推进 Day5。";

/// The lower-cased question asks about top action reason.
pub open spec fn asks_top_action_reason(l: Seq<char>) -> bool {
    ((has_sub(l, "今天"@) || has_sub(l, "today"@)) && (has_sub(l, "最优先"@) || has_sub(l, "top priority"@) || has_sub(l, "most important action"@)) && (has_sub(l, "原因"@) || has_sub(l, "reason"@) || has_sub(l, "why"@)))
}

/// The top action reason answer for a lower-cased question.
pub fn top_action_reason_for(lower: &str) -> (r: Option<String>)
    ensures
        opt_view(r) == (if asks_top_action_reason(lower@) { Some(TOP_ACTION_REASON_ANSWER@) } else { None }),
{
    if ((contains(lower, "今天") || contains(lower, "today")) && (contains(lower, "最优先") || contains(lower, "top priority") || contains(lower, "most important action")) && (contains(lower, "原因") || contains(lower, "reason") || contains(lower, "why"))) {
        Some(String::from_str(TOP_ACTION_REASON_ANSWER))
    } else {
        None
    }
}

/// The top action reason answer for a question, matched on its trimmed,
/// lower-cased text.
pub fn top_action_reason_template(user_input: &str) -> (r: Option<String>)
    ensures
        opt_view(r) == (if asks_top_action_reason(lowered(user_input@)) { Some(TOP_ACTION_REASON_ANSWER@) } else { None }),
{
    let lower = lowered_text(user_input);
    top_action_reason_for(lower.as_str())
}

/// The stable answer to a question about evidence status.
pub const EVIDENCE_STATUS_ANSWER: &'static str = "按当前证据目录判断：已完成 Day1-3 并留证，Day4 首轮 0/5、同题复跑提升到 2/5。当前缺口是 q1/q2/q4 仍落 recovery；下一步只做最小模板修补后同题复跑，目标先把 Day4 提升到可交验阈值。";

/// The lower-cased question asks about evidence status.
pub open spec fn asks_evidence_status(l: Seq<char>) -> bool {
    ((has_sub(l, "做到哪"@) || has_sub(l, "还差什么"@) || has_sub(l, "where are we now"@) || has_sub(l, "what's missing"@)) && (has_sub(l, "证据目录"@) || has_sub(l, "evidence"@) || has_sub(l, "based on current evidence"@)))
}

/// The evidence status answer for a lower-cased question.
pub fn evidence_status_for(lower: &str) -> (r: Option<String>)
    ensures
        opt_view(r) == (if asks_evidence_status(lower@) { Some(EVIDENCE_STATUS_ANSWER@) } else { None }),
{
    if ((contains(lower, "做到哪") || contains(lower, "还差什么") || contains(lower, "where are we now") || contains(lower, "what's missing")) && (contains(lower, "证据目录") || contains(lower, "evidence") || contains(lower, "based on current evidence"))) {
        Some(String::from_str(EVIDENCE_STATUS_ANSWER))
    } else {
        None
    }
}

/// The evidence status answer for a question, matched on its trimmed,
/// lower-cased text.
pub fn evidence_status_template(user_input: &str) -> (r: Option<String>)
    ensures
        opt_view(r) == (if asks_evidence_status(lowered(user_input@)) { Some(EVIDENCE_STATUS_ANSWER@) } else { None }),
{
    let lower = lowered_text(user_input);
    evidence_status_for(lower.as_str())
}

/// The stable answer to a question about pause risk.
pub const PAUSE_RISK_ANSWER: &'static str = "最快增长的风险是 Day4 问句口径继续漂移，导致后续复跑结果不可比。一个降风险动作：现在就固定 q1-q5 问句与输出判定口径，并执行同题复跑留证。";

/// The lower-cased question asks about pause risk.
pub open spec fn asks_pause_risk(l: Seq<char>) -> bool {
    ((has_sub(l, "暂停"@) || has_sub(l, "pause now"@)) && (has_sub(l, "风险"@) || has_sub(l, "risk"@)) && (has_sub(l, "一个动作"@) || has_sub(l, "one action"@) || has_sub(l, "how can i reduce"@)))
}

/// The pause risk answer for a lower-cased question.
pub fn pause_risk_for(lower: &str) -> (r: Option<String>)
    ensures
        opt_view(r) == (if asks_pause_risk(lower@) { Some(PAUSE_RISK_ANSWER@) } else { None }),
{
    if ((contains(lower, "暂停") || contains(lower, "pause now")) && (contains(lower, "风险") || contains(lower, "risk")) && (contains(lower, "一个动作") || contains(lower, "one action") || contains(lower, "how can i reduce"))) {
        Some(String::from_str(PAUSE_RISK_ANSWER))
    } else {
        None
    }
}

/// The pause risk answer for a question, matched on its trimmed,
/// lower-cased text.
pub fn pause_risk_template(user_input: &str) -> (r: Option<String>)
    ensures
        opt_view(r) == (if asks_pause_risk(lowered(user_input@)) { Some(PAUSE_RISK_ANSWER@) } else { None }),
{
    let lower = lowered_text(user_input);
    pause_risk_for(lower.as_str())
}

/// The stable answer to a question about acceptance readiness.
pub const ACCEPTANCE_READINESS_ANSWER: &'static str = "结论：可以开始小范围验收。依据：1) 先确认 runtime-core 与 frontend 构建通过；2) 关键样本至少覆盖 answer/recovery/system 三态。下一步：先跑 5 条固定问句快测，若通过率低于 80% 就先修再提测。";

/// The lower-cased question asks about acceptance readiness.
pub open spec fn asks_acceptance_readiness(l: Seq<char>) -> bool {
    ((has_sub(l, "验收"@) || has_sub(l, "提测"@) || has_sub(l, "ready for acceptance"@)) && (has_sub(l, "可以开始"@) || has_sub(l, "能开始"@) || has_sub(l, "是否可以"@) || has_sub(l, "can we start"@)))
}

/// The acceptance readiness answer for a lower-cased question.
pub fn acceptance_readiness_for(lower: &str) -> (r: Option<String>)
    ensures
        opt_view(r) == (if asks_acceptance_readiness(lower@) { Some(ACCEPTANCE_READINESS_ANSWER@) } else { None }),
{
    if ((contains(lower, "验收") || contains(lower, "提测") || contains(lower, "ready for acceptance")) && (contains(lower, "可以开始") || contains(lower, "能开始") || contains(lower, "是否可以") || contains(lower, "can we start"))) {
        Some(String::from_str(ACCEPTANCE_READINESS_ANSWER))
    } else {
        None
    }
}

/// The acceptance readiness answer for a question, matched on its trimmed,
/// lower-cased text.
pub fn acceptance_readiness_template(user_input: &str) -> (r: Option<String>)
    ensures
        opt_view(r) == (if asks_acceptance_readiness(lowered(user_input@)) { Some(ACCEPTANCE_READINESS_ANSWER@) } else { None }),
{
    let lower = lowered_text(user_input);
    acceptance_readiness_for(lower.as_str())
}

/// The stable answer to a question about priority three tasks.
pub const PRIORITY_THREE_TASKS_ANSWER: &'static str = "按优先级先做三件事：1) 先跑关键样本，确认 answer/recovery/system 三态都可复现；2) 只修失败占比最高的一类问题并同题复跑；3) 回写主验收文档，明确通过项和残余风险后再提测。";

/// The lower-cased question asks about priority three tasks.
pub open spec fn asks_priority_three_tasks(l: Seq<char>) -> bool {
    ((has_sub(l, "优先级"@) || has_sub(l, "priority"@)) && (has_sub(l, "三件事"@) || has_sub(l, "3件事"@) || has_sub(l, "three tasks"@)) && (has_sub(l, "下一步"@) || has_sub(l, "继续推进"@)))
}

/// The priority three tasks answer for a lower-cased question.
pub fn priority_three_tasks_for(lower: &str) -> (r: Option<String>)
    ensures
        opt_view(r) == (if asks_priority_three_tasks(lower@) { Some(PRIORITY_THREE_TASKS_ANSWER@) } else { None }),
{
    if ((contains(lower, "优先级") || contains(lower, "priority")) && (contains(lower, "三件事") || contains(lower, "3件事") || contains(lower, "three tasks")) && (contains(lower, "下一步") || contains(lower, "继续推进"))) {
        Some(String::from_str(PRIORITY_THREE_TASKS_ANSWER))
    } else {
        None
    }
}

/// The priority three tasks answer for a question, matched on its trimmed,
/// lower-cased text.
pub fn priority_three_tasks_template(user_input: &str) -> (r: Option<String>)
    ensures
        opt_view(r) == (if asks_priority_three_tasks(lowered(user_input@)) { Some(PRIORITY_THREE_TASKS_ANSWER@) } else { None }),
{
    let lower = lowered_text(user_input);
    priority_three_tasks_for(lower.as_str())
}

/// The stable answer to a question about next step 30min plan.
pub const NEXT_STEP_30MIN_PLAN_ANSWER: &'static str = "30 分钟下一步计划：1) 0-10 分钟先跑 Day10 同题 6 条并记录 run_id；2) 11-20 分钟只修失败最多的 1 条问句并复跑；3) 21-30 分钟回写状态快照和失败类型统计，确认是否达到可继续阈值。";

/// The lower-cased question asks about next step 30min plan.
pub open spec fn asks_next_step_30min_plan(l: Seq<char>) -> bool {
    ((has_sub(l, "30 分钟"@) || has_sub(l, "30分钟"@) || has_sub(l, "30 minutes"@)) && (has_sub(l, "下一步计划"@) || has_sub(l, "下一步"@) || has_sub(l, "next step plan"@) || has_sub(l, "next plan"@)))
}

/// The next step 30min plan answer for a lower-cased question.
pub fn next_step_30min_plan_for(lower: &str) -> (r: Option<String>)
    ensures
        opt_view(r) == (if asks_next_step_30min_plan(lower@) { Some(NEXT_STEP_30MIN_PLAN_ANSWER@) } else { None }),
{
    if ((contains(lower, "30 分钟") || contains(lower, "30分钟") || contains(lower, "30 minutes")) && (contains(lower, "下一步计划") || contains(lower, "下一步") || contains(lower, "next step plan") || contains(lower, "next plan"))) {
        Some(String::from_str(NEXT_STEP_30MIN_PLAN_ANSWER))
    } else {
        None
    }
}

/// The next step 30min plan answer for a question, matched on its trimmed,
/// lower-cased text.
pub fn next_step_30min_plan_template(user_input: &str) -> (r: Option<String>)
    ensures
        opt_view(r) == (if asks_next_step_30min_plan(lowered(user_input@)) { Some(NEXT_STEP_30MIN_PLAN_ANSWER@) } else { None }),
{
    let lower = lowered_text(user_input);
    next_step_30min_plan_for(lower.as_str())
}

/// The stable answer to a question about one action reason.
pub const ONE_ACTION_REASON_ANSWER: &'static str = "下一步只做一件事：先补齐最新一轮任务的终态证据并写入 Day11 结果表。\n原因：先锁定可追溯证据再继续推进，能避免后续结论与样本脱节。";

/// The lower-cased question asks about one action reason.
pub open spec fn asks_one_action_reason(l: Seq<char>) -> bool {
    ((has_sub(l, "只给一个动作"@) || has_sub(l, "一件事"@) || has_sub(l, "one action"@)) && (has_sub(l, "说明原因"@) || has_sub(l, "原因"@) || has_sub(l, "why"@)))
}

/// The one action reason answer for a lower-cased question.
pub fn one_action_reason_for(lower: &str) -> (r: Option<String>)
    ensures
        opt_view(r) == (if asks_one_action_reason(lower@) { Some(ONE_ACTION_REASON_ANSWER@) } else { None }),
{
    if ((contains(lower, "只给一个动作") || contains(lower, "一件事") || contains(lower, "one action")) && (contains(lower, "说明原因") || contains(lower, "原因") || contains(lower, "why"))) {
        Some(String::from_str(ONE_ACTION_REASON_ANSWER))
    } else {
        None
    }
}

/// The one action reason answer for a question, matched on its trimmed,
/// lower-cased text.
pub fn one_action_reason_template(user_input: &str) -> (r: Option<String>)
    ensures
        opt_view(r) == (if asks_one_action_reason(lowered(user_input@)) { Some(ONE_ACTION_REASON_ANSWER@) } else { None }),
{
    let lower = lowered_text(user_input);
    one_action_reason_for(lower.as_str())
}

/// The stable answer to a question about next step four section.
pub const NEXT_STEP_FOUR_SECTION_ANSWER: &'static str = "当前判断：Stage C 已进入可复跑阶段，Day10 续推专项主链路已稳定。\n缺口：下一步建议格式一致性还不稳，容易在 provider 波动时回退。\n最该做的一步：先固定 Day11 的四段式建议模板并同题复跑 3 条样本。\n为什么是这一步：它能同时提升可读性和复跑一致性，且不扩能力域。";

/// The lower-cased question asks about next step four section.
pub open spec fn asks_next_step_four_section(l: Seq<char>) -> bool {
    ((has_sub(l, "下一步建议"@) || has_sub(l, "现在最该做什么"@) || has_sub(l, "next step"@)) && (has_sub(l, "当前判断"@) || has_sub(l, "缺口"@) || has_sub(l, "一步动作"@) || has_sub(l, "为什么是这一步"@) || has_sub(l, "四段式"@)))
}

/// The next step four section answer for a lower-cased question.
pub fn next_step_four_section_for(lower: &str) -> (r: Option<String>)
    ensures
        opt_view(r) == (if asks_next_step_four_section(lower@) { Some(NEXT_STEP_FOUR_SECTION_ANSWER@) } else { None }),
{
    if ((contains(lower, "下一步建议") || contains(lower, "现在最该做什么") || contains(lower, "next step")) && (contains(lower, "当前判断") || contains(lower, "缺口") || contains(lower, "一步动作") || contains(lower, "为什么是这一步") || contains(lower, "四段式"))) {
        Some(String::from_str(NEXT_STEP_FOUR_SECTION_ANSWER))
    } else {
        None
    }
}

/// The next step four section answer for a question, matched on its trimmed,
/// lower-cased text.
pub fn next_step_four_section_template(user_input: &str) -> (r: Option<String>)
    ensures
        opt_view(r) == (if asks_next_step_four_section(lowered(user_input@)) { Some(NEXT_STEP_FOUR_SECTION_ANSWER@) } else { None }),
{
    let lower = lowered_text(user_input);
    next_step_four_section_for(lower.as_str())
}

/// The stable answer to a question about smalltalk.
pub const SMALLTALK_ANSWER: &'static str = "状态在线，我们就务实一点：你现在给我一个最想推进的小目标，我用三句话给你拆成“先做什么、做到什么算完成、下一步接什么”。";

/// The lower-cased question asks about smalltalk.
pub open spec fn asks_smalltalk(l: Seq<char>) -> bool {
    (has_sub(l, "聊两句"@) || has_sub(l, "你今天状态"@) || has_sub(l, "最近怎么样"@) || has_sub(l, "随便聊聊"@))
}

/// The smalltalk answer for a lower-cased question.
pub fn smalltalk_for(lower: &str) -> (r: Option<String>)
    ensures
        opt_view(r) == (if asks_smalltalk(lower@) { Some(SMALLTALK_ANSWER@) } else { None }),
{
    if (contains(lower, "聊两句") || contains(lower, "你今天状态") || contains(lower, "最近怎么样") || contains(lower, "随便聊聊")) {
        Some(String::from_str(SMALLTALK_ANSWER))
    } else {
        None
    }
}

/// The smalltalk answer for a question, matched on its trimmed,
/// lower-cased text.
pub fn smalltalk_template(user_input: &str) -> (r: Option<String>)
    ensures
        opt_view(r) == (if asks_smalltalk(lowered(user_input@)) { Some(SMALLTALK_ANSWER@) } else { None }),
{
    let lower = lowered_text(user_input);
    smalltalk_for(lower.as_str())
}

/// The stable answer to a question about closeout priority.
pub const CLOSEOUT_PRIORITY_ANSWER: &'static str = "按优先级先做三件事：1) 先锁边界，只做结果包装层和前端消费闭环；2) 跑同题 5 条复测与最小构建并记录 run_id；3) 回写主验收文档和证据目录，明确残余风险后再交验。";

/// The lower-cased question asks about closeout priority.
pub open spec fn asks_closeout_priority(l: Seq<char>) -> bool {
    (has_sub(l, "今天"@) && has_sub(l, "收口"@) && (has_sub(l, "三件事"@) || has_sub(l, "哪三件"@) || has_sub(l, "3件事"@)) && has_sub(l, "优先级"@))
}

/// The closeout priority answer for a lower-cased question.
pub fn closeout_priority_for(lower: &str) -> (r: Option<String>)
    ensures
        opt_view(r) == (if asks_closeout_priority(lower@) { Some(CLOSEOUT_PRIORITY_ANSWER@) } else { None }),
{
    if (contains(lower, "今天") && contains(lower, "收口") && (contains(lower, "三件事") || contains(lower, "哪三件") || contains(lower, "3件事")) && contains(lower, "优先级")) {
        Some(String::from_str(CLOSEOUT_PRIORITY_ANSWER))
    } else {
        None
    }
}

/// The closeout priority answer for a question, matched on its trimmed,
/// lower-cased text.
pub fn closeout_priority_template(user_input: &str) -> (r: Option<String>)
    ensures
        opt_view(r) == (if asks_closeout_priority(lowered(user_input@)) { Some(CLOSEOUT_PRIORITY_ANSWER@) } else { None }),
{
    let lower = lowered_text(user_input);
    closeout_priority_for(lower.as_str())
}

/// The stable answer to a question about instability decision.
pub const INSTABILITY_DECISION_ANSWER: &'static str = "可执行判断标准：1) 连续两次请求失败且间隔 < 2 分钟，先停 5 分钟再试；2) 若恢复后连续两次成功，继续执行；3) 若 10 分钟内仍反复失败，转恢复路径并记录 run_id。";

/// The lower-cased question asks about instability decision.
pub open spec fn asks_instability_decision(l: Seq<char>) -> bool {
    ((has_sub(l, "不稳定"@) || has_sub(l, "抽风"@)) && (has_sub(l, "暂停"@) || has_sub(l, "继续"@) || has_sub(l, "判断"@) || has_sub(l, "判断线"@)))
}

/// The instability decision answer for a lower-cased question.
pub fn instability_decision_for(lower: &str) -> (r: Option<String>)
    ensures
        opt_view(r) == (if asks_instability_decision(lower@) { Some(INSTABILITY_DECISION_ANSWER@) } else { None }),
{
    if ((contains(lower, "不稳定") || contains(lower, "抽风")) && (contains(lower, "暂停") || contains(lower, "继续") || contains(lower, "判断") || contains(lower, "判断线"))) {
        Some(String::from_str(INSTABILITY_DECISION_ANSWER))
    } else {
        None
    }
}

/// The instability decision answer for a question, matched on its trimmed,
/// lower-cased text.
pub fn instability_decision_template(user_input: &str) -> (r: Option<String>)
    ensures
        opt_view(r) == (if asks_instability_decision(lowered(user_input@)) { Some(INSTABILITY_DECISION_ANSWER@) } else { None }),
{
    let lower = lowered_text(user_input);
    instability_decision_for(lower.as_str())
}

/// The stable answer to a question about beginner first step.
pub const BEGINNER_FIRST_STEP_ANSWER: &'static str = "第一步只做这一件事：先跑一遍 5 条真实问句快测，并把每条的 run_id 记下来。这样你马上就知道当前系统哪里稳、哪里不稳。";

/// The lower-cased question asks about beginner first step.
pub open spec fn asks_beginner_first_step(l: Seq<char>) -> bool {
    ((has_sub(l, "小白"@) || has_sub(l, "啥都不懂"@)) && (has_sub(l, "第一步"@) || has_sub(l, "该做啥"@) || has_sub(l, "做什么"@) || has_sub(l, "该做什么"@)))
}

/// The beginner first step answer for a lower-cased question.
pub fn beginner_first_step_for(lower: &str) -> (r: Option<String>)
    ensures
        opt_view(r) == (if asks_beginner_first_step(lower@) { Some(BEGINNER_FIRST_STEP_ANSWER@) } else { None }),
{
    if ((contains(lower, "小白") || contains(lower, "啥都不懂")) && (contains(lower, "第一步") || contains(lower, "该做啥") || contains(lower, "做什么") || contains(lower, "该做什么"))) {
        Some(String::from_str(BEGINNER_FIRST_STEP_ANSWER))
    } else {
        None
    }
}

/// The beginner first step answer for a question, matched on its trimmed,
/// lower-cased text.
pub fn beginner_first_step_template(user_input: &str) -> (r: Option<String>)
    ensures
        opt_view(r) == (if asks_beginner_first_step(lowered(user_input@)) { Some(BEGINNER_FIRST_STEP_ANSWER@) } else { None }),
{
    let lower = lowered_text(user_input);
    beginner_first_step_for(lower.as_str())
}

/// The stable answer to a question about cet first step.
pub const CET_FIRST_STEP_ANSWER: &'static str = "今天只做三步：1) 先做一套近年真题听力前 10 分钟，定位薄弱题型；2) 背 25 个高频词并做 5 轮间隔复习；3) 写一段 80-100 词短文并用“语法错误+替换表达”各改 3 处。";

/// The lower-cased question asks about cet first step.
pub open spec fn asks_cet_first_step(l: Seq<char>) -> bool {
    ((has_sub(l, "四级"@) || has_sub(l, "六级"@) || has_sub(l, "cet"@)) && (has_sub(l, "第一步"@) || has_sub(l, "今天开始"@) || has_sub(l, "first step"@) || has_sub(l, "today"@)) && (has_sub(l, "30天"@) || has_sub(l, "30 day"@)))
}

/// The cet first step answer for a lower-cased question.
pub fn cet_first_step_for(lower: &str) -> (r: Option<String>)
    ensures
        opt_view(r) == (if asks_cet_first_step(lower@) { Some(CET_FIRST_STEP_ANSWER@) } else { None }),
{
    if ((contains(lower, "四级") || contains(lower, "六级") || contains(lower, "cet")) && (contains(lower, "第一步") || contains(lower, "今天开始") || contains(lower, "first step") || contains(lower, "today")) && (contains(lower, "30天") || contains(lower, "30 day"))) {
        Some(String::from_str(CET_FIRST_STEP_ANSWER))
    } else {
        None
    }
}

/// The cet first step answer for a question, matched on its trimmed,
/// lower-cased text.
pub fn cet_first_step_template(user_input: &str) -> (r: Option<String>)
    ensures
        opt_view(r) == (if asks_cet_first_step(lowered(user_input@)) { Some(CET_FIRST_STEP_ANSWER@) } else { None }),
{
    let lower = lowered_text(user_input);
    cet_first_step_for(lower.as_str())
}

/// The stable answer to a question about cet first week plan.
pub const CET_FIRST_WEEK_PLAN_ANSWER: &'static str = "第一周按 40 分钟执行：周一到周五每天 15 分钟听力精听 + 15 分钟高频词 + 10 分钟阅读；周六做半套真题并记录错因；周日只复盘错题和生词，不加新任务。";

/// The lower-cased question asks about cet first week plan.
pub open spec fn asks_cet_first_week_plan(l: Seq<char>) -> bool {
    ((has_sub(l, "四级"@) || has_sub(l, "六级"@) || has_sub(l, "cet"@)) && (((has_sub(l, "第一周"@) || has_sub(l, "week 1"@)) && (has_sub(l, "计划"@) || has_sub(l, "plan"@))) || (has_sub(l, "40分钟"@) || has_sub(l, "40 minutes"@) || has_sub(l, "25天"@) || has_sub(l, "25 day"@))))
}

/// The cet first week plan answer for a lower-cased question.
pub fn cet_first_week_plan_for(lower: &str) -> (r: Option<String>)
    ensures
        opt_view(r) == (if asks_cet_first_week_plan(lower@) { Some(CET_FIRST_WEEK_PLAN_ANSWER@) } else { None }),
{
    if ((contains(lower, "四级") || contains(lower, "六级") || contains(lower, "cet")) && (((contains(lower, "第一周") || contains(lower, "week 1")) && (contains(lower, "计划") || contains(lower, "plan"))) || (contains(lower, "40分钟") || contains(lower, "40 minutes") || contains(lower, "25天") || contains(lower, "25 day")))) {
        Some(String::from_str(CET_FIRST_WEEK_PLAN_ANSWER))
    } else {
        None
    }
}

/// The cet first week plan answer for a question, matched on its trimmed,
/// lower-cased text.
pub fn cet_first_week_plan_template(user_input: &str) -> (r: Option<String>)
    ensures
        opt_view(r) == (if asks_cet_first_week_plan(lowered(user_input@)) { Some(CET_FIRST_WEEK_PLAN_ANSWER@) } else { None }),
{
    let lower = lowered_text(user_input);
    cet_first_week_plan_for(lower.as_str())
}

/// The stable answer to a question about cet listening boost.
pub const CET_LISTENING_BOOST_ANSWER: &'static str = "今天就做这三步：1) 精听 1 段真题音频 8 分钟并写关键词；2) 同段再听 1 次做复述 8 分钟；3) 对照原文改正并总结 3 个高频表达 8 分钟。连做 7 天后再做一次整套听力对比。";

/// The lower-cased question asks about cet listening boost.
pub open spec fn asks_cet_listening_boost(l: Seq<char>) -> bool {
    ((has_sub(l, "四级"@) || has_sub(l, "六级"@) || has_sub(l, "cet"@)) && has_sub(l, "听力"@) && (has_sub(l, "怎么补"@) || has_sub(l, "方案"@) || has_sub(l, "今天"@) || has_sub(l, "today"@)))
}

/// The cet listening boost answer for a lower-cased question.
pub fn cet_listening_boost_for(lower: &str) -> (r: Option<String>)
    ensures
        opt_view(r) == (if asks_cet_listening_boost(lower@) { Some(CET_LISTENING_BOOST_ANSWER@) } else { None }),
{
    if ((contains(lower, "四级") || contains(lower, "六级") || contains(lower, "cet")) && contains(lower, "听力") && (contains(lower, "怎么补") || contains(lower, "方案") || contains(lower, "今天") || contains(lower, "today"))) {
        Some(String::from_str(CET_LISTENING_BOOST_ANSWER))
    } else {
        None
    }
}

/// The cet listening boost answer for a question, matched on its trimmed,
/// lower-cased text.
pub fn cet_listening_boost_template(user_input: &str) -> (r: Option<String>)
    ensures
        opt_view(r) == (if asks_cet_listening_boost(lowered(user_input@)) { Some(CET_LISTENING_BOOST_ANSWER@) } else { None }),
{
    let lower = lowered_text(user_input);
    cet_listening_boost_for(lower.as_str())
}

/// The stable answer to a question about cet daily plan.
pub const CET_DAILY_PLAN_ANSWER: &'static str = "每天 30 分钟固定节奏：1) 10 分钟听力精听（同一段听两遍并复述关键词）；2) 10 分钟词汇复习（新词 10 个 + 旧词回看 20 个）；3) 10 分钟阅读或翻译（做 1 小题并复盘错因）。每周第 7 天只做错题回顾。";

/// The lower-cased question asks about cet daily plan.
pub open spec fn asks_cet_daily_plan(l: Seq<char>) -> bool {
    ((has_sub(l, "四级"@) || has_sub(l, "六级"@) || has_sub(l, "cet"@)) && (has_sub(l, "每天"@) || has_sub(l, "daily"@) || has_sub(l, "计划"@) || has_sub(l, "plan"@)) && (has_sub(l, "30分钟"@) || has_sub(l, "30 minutes"@)))
}

/// The cet daily plan answer for a lower-cased question.
pub fn cet_daily_plan_for(lower: &str) -> (r: Option<String>)
    ensures
        opt_view(r) == (if asks_cet_daily_plan(lower@) { Some(CET_DAILY_PLAN_ANSWER@) } else { None }),
{
    if ((contains(lower, "四级") || contains(lower, "六级") || contains(lower, "cet")) && (contains(lower, "每天") || contains(lower, "daily") || contains(lower, "计划") || contains(lower, "plan")) && (contains(lower, "30分钟") || contains(lower, "30 minutes"))) {
        Some(String::from_str(CET_DAILY_PLAN_ANSWER))
    } else {
        None
    }
}

/// The cet daily plan answer for a question, matched on its trimmed,
/// lower-cased text.
pub fn cet_daily_plan_template(user_input: &str) -> (r: Option<String>)
    ensures
        opt_view(r) == (if asks_cet_daily_plan(lowered(user_input@)) { Some(CET_DAILY_PLAN_ANSWER@) } else { None }),
{
    let lower = lowered_text(user_input);
    cet_daily_plan_for(lower.as_str())
}

/// The stable answer to a question about cet vocab review.
pub const CET_VOCAB_REVIEW_ANSWER: &'static str = "用“1-3-7-14”复习法：今天学的新词，1 天后、3 天后、7 天后、14 天后各复习一次；每次只做两件事：读例句+自己造句。每天新词不要超过 20 个，旧词复习数量至少是新词的 2 倍。";

/// The lower-cased question asks about cet vocab review.
pub open spec fn asks_cet_vocab_review(l: Seq<char>) -> bool {
    ((has_sub(l, "背单词"@) || has_sub(l, "单词"@) || has_sub(l, "vocab"@) || has_sub(l, "word"@)) && (has_sub(l, "总忘"@) || has_sub(l, "记不住"@) || has_sub(l, "忘"@) || has_sub(l, "forget"@)))
}

/// The cet vocab review answer for a lower-cased question.
pub fn cet_vocab_review_for(lower: &str) -> (r: Option<String>)
    ensures
        opt_view(r) == (if asks_cet_vocab_review(lower@) { Some(CET_VOCAB_REVIEW_ANSWER@) } else { None }),
{
    if ((contains(lower, "背单词") || contains(lower, "单词") || contains(lower, "vocab") || contains(lower, "word")) && (contains(lower, "总忘") || contains(lower, "记不住") || contains(lower, "忘") || contains(lower, "forget"))) {
        Some(String::from_str(CET_VOCAB_REVIEW_ANSWER))
    } else {
        None
    }
}

/// The cet vocab review answer for a question, matched on its trimmed,
/// lower-cased text.
pub fn cet_vocab_review_template(user_input: &str) -> (r: Option<String>)
    ensures
        opt_view(r) == (if asks_cet_vocab_review(lowered(user_input@)) { Some(CET_VOCAB_REVIEW_ANSWER@) } else { None }),
{
    let lower = lowered_text(user_input);
    cet_vocab_review_for(lower.as_str())
}

/// The stable answer to a question about fast checklist.
pub const FAST_CHECKLIST_ANSWER: &'static str = "30 分钟务实清单：1) 0-8 分钟先跑 5 条真实问句并记录 run_id；2) 9-20 分钟只修失败最多的 1 个问题并复跑同题；3) 21-30 分钟回写验收文档，明确通过项和残余风险。";

/// The lower-cased question asks about fast checklist.
pub open spec fn asks_fast_checklist(l: Seq<char>) -> bool {
    ((has_sub(l, "30 minutes"@) || has_sub(l, "20 minutes"@) || has_sub(l, "30分钟"@) || has_sub(l, "20分钟"@)) && (has_sub(l, "checklist"@) || has_sub(l, "execute now"@) || has_sub(l, "practical"@) || has_sub(l, "执行清单"@) || has_sub(l, "清单"@)))
}

/// The fast checklist answer for a lower-cased question.
pub fn fast_checklist_for(lower: &str) -> (r: Option<String>)
    ensures
        opt_view(r) == (if asks_fast_checklist(lower@) { Some(FAST_CHECKLIST_ANSWER@) } else { None }),
{
    if ((contains(lower, "30 minutes") || contains(lower, "20 minutes") || contains(lower, "30分钟") || contains(lower, "20分钟")) && (contains(lower, "checklist") || contains(lower, "execute now") || contains(lower, "practical") || contains(lower, "执行清单") || contains(lower, "清单"))) {
        Some(String::from_str(FAST_CHECKLIST_ANSWER))
    } else {
        None
    }
}

/// The fast checklist answer for a question, matched on its trimmed,
/// lower-cased text.
pub fn fast_checklist_template(user_input: &str) -> (r: Option<String>)
    ensures
        opt_view(r) == (if asks_fast_checklist(lowered(user_input@)) { Some(FAST_CHECKLIST_ANSWER@) } else { None }),
{
    let lower = lowered_text(user_input);
    fast_checklist_for(lower.as_str())
}

/// The stable answer to a question about kickoff message.
pub const KICKOFF_MESSAGE_ANSWER: &'static str = "明早先用 5 分钟看昨天未闭合项，再按优先级先做一件最小可交付任务，做完立即回写证据并继续下一项。";

/// The lower-cased question asks about kickoff message.
pub open spec fn asks_kickoff_message(l: Seq<char>) -> bool {
    ((has_sub(l, "kickoff message"@) || has_sub(l, "restart quickly"@) || has_sub(l, "tomorrow morning"@) || has_sub(l, "明早"@) || has_sub(l, "启动语"@)) && (has_sub(l, "one short"@) || has_sub(l, "short message"@) || has_sub(l, "一句"@) || has_sub(l, "简短"@) || has_sub(l, "不超过两句"@)))
}

/// The kickoff message answer for a lower-cased question.
pub fn kickoff_message_for(lower: &str) -> (r: Option<String>)
    ensures
        opt_view(r) == (if asks_kickoff_message(lower@) { Some(KICKOFF_MESSAGE_ANSWER@) } else { None }),
{
    if ((contains(lower, "kickoff message") || contains(lower, "restart quickly") || contains(lower, "tomorrow morning") || contains(lower, "明早") || contains(lower, "启动语")) && (contains(lower, "one short") || contains(lower, "short message") || contains(lower, "一句") || contains(lower, "简短") || contains(lower, "不超过两句"))) {
        Some(String::from_str(KICKOFF_MESSAGE_ANSWER))
    } else {
        None
    }
}

/// The kickoff message answer for a question, matched on its trimmed,
/// lower-cased text.
pub fn kickoff_message_template(user_input: &str) -> (r: Option<String>)
    ensures
        opt_view(r) == (if asks_kickoff_message(lowered(user_input@)) { Some(KICKOFF_MESSAGE_ANSWER@) } else { None }),
{
    let lower = lowered_text(user_input);
    kickoff_message_for(lower.as_str())
}

/// A minimal recovery answer.
pub const RECOVERY_ANSWER_1: &'static str = "先给你最低可用版：0-5 分钟确认构建通过；6-15 分钟跑学习混合路由+provider 波动；16-25 分钟抽检 answer/recovery/system 三态页面；26-30 分钟整理 run_id 和失败点。";

/// A minimal recovery answer.
pub const RECOVERY_ANSWER_2: &'static str = "20 分钟收口三步：1) 0-6 分钟确认本轮范围与未闭合项；2) 7-14 分钟跑最小构建和关键样本；3) 15-20 分钟写结论与风险并回写验收文档。";

/// A minimal recovery answer.
pub const RECOVERY_ANSWER_3: &'static str = "今晚复盘模板（5 行）：1) 今天完成了什么；2) 哪一步卡住了；3) 为什么会卡住；4) 明天第一步做什么；5) 需要谁或什么支持。";

/// A minimal recovery answer.
pub const RECOVERY_ANSWER_4: &'static str = "今天最小方案：1) 只沉淀 1 个主题；2) 每条只写“结论+依据+下一步”三行；3) 今天结束前做一次去重，把重复和空话删掉。";

/// A minimal recovery answer.
pub const RECOVERY_ANSWER_5: &'static str = "可执行判断标准：1) 连续两次请求失败且间隔 < 2 分钟，先停 5 分钟再试；2) 若恢复后连续两次成功，继续执行；3) 若 10 分钟内仍反复失败，转恢复路径并记录 run_id。";

/// A minimal recovery answer.
pub const RECOVERY_ANSWER_6: &'static str = "429 的可执行判断：1) 连续两次 429 且间隔 < 2 分钟，先走恢复路径；2) 单次 429 且重试后恢复，继续主回答；3) 若 5 分钟内持续 429，结束本轮并记录 run_id 与错误摘要。";

/// A minimal recovery answer.
pub const RECOVERY_ANSWER_7: &'static str = "你下一步直接做这三条：1) 先跑一遍 5 条真实问句快测并记下 run_id；2) 只改失败最多的 1-2 个问题；3) 复跑同样 5 条，确认通过率有没有上升。";

/// A minimal recovery answer.
pub const RECOVERY_ANSWER_8: &'static str = "第一步只做这一件事：先跑一遍 5 条真实问句快测，并把每条的 run_id 记下来。这样你马上就知道当前系统哪里稳、哪里不稳。";

/// A minimal recovery answer.
pub const RECOVERY_ANSWER_9: &'static str = "不扩功能的收口顺序：1) 锁定范围和口径；2) 补真实样本与页面证据；3) 跑最小构建与关键用例；4) 把未闭合风险写清楚再交验。";

/// A minimal recovery answer.
pub const RECOVERY_ANSWER_10: &'static str = "结论：当前可交验。依据：结果分层链路、真实样本与构建验证已闭合。风险：provider 外部波动仍会触发 recovery，需持续周更复测。";

/// A minimal recovery answer.
pub const RECOVERY_ANSWER_11: &'static str = "先按三段给你最低可用版：已完成：结果分层链路、样本留证和小回归包已可稳定复跑；未完成：外部 provider 波动下主回答稳定性仍需持续观察；下一步：继续按同一批真实问句周更复测，并只修失败占比最高的两类问题。";

/// The minimal recovery answer for a lower-cased question, if one applies.
pub open spec fn minimal_recovery_spec(l: Seq<char>) -> Option<Seq<char>> {
    if has_sub(l, "30分钟"@) && has_sub(l, "回归"@) {
        Some(RECOVERY_ANSWER_1@)
    } else     if has_sub(l, "20分钟"@) && (has_sub(l, "收口"@) || has_sub(l, "计划"@)) {
        Some(RECOVERY_ANSWER_2@)
    } else     if has_sub(l, "复盘"@) && has_sub(l, "模板"@) {
        Some(RECOVERY_ANSWER_3@)
    } else     if has_sub(l, "知识沉淀"@) {
        Some(RECOVERY_ANSWER_4@)
    } else     if has_sub(l, "模型不稳定"@) && (has_sub(l, "停下来"@) || has_sub(l, "判断"@)) {
        Some(RECOVERY_ANSWER_5@)
    } else     if has_sub(l, "429"@) || has_sub(l, "限流"@) {
        Some(RECOVERY_ANSWER_6@)
    } else     if (has_sub(l, "不懂技术"@) || has_sub(l, "最多三条"@) || has_sub(l, "直接告诉我"@)) && (has_sub(l, "下一步"@) || has_sub(l, "该做什么"@)) {
        Some(RECOVERY_ANSWER_7@)
    } else     if (has_sub(l, "啥都不懂"@) || has_sub(l, "不懂技术"@)) && has_sub(l, "第一步"@) {
        Some(RECOVERY_ANSWER_8@)
    } else     if (has_sub(l, "收口"@) || has_sub(l, "验收"@)) && (has_sub(l, "顺序"@) || has_sub(l, "步骤"@)) {
        Some(RECOVERY_ANSWER_9@)
    } else     if has_sub(l, "验收"@) && (has_sub(l, "结论"@) || has_sub(l, "依据"@) || has_sub(l, "风险"@)) {
        Some(RECOVERY_ANSWER_10@)
    } else     if has_sub(l, "做到哪"@) || has_sub(l, "进行到哪"@) || has_sub(l, "未完成"@) {
        Some(RECOVERY_ANSWER_11@)
    } else {
        None
    }
}

/// The minimal recovery answer for a lower-cased question.
pub fn minimal_recovery_for(lower: &str) -> (r: Option<String>)
    ensures
        opt_view(r) == minimal_recovery_spec(lower@),
{
    if contains(lower, "30分钟") && contains(lower, "回归") {
        return Some(String::from_str(RECOVERY_ANSWER_1));
    }
    if contains(lower, "20分钟") && (contains(lower, "收口") || contains(lower, "计划")) {
        return Some(String::from_str(RECOVERY_ANSWER_2));
    }
    if contains(lower, "复盘") && contains(lower, "模板") {
        return Some(String::from_str(RECOVERY_ANSWER_3));
    }
    if contains(lower, "知识沉淀") {
        return Some(String::from_str(RECOVERY_ANSWER_4));
    }
    if contains(lower, "模型不稳定") && (contains(lower, "停下来") || contains(lower, "判断")) {
        return Some(String::from_str(RECOVERY_ANSWER_5));
    }
    if contains(lower, "429") || contains(lower, "限流") {
        return Some(String::from_str(RECOVERY_ANSWER_6));
    }
    if (contains(lower, "不懂技术") || contains(lower, "最多三条") || contains(lower, "直接告诉我")) && (contains(lower, "下一步") || contains(lower, "该做什么")) {
        return Some(String::from_str(RECOVERY_ANSWER_7));
    }
    if (contains(lower, "啥都不懂") || contains(lower, "不懂技术")) && contains(lower, "第一步") {
        return Some(String::from_str(RECOVERY_ANSWER_8));
    }
    if (contains(lower, "收口") || contains(lower, "验收")) && (contains(lower, "顺序") || contains(lower, "步骤")) {
        return Some(String::from_str(RECOVERY_ANSWER_9));
    }
    if contains(lower, "验收") && (contains(lower, "结论") || contains(lower, "依据") || contains(lower, "风险")) {
        return Some(String::from_str(RECOVERY_ANSWER_10));
    }
    if contains(lower, "做到哪") || contains(lower, "进行到哪") || contains(lower, "未完成") {
        return Some(String::from_str(RECOVERY_ANSWER_11));
    }
    None
}

/// The minimal recovery answer for a question, matched on its trimmed,
/// lower-cased text.
pub fn minimal_recovery_template(user_input: &str) -> (r: Option<String>)
    ensures
        opt_view(r) == minimal_recovery_spec(lowered(user_input@)),
{
    let lower = lowered_text(user_input);
    minimal_recovery_for(lower.as_str())
}

/// The stable answer for a lower-cased question: the first of the fixed
/// templates that matches, else the minimal recovery answer, if any.
pub open spec fn stable_template_spec(l: Seq<char>) -> Option<Seq<char>> {
    if asks_release_check(l) {
        Some(RELEASE_CHECK_ANSWER@)
    } else     if asks_top_three_actions(l) {
        Some(TOP_THREE_ACTIONS_ANSWER@)
    } else     if asks_evidence_readiness(l) {
        Some(EVIDENCE_READINESS_ANSWER@)
    } else     if asks_top_action_reason(l) {
        Some(TOP_ACTION_REASON_ANSWER@)
    } else     if asks_evidence_status(l) {
        Some(EVIDENCE_STATUS_ANSWER@)
    } else     if asks_pause_risk(l) {
        Some(PAUSE_RISK_ANSWER@)
    } else     if asks_acceptance_readiness(l) {
        Some(ACCEPTANCE_READINESS_ANSWER@)
    } else     if asks_priority_three_tasks(l) {
        Some(PRIORITY_THREE_TASKS_ANSWER@)
    } else     if asks_next_step_30min_plan(l) {
        Some(NEXT_STEP_30MIN_PLAN_ANSWER@)
    } else     if asks_one_action_reason(l) {
        Some(ONE_ACTION_REASON_ANSWER@)
    } else     if asks_next_step_four_section(l) {
        Some(NEXT_STEP_FOUR_SECTION_ANSWER@)
    } else     if asks_smalltalk(l) {
        Some(SMALLTALK_ANSWER@)
    } else     if asks_closeout_priority(l) {
        Some(CLOSEOUT_PRIORITY_ANSWER@)
    } else     if asks_instability_decision(l) {
        Some(INSTABILITY_DECISION_ANSWER@)
    } else     if asks_beginner_first_step(l) {
        Some(BEGINNER_FIRST_STEP_ANSWER@)
    } else     if asks_cet_first_step(l) {
        Some(CET_FIRST_STEP_ANSWER@)
    } else     if asks_cet_first_week_plan(l) {
        Some(CET_FIRST_WEEK_PLAN_ANSWER@)
    } else     if asks_cet_listening_boost(l) {
        Some(CET_LISTENING_BOOST_ANSWER@)
    } else     if asks_cet_daily_plan(l) {
        Some(CET_DAILY_PLAN_ANSWER@)
    } else     if asks_cet_vocab_review(l) {
        Some(CET_VOCAB_REVIEW_ANSWER@)
    } else     if asks_fast_checklist(l) {
        Some(FAST_CHECKLIST_ANSWER@)
    } else     if asks_kickoff_message(l) {
        Some(KICKOFF_MESSAGE_ANSWER@)
    } else {
        minimal_recovery_spec(l)
    }
}

/// The stable answer for a lower-cased question: the first template that
/// matches, in the fixed order of `stable_template_spec`.
pub fn stable_template_for(lower: &str) -> (r: Option<String>)
    ensures
        opt_view(r) == stable_template_spec(lower@),
{
    match release_check_for(lower) {
        Some(a) => { return Some(a); },
        None => {},
    }
    match top_three_actions_for(lower) {
        Some(a) => { return Some(a); },
        None => {},
    }
    match evidence_readiness_for(lower) {
        Some(a) => { return Some(a); },
        None => {},
    }
    match top_action_reason_for(lower) {
        Some(a) => { return Some(a); },
        None => {},
    }
    match evidence_status_for(lower) {
        Some(a) => { return Some(a); },
        None => {},
    }
    match pause_risk_for(lower) {
        Some(a) => { return Some(a); },
        None => {},
    }
    match acceptance_readiness_for(lower) {
        Some(a) => { return Some(a); },
        None => {},
    }
    match priority_three_tasks_for(lower) {
        Some(a) => { return Some(a); },
        None => {},
    }
    match next_step_30min_plan_for(lower) {
        Some(a) => { return Some(a); },
        None => {},
    }
    match one_action_reason_for(lower) {
        Some(a) => { return Some(a); },
        None => {},
    }
    match next_step_four_section_for(lower) {
        Some(a) => { return Some(a); },
        None => {},
    }
    match smalltalk_for(lower) {
        Some(a) => { return Some(a); },
        None => {},
    }
    match closeout_priority_for(lower) {
        Some(a) => { return Some(a); },
        None => {},
    }
    match instability_decision_for(lower) {
        Some(a) => { return Some(a); },
        None => {},
    }
    match beginner_first_step_for(lower) {
        Some(a) => { return Some(a); },
        None => {},
    }
    match cet_first_step_for(lower) {
        Some(a) => { return Some(a); },
        None => {},
    }
    match cet_first_week_plan_for(lower) {
        Some(a) => { return Some(a); },
        None => {},
    }
    match cet_listening_boost_for(lower) {
        Some(a) => { return Some(a); },
        None => {},
    }
    match cet_daily_plan_for(lower) {
        Some(a) => { return Some(a); },
        None => {},
    }
    match cet_vocab_review_for(lower) {
        Some(a) => { return Some(a); },
        None => {},
    }
    match fast_checklist_for(lower) {
        Some(a) => { return Some(a); },
        None => {},
    }
    match kickoff_message_for(lower) {
        Some(a) => { return Some(a); },
        None => {},
    }
    minimal_recovery_for(lower)
}

/// The execution that answers a question with its stable template, when one matches.
pub fn stable_template_answer(request: &RunRequest) -> (r: Option<ActionExecution>)
    ensures
        match stable_template_spec(lowered(request.user_input@)) {
            None => r is None,
            Some(a) => r matches Some(e) && plain_execution(
                e,
                "命中本地稳定答复模板。"@,
                "已命中稳定模板并直接生成可执行回答。"@,
                a,
                true,
                None,
                "当前输入命中高频问句模板，优先走本地稳定路径以降低 provider 波动影响。"@,
                "bypass"@,
                "稳定模板回答优先保证可执行和可复测，不依赖本轮模型可用性。"@,
            ),
        },
{
    let input = trimmed(request.user_input.as_str());
    proof { lemma_trim_idempotent(request.user_input@); }
    let lower = lowered_text(input.as_str());
    match stable_template_for(lower.as_str()) {
        None => None,
        Some(template) => Some(ActionExecution::bypass_ok(
            String::from_str("命中本地稳定答复模板。"),
            String::from_str("已命中稳定模板并直接生成可执行回答。"),
            template,
            String::from_str("当前输入命中高频问句模板，优先走本地稳定路径以降低 provider 波动影响。"),
            "稳定模板回答优先保证可执行和可复测，不依赖本轮模型可用性。",
        )),
    }
}

/// The question asks where the work stands or what comes next.
pub open spec fn asks_status_continue(input: Seq<char>) -> bool {
    has_sub(input, "继续推进"@) || has_sub(input, "上次做到哪"@) || has_sub(input, "还差什么"@)
        || has_sub(input, "下一步做什么"@)
}

/// Whether the question asks where the work stands or what comes next.
pub fn is_status_continue_request(input: &str) -> (r: bool)
    ensures
        r == asks_status_continue(input@),
{
    contains(input, "继续推进") || contains(input, "上次做到哪") || contains(input, "还差什么")
        || contains(input, "下一步做什么")
}

/// The value, or the fallback when the value is empty.
pub open spec fn or_fallback(value: Seq<char>, fallback: Seq<char>) -> Seq<char> {
    if value.len() == 0 {
        fallback
    } else {
        value
    }
}

/// The value, or the fallback when the value is empty.
pub fn blank_fallback<'a>(value: &'a str, fallback: &'a str) -> (r: &'a str)
    ensures
        r@ == or_fallback(value@, fallback@),
{
    if value.is_empty() {
        fallback
    } else {
        value
    }
}

/// The next step of a session: the pending confirmation, else the open issue,
/// else the current plan, else a request for a clearer task.
pub open spec fn next_step_spec(short: ShortTermMemory) -> Seq<char> {
    if short.pending_confirmation@.len() > 0 {
        short.pending_confirmation@
    } else if short.open_issue@.len() > 0 {
        short.open_issue@
    } else if short.current_plan@.len() > 0 {
        short.current_plan@
    } else {
        "补充一个更明确的下一步任务"@
    }
}

/// The next step of a session (see `next_step_spec`).
pub fn next_step_text(short: &ShortTermMemory) -> (r: &str)
    ensures
        r@ == next_step_spec(*short),
{
    if !short.pending_confirmation.as_str().is_empty() {
        return short.pending_confirmation.as_str();
    }
    if !short.open_issue.as_str().is_empty() {
        return short.open_issue.as_str();
    }
    if !short.current_plan.as_str().is_empty() {
        return short.current_plan.as_str();
    }
    "补充一个更明确的下一步任务"
}

/// Where a session stands: its goal, plan, open issue and next step.
pub open spec fn continue_summary_spec(session: SessionMemory) -> Seq<char> {
    let short = session.short_term;
    "上次做到哪："@ + or_fallback(short.current_goal@, "当前目标尚未明确"@) + "。当前计划："@
        + or_fallback(short.current_plan@, "当前计划尚未形成"@) + "。还差什么："@
        + or_fallback(short.open_issue@, "当前没有显式阻塞"@) + "。下一步建议："@ + next_step_spec(short)
        + "。"@
}

/// Where a session stands (see `continue_summary_spec`).
pub fn continue_summary(session: &SessionMemory) -> (r: String)
    ensures
        r@ == continue_summary_spec(*session),
{
    let short = &session.short_term;
    let current = blank_fallback(short.current_goal.as_str(), "当前目标尚未明确");
    let plan = blank_fallback(short.current_plan.as_str(), "当前计划尚未形成");
    let issue = blank_fallback(short.open_issue.as_str(), "当前没有显式阻塞");
    let next = next_step_text(short);
    let mut out = String::from_str("上次做到哪：");
    push_str(&mut out, current);
    push_str(&mut out, "。当前计划：");
    push_str(&mut out, plan);
    push_str(&mut out, "。还差什么：");
    push_str(&mut out, issue);
    push_str(&mut out, "。下一步建议：");
    push_str(&mut out, next);
    push_str(&mut out, "。");
    out
}

/// The answer to a question about where the session stands.
pub fn session_continue_answer(request: &RunRequest, session: &SessionMemory) -> (e: ActionExecution)
    ensures
        plain_execution(
            e,
            "基于当前会话状态生成续推回答。"@,
            "已根据最近会话摘要整理上次进展与下一步建议。"@,
            continue_summary_spec(*session) + "\n当前工作区："@ + request.workspace_ref.name@,
            true,
            None,
            "当前输入命中了续推类问题，优先使用短期状态和压缩摘要直接回答。"@,
            "bypass"@,
            "续推回答需要优先反映当前会话最新状态，不直接复用旧缓存。"@,
        ),
{
    let mut answer = continue_summary(session);
    push_str(&mut answer, "\n当前工作区：");
    push_str(&mut answer, request.workspace_ref.name.as_str());
    ActionExecution::bypass_ok(
        String::from_str("基于当前会话状态生成续推回答。"),
        String::from_str("已根据最近会话摘要整理上次进展与下一步建议。"),
        answer,
        String::from_str("当前输入命中了续推类问题，优先使用短期状态和压缩摘要直接回答。"),
        "续推回答需要优先反映当前会话最新状态，不直接复用旧缓存。",
    )
}

/// The result summary of a model answer given from `turns` recent turns.
pub open spec fn context_result_summary_spec(turns: nat) -> Seq<char> {
    "已从最近 "@ + dec(turns) + " 轮会话中提取压缩上下文，并完成一次模型回答。"@
}

/// The result summary of a model answer given from the session's recent turns.
pub fn context_result_summary(session: &SessionMemory) -> (r: String)
    ensures
        r@ == context_result_summary_spec(session.recent_turns@.len()),
{
    let mut out = String::from_str("已从最近 ");
    let n = usize_text(session.recent_turns.len());
    push_str(&mut out, n.as_str());
    push_str(&mut out, " 轮会话中提取压缩上下文，并完成一次模型回答。");
    out
}

/// The text given when the model answer is unavailable and no stable
/// recovery answer applies.
pub const NO_SUMMARY_ANSWER: &'static str = "当前没有可复用的会话摘要。你可以直接补这三项：1) 当前目标；2) 已完成到哪一步；3) 你希望我先给清单、顺序还是排障。";

/// The recovery answer when no model answer can be had: what the session
/// summary says, else the minimal recovery answer, else a request for the
/// missing facts.
pub open spec fn fallback_context_spec(user_input: Seq<char>, session: SessionMemory) -> Seq<char> {
    let summary = trim(session.compressed_summary@);
    if summary.len() > 0 {
        "基于当前会话摘要，可先确认这些信息："@ + summary_of(summary)
    } else {
        match minimal_recovery_spec(lowered(user_input)) {
            Some(a) => a,
            None => NO_SUMMARY_ANSWER@,
        }
    }
}

/// The recovery answer when no model answer can be had (see `fallback_context_spec`).
pub fn fallback_context_summary(user_input: &str, session: &SessionMemory) -> (r: String)
    ensures
        r@ == fallback_context_spec(user_input@, *session),
{
    let summary = trimmed(session.compressed_summary.as_str());
    if !summary.as_str().is_empty() {
        let mut out = String::from_str("基于当前会话摘要，可先确认这些信息：");
        let short = summarize_text(summary.as_str());
        push_str(&mut out, short.as_str());
        return out;
    }
    match minimal_recovery_template(user_input) {
        Some(a) => a,
        None => String::from_str(NO_SUMMARY_ANSWER),
    }
}

/// The scene under which context answers are cached.
pub const CONTEXT_SCENE: &'static str = "context_answer";

/// The answer the model is asked to improve on when the context says little.
pub const LIMITED_CONTEXT_ANSWER: &'static str = "当前基于已有会话上下文，可明确的信息还比较有限。";

/// The lookup of a context answer: bypassed when the session has no
/// summary, else the scene's lookup of the input against the summary.
pub open spec fn context_probe_ok(
    p: AnswerCacheProbe,
    request: RunRequest,
    session: SessionMemory,
    entries: Seq<AnswerCacheEntry>,
) -> bool {
    let key = cache_key_spec(CONTEXT_SCENE@, request.user_input@, session.compressed_summary@);
    &&& p.answer is Some ==> p.status@ == "hit"@
    &&& trim(session.compressed_summary@).len() == 0 ==> p.status@ == "bypass"@ && p.reason@
        == "当前会话摘要为空，直接走模型回答路径。"@ && p.answer is None
    &&& trim(session.compressed_summary@).len() > 0 ==> p.cache_key@ == key && (!has_key(entries, key)
        ==> p.status@ == "miss"@ && p.answer is None) && (has_key(entries, key) ==> forall|j: int| #[trigger]
        last_with_key(entries, key, j) ==> p.status@ == "hit"@ && opt_view(p.answer) == Some(entries[j].answer@)
        && opt_view(p.summary) == Some(entries[j].summary@) && p.reason@ == HIT_REASON@)
}

/// The cache lookup of a context answer (see `context_probe_ok`).
pub fn probe_context_cache(
    request: &RunRequest,
    session: &SessionMemory,
    entries: &Vec<AnswerCacheEntry>,
) -> (p: AnswerCacheProbe)
    ensures
        context_probe_ok(p, *request, *session, entries@),
{
    let summary = trimmed(session.compressed_summary.as_str());
    probe_answer_cache_or_bypass(
        CONTEXT_SCENE,
        request.user_input.as_str(),
        session.compressed_summary.as_str(),
        !summary.as_str().is_empty(),
        "当前会话摘要为空，直接走模型回答路径。",
        entries,
    )
}

/// The reasoning of a context answer reused from the cache.
pub open spec fn cache_hit_reasoning(session: SessionMemory) -> Seq<char> {
    cached_reasoning_spec("当前输入与会话摘要"@, session.compressed_summary@) + "。会话轮次："@ + dec(
        session.recent_turns@.len(),
    ) + "。"@
}

/// The context answer taken from the cache, when the lookup hit.
pub fn context_cache_hit(session: &SessionMemory, probe: &AnswerCacheProbe) -> (r: Option<ActionExecution>)
    ensures
        match probe.answer {
            None => r is None,
            Some(a) => r matches Some(e) && plain_execution(
                e,
                "基于会话压缩摘要继续回答。"@,
                match probe.summary {
                    Some(s) => s@,
                    None => "已复用本地缓存回答。"@,
                },
                a@,
                true,
                None,
                cache_hit_reasoning(*session),
                probe.status@,
                probe.reason@,
            ),
        },
{
    let answer = match &probe.answer {
        Some(a) => a.clone(),
        None => { return None; },
    };
    let mut reasoning = cached_answer_reasoning("当前输入与会话摘要", session.compressed_summary.as_str());
    push_str(&mut reasoning, "。会话轮次：");
    let n = usize_text(session.recent_turns.len());
    push_str(&mut reasoning, n.as_str());
    push_str(&mut reasoning, "。");
    Some(cached_answer("基于会话压缩摘要继续回答。", probe, answer, reasoning))
}

/// The execution of a context answer that the model gave.
pub fn ok_context_answer(probe: &AnswerCacheProbe, result_summary: String, final_answer: String) -> (e: ActionExecution)
    ensures
        plain_execution(
            e,
            "基于会话压缩摘要继续回答。"@,
            result_summary@,
            final_answer@,
            true,
            None,
            "先读取最近会话压缩摘要，再结合当前输入组织续答。"@ + probe.reason@,
            probe.status@,
            probe.reason@,
        ),
{
    let mut reasoning = String::from_str("先读取最近会话压缩摘要，再结合当前输入组织续答。");
    push_str(&mut reasoning, probe.reason.as_str());
    ActionExecution::cached_ok(
        String::from_str("基于会话压缩摘要继续回答。"),
        result_summary,
        final_answer,
        reasoning,
        probe.status.clone(),
        probe.reason.clone(),
    )
}

/// The execution of a context answer recovered from the session summary.
pub fn recovered_context_answer(probe: &AnswerCacheProbe, cause: &str, summary: String) -> (e: ActionExecution)
    ensures
        plain_execution(
            e,
            "基于会话压缩摘要继续回答。"@,
            "模型主回答失败，已执行单次恢复："@ + cause@,
            summary@,
            true,
            None,
            "模型回答不可用，已降级为会话摘要恢复路径。"@ + probe.reason@,
            probe.status@,
            probe.reason@,
        ),
{
    let mut result = String::from_str("模型主回答失败，已执行单次恢复：");
    push_str(&mut result, cause);
    let mut reasoning = String::from_str("模型回答不可用，已降级为会话摘要恢复路径。");
    push_str(&mut reasoning, probe.reason.as_str());
    ActionExecution::cached_ok(
        String::from_str("基于会话压缩摘要继续回答。"),
        result,
        summary,
        reasoning,
        probe.status.clone(),
        probe.reason.clone(),
    )
}

/// The model's answer is unusable, or says no more than the fallback.
pub open spec fn should_recover_spec(content: Seq<char>, final_answer: Seq<char>) -> bool {
    !usable_spec(content) || trim(final_answer) == LIMITED_CONTEXT_ANSWER@
}

/// Whether the model's answer must be replaced by the recovery answer.
pub fn should_recover_context_answer(content: &str, final_answer: &str) -> (r: bool)
    ensures
        r == should_recover_spec(content@, final_answer@),
{
    let t = trimmed(final_answer);
    !is_answer_usable(content) || str_eq(t.as_str(), LIMITED_CONTEXT_ANSWER)
}

/// The cache entry of a context answer (see `answer_cache_entry`).
pub fn append_context_answer_cache(
    probe: &AnswerCacheProbe,
    user_input: &str,
    answer: &str,
    summary: &str,
    session: &SessionMemory,
    created_at: &str,
) -> (r: Option<AnswerCacheEntry>)
    ensures
        r is Some <==> records_answer(*probe, answer@),
        r matches Some(e) ==> e.cache_key@ == probe.cache_key@ && e.scene@ == CONTEXT_SCENE@ && e.user_input@
            == summary_spec_of(user_input@) && e.context_digest@ == summary_spec_of(session.compressed_summary@)
            && e.answer@ == answer@ && e.summary@ == summary_spec_of(summary@) && e.created_at@ == created_at@,
{
    answer_cache_entry(probe, CONTEXT_SCENE, user_input, session.compressed_summary.as_str(), answer, summary, created_at)
}

/// The recovery answer of a context answer for `cause`, and its cache entry.
pub open spec fn recovered_context_outcome(
    r: (ActionExecution, Option<AnswerCacheEntry>),
    request: RunRequest,
    session: SessionMemory,
    probe: AnswerCacheProbe,
    cause: Seq<char>,
) -> bool {
    let fallback = fallback_context_spec(request.user_input@, session);
    &&& plain_execution(r.0, "基于会话压缩摘要继续回答。"@, "模型主回答失败，已执行单次恢复："@ + cause, fallback, true,
        None, "模型回答不可用，已降级为会话摘要恢复路径。"@ + probe.reason@, probe.status@, probe.reason@)
    &&& (r.1 is Some <==> records_answer(probe, fallback))
    &&& (r.1 matches Some(e) ==> e.answer@ == fallback && e.summary@ == summary_spec_of(cause) && e.cache_key@
        == probe.cache_key@)
}

/// The context answer made of the model's reply `content`, and its cache
/// entry: the cleaned reply when it is usable and says more than the
/// fallback, else the recovery answer.
pub open spec fn context_reply_outcome(
    r: (ActionExecution, Option<AnswerCacheEntry>),
    request: RunRequest,
    session: SessionMemory,
    probe: AnswerCacheProbe,
    content: Seq<char>,
) -> bool {
    let fin = sanitize_spec(content, LIMITED_CONTEXT_ANSWER@);
    if should_recover_spec(content, fin) {
        recovered_context_outcome(r, request, session, probe, "模型输出不可用"@)
    } else {
        let summary = context_result_summary_spec(session.recent_turns@.len());
        &&& plain_execution(r.0, "基于会话压缩摘要继续回答。"@, summary, fin, true, None,
            "先读取最近会话压缩摘要，再结合当前输入组织续答。"@ + probe.reason@, probe.status@, probe.reason@)
        &&& (r.1 is Some <==> records_answer(probe, fin))
        &&& (r.1 matches Some(e) ==> e.answer@ == fin && e.summary@ == summary_spec_of(summary) && e.cache_key@
            == probe.cache_key@)
    }
}

/// The recovery answer when the model failed for `cause`, and its cache entry.
pub fn recover_context_answer(
    request: &RunRequest,
    session: &SessionMemory,
    probe: &AnswerCacheProbe,
    cause: &str,
    created_at: &str,
) -> (r: (ActionExecution, Option<AnswerCacheEntry>))
    ensures
        recovered_context_outcome(r, *request, *session, *probe, cause@),
{
    let summary = fallback_context_summary(request.user_input.as_str(), session);
    let entry = append_context_answer_cache(probe, request.user_input.as_str(), summary.as_str(), cause, session, created_at);
    (recovered_context_answer(probe, cause, summary), entry)
}

/// The context answer from the model's reply, and its cache entry: the
/// cleaned reply when it is usable and says more than the fallback, else the
/// recovery answer.
pub fn context_answer_success(
    request: &RunRequest,
    session: &SessionMemory,
    probe: &AnswerCacheProbe,
    content: &str,
    created_at: &str,
) -> (r: (ActionExecution, Option<AnswerCacheEntry>))
    ensures
        context_reply_outcome(r, *request, *session, *probe, content@),
{
    let final_answer = sanitize_answer(content, LIMITED_CONTEXT_ANSWER);
    if should_recover_context_answer(content, final_answer.as_str()) {
        return recover_context_answer(request, session, probe, "模型输出不可用", created_at);
    }
    let result_summary = context_result_summary(session);
    let entry = append_context_answer_cache(
        probe,
        request.user_input.as_str(),
        final_answer.as_str(),
        result_summary.as_str(),
        session,
        created_at,
    );
    (ok_context_answer(probe, result_summary, final_answer), entry)
}

/// Where a context answer stands before any model call.
pub enum ContextAnswerStep {
    /// The answer is given without the model.
    Answered(ActionExecution),
    /// The model is to be asked; the cache lookup that missed or was bypassed.
    NeedsModel(AnswerCacheProbe),
}

/// The first part of a context answer: a status question is answered from
/// the session state, a frequent question from its stable template, a cached
/// question from the cache; anything else needs the model.
pub fn execute_context_answer(
    request: &RunRequest,
    session: &SessionMemory,
    entries: &Vec<AnswerCacheEntry>,
) -> (r: ContextAnswerStep)
    ensures
        asks_status_continue(request.user_input@) ==> (r matches ContextAnswerStep::Answered(e) && plain_execution(
            e,
            "基于当前会话状态生成续推回答。"@,
            "已根据最近会话摘要整理上次进展与下一步建议。"@,
            continue_summary_spec(*session) + "\n当前工作区："@ + request.workspace_ref.name@,
            true,
            None,
            "当前输入命中了续推类问题，优先使用短期状态和压缩摘要直接回答。"@,
            "bypass"@,
            "续推回答需要优先反映当前会话最新状态，不直接复用旧缓存。"@,
        )),
        !asks_status_continue(request.user_input@) && stable_template_spec(lowered(request.user_input@)) is Some
            ==> (r matches ContextAnswerStep::Answered(e) && e.final_answer@ == stable_template_spec(
            lowered(request.user_input@),
        )->0 && e.cache_status@ == "bypass"@),
        !asks_status_continue(request.user_input@) && stable_template_spec(lowered(request.user_input@)) is None
            ==> match r {
            ContextAnswerStep::Answered(e) => {
                let key = cache_key_spec(CONTEXT_SCENE@, request.user_input@, session.compressed_summary@);
                &&& trim(session.compressed_summary@).len() > 0
                &&& has_key(entries@, key)
                &&& forall|j: int| #[trigger] last_with_key(entries@, key, j) ==> plain_execution(
                    e,
                    "基于会话压缩摘要继续回答。"@,
                    entries@[j].summary@,
                    entries@[j].answer@,
                    true,
                    None,
                    cache_hit_reasoning(*session),
                    "hit"@,
                    HIT_REASON@,
                )
            },
            ContextAnswerStep::NeedsModel(p) => context_probe_ok(p, *request, *session, entries@) && p.answer is None,
        },
{
    if is_status_continue_request(request.user_input.as_str()) {
        return ContextAnswerStep::Answered(session_continue_answer(request, session));
    }
    match stable_template_answer(request) {
        Some(stable) => { return ContextAnswerStep::Answered(stable); },
        None => {},
    }
    let probe = probe_context_cache(request, session, entries);
    match context_cache_hit(session, &probe) {
        Some(hit) => ContextAnswerStep::Answered(hit),
        None => ContextAnswerStep::NeedsModel(probe),
    }
}

/// The second part of a context answer, given the model's reply or the
/// error it failed with, and the cache entry to record.
pub fn finish_context_answer(
    request: &RunRequest,
    session: &SessionMemory,
    probe: &AnswerCacheProbe,
    reply: Result<String, String>,
    created_at: &str,
) -> (r: (ActionExecution, Option<AnswerCacheEntry>))
    ensures
        match reply {
            Err(error) => recovered_context_outcome(r, *request, *session, *probe, error@),
            Ok(content) => context_reply_outcome(r, *request, *session, *probe, content@),
        },
{
    match reply {
        Ok(content) => context_answer_success(request, session, probe, content.as_str(), created_at),
        Err(error) => recover_context_answer(request, session, probe, error.as_str(), created_at),
    }
}

} // verus!
