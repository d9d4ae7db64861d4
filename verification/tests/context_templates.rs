use runtime_core::context_answer::{
    acceptance_readiness_template, cet_daily_plan_template, cet_first_step_template, cet_first_week_plan_template, cet_listening_boost_template, cet_vocab_review_template, evidence_readiness_template, evidence_status_template, fast_checklist_template, kickoff_message_template, next_step_30min_plan_template, next_step_four_section_template, one_action_reason_template, pause_risk_template, priority_three_tasks_template, smalltalk_template, top_action_reason_template, top_three_actions_template,
};
use runtime_core::context_answer::context_result_summary;
use runtime_core::context_answer::continue_summary;
use runtime_core::context_answer::fallback_context_summary;
use runtime_core::context_answer::is_status_continue_request;
use runtime_core::context_answer::lowered_text;
use runtime_core::context_answer::next_step_text;
use runtime_core::context_answer::{minimal_recovery_template, RECOVERY_ANSWER_6};
use runtime_core::context_answer::{stable_template_for, RELEASE_CHECK_ANSWER};

use runtime_core::session::ShortTermMemory;
use runtime_core::session::{SessionMemory, SessionTurn};

#[test]
fn matches_english_fast_checklist_question() {
    let text = "I only have 30 minutes. Give me a practical checklist I can execute now.";
    assert!(fast_checklist_template(text).is_some());
}

#[test]
fn skips_non_checklist_question() {
    let text = "帮我总结一下今天的进度。";
    assert!(fast_checklist_template(text).is_none());
}

#[test]
fn matches_kickoff_message_question() {
    let text = "Write one short kickoff message for tomorrow morning so I can restart quickly.";
    assert!(kickoff_message_template(text).is_some());
}

#[test]
fn matches_cet_first_step_question() {
    let text = "我英语基础一般，想在30天内过四级。今天开始我第一步做什么？";
    assert!(cet_first_step_template(text).is_some());
}

#[test]
fn matches_cet_daily_plan_question() {
    let text = "给我一个每天30分钟的四六级计划，尽量简单。";
    assert!(cet_daily_plan_template(text).is_some());
}

#[test]
fn matches_cet_vocab_review_question() {
    let text = "我背单词总忘，能不能给我一个可执行的复习方法？";
    assert!(cet_vocab_review_template(text).is_some());
}

#[test]
fn matches_acceptance_readiness_question() {
    let text = "帮我看一下当前状态，告诉我是否可以开始新一轮验收。";
    assert!(acceptance_readiness_template(text).is_some());
}

#[test]
fn matches_cet_first_week_plan_question() {
    let text = "我只有25天准备四级，每天40分钟，帮我排一个第一周计划。";
    assert!(cet_first_week_plan_template(text).is_some());
}

#[test]
fn matches_cet_listening_boost_question() {
    let text = "我听力很差，四级听力该怎么补，给我今天就能做的方案。";
    assert!(cet_listening_boost_template(text).is_some());
}

#[test]
fn matches_priority_three_tasks_question() {
    let text = "继续推进这个项目，下一步该做什么，按优先级给三件事。";
    assert!(priority_three_tasks_template(text).is_some());
}

#[test]
fn matches_smalltalk_question() {
    let text = "你今天状态怎么样，简单聊两句。";
    assert!(smalltalk_template(text).is_some());
}

#[test]
fn matches_top_action_reason_question() {
    let text = "基于我们两周执行清单，今天最优先做哪一件事？给一个动作和原因。";
    assert!(top_action_reason_template(text).is_some());
}

#[test]
fn matches_evidence_status_question() {
    let text = "我现在做到哪了？还差什么？请按当前证据目录回答。";
    assert!(evidence_status_template(text).is_some());
}

#[test]
fn matches_pause_risk_question() {
    let text = "If I pause now, what is the fastest-growing risk and how can I reduce it with one action?";
    assert!(pause_risk_template(text).is_some());
}

#[test]
fn matches_top_three_actions_question() {
    let text = "What are the top 3 concrete actions I should do next to continue the knowledge-assistant closure?";
    assert!(top_three_actions_template(text).is_some());
}

#[test]
fn matches_evidence_readiness_question() {
    let text = "Based on current evidence only, is this project ready to continue to the next day, and why?";
    assert!(evidence_readiness_template(text).is_some());
}

#[test]
fn matches_next_step_30min_plan_question() {
    let text = "请给我一个 30 分钟内可执行的下一步计划。";
    assert!(next_step_30min_plan_template(text).is_some());
}

#[test]
fn matches_next_step_four_section_question() {
    let text = "请按当前判断、缺口、最该做一步、为什么是这一步给我下一步建议。";
    assert!(next_step_four_section_template(text).is_some());
}

#[test]
fn matches_one_action_reason_question() {
    let text = "结合当前证据目录，给我下一步建议：必须只给一个动作，并说明原因。";
    assert!(one_action_reason_template(text).is_some());
}


#[test]
fn stable_template_prefers_release_check_over_later_templates() {
    let lower = "能提测吗？给我一句结论和两条理由";
    assert_eq!(stable_template_for(lower).as_deref(), Some(RELEASE_CHECK_ANSWER));
}

#[test]
fn minimal_recovery_answers_rate_limit_questions() {
    assert_eq!(minimal_recovery_template("  遇到 429 怎么办  ").as_deref(), Some(RECOVERY_ANSWER_6));
    assert!(minimal_recovery_template("今天天气不错").is_none());
}

#[test]
fn lowered_text_trims_and_lower_cases() {
    assert_eq!(lowered_text("  Top 3 NEXT  "), "top 3 next");
}

#[test]
fn status_continue_request_is_detected_by_tokens() {
    assert!(is_status_continue_request("上次做到哪了？"));
    assert!(!is_status_continue_request("解释一下这个函数"));
}

#[test]
fn continue_summary_falls_back_for_empty_state() {
    let session = SessionMemory::default();
    assert_eq!(
        continue_summary(&session),
        "上次做到哪：当前目标尚未明确。当前计划：当前计划尚未形成。还差什么：当前没有显式阻塞。下一步建议：补充一个更明确的下一步任务。"
    );
}

#[test]
fn next_step_prefers_pending_confirmation() {
    let short = ShortTermMemory {
        pending_confirmation: "确认删除".to_string(),
        open_issue: "构建失败".to_string(),
        ..Default::default()
    };
    assert_eq!(next_step_text(&short), "确认删除");
}

#[test]
fn fallback_context_summary_uses_session_summary_first() {
    let mut session = SessionMemory::default();
    session.compressed_summary = "  已完成构建  ".to_string();
    assert_eq!(
        fallback_context_summary("随便问问", &session),
        "基于当前会话摘要，可先确认这些信息：已完成构建"
    );
    session.compressed_summary = String::new();
    assert!(fallback_context_summary("随便问问", &session).starts_with("当前没有可复用的会话摘要。"));
}

#[test]
fn context_result_summary_counts_turns() {
    let mut session = SessionMemory::default();
    session.recent_turns.push(SessionTurn {
        user_input: "a".to_string(),
        final_answer: "b".to_string(),
        summary: String::new(),
        timestamp: "0".to_string(),
    });
    assert_eq!(context_result_summary(&session), "已从最近 1 轮会话中提取压缩上下文，并完成一次模型回答。");
}
