use runtime_core::answer_cache::AnswerCacheProbe;
use runtime_core::knowledge::KnowledgeHit;
use runtime_core::project_answer::{
    build_project_context, fallback_project_summary, finalized_project_answer, has_cjk_text, is_project_status_request,
    project_context_fallback_query, project_result_summary, project_status_doc_paths, project_status_known_summary,
    project_status_section, recovered_project_answer, sanitize_project_answer, should_recover_project_answer,
    stable_project_status_answer, DEFAULT_PROJECT_ANSWER, GENERIC_STATUS_ANSWER, NO_SNIPPETS,
};

fn hit(path: &str, snippet: &str) -> KnowledgeHit {
    KnowledgeHit {
        path: path.to_string(),
        snippet: snippet.to_string(),
        source_type: "file".to_string(),
        source_label: "文档".to_string(),
        knowledge_type: "doc".to_string(),
        confidence: "中".to_string(),
        updated_at: "1".to_string(),
        reason: "r".to_string(),
    }
}

#[test]
fn recognizes_stage_h_pause_question_as_status_request() {
    let input = "我现在接手这个项目，请直接告诉我：当前停在什么状态、为什么不能继续默认推进、以及以后满足什么条件才值得重启。";
    assert!(is_project_status_request(input));
}

#[test]
fn prefers_hermes_pause_answer_for_gate_h_context() {
    let snippets = "当前阶段：阶段 H。当前 Gate：Gate-H（执行中，未签收）。当前活跃 change：H-gate-h-signoff-20260416。当前主推进：Gate-H 聚合复核。";
    let answer = stable_project_status_answer(snippets);
    assert!(answer.contains("Gate-H"));
    assert!(answer.contains("不可签收"));
    assert!(answer.contains("重新启动下一轮推进"));
}

#[test]
fn project_result_summary_prefers_current_state_first() {
    let snippets = "文件：D:\\newwork\\本地智能体\\docs\\11-hermes-rebuild\\current-state.md\n摘要：当前阶段：阶段 H。当前 Gate：Gate-H（执行中，未签收）。\n\n文件：D:\\newwork\\本地智能体\\docs\\README.md\n摘要：Docs 导航。";
    let summary = project_result_summary(snippets);
    assert!(summary.contains("current-state.md"));
}

#[test]
fn general_questions_are_not_status_requests() {
    assert!(!is_project_status_request("这个项目是做什么的"));
    assert_eq!(project_context_fallback_query("这个项目是做什么的"), "项目 智能体 本地 主干 架构 运行时");
    assert!(project_context_fallback_query("还差什么").starts_with("阶段 H Gate-H"));
}

#[test]
fn stable_answer_falls_back_to_generic() {
    assert_eq!(stable_project_status_answer("没有线索"), GENERIC_STATUS_ANSWER);
    assert!(stable_project_status_answer("受控命令执行").starts_with("已完成能力：在线模型对话主链路"));
    assert!(stable_project_status_answer("工作包 D").contains("忠实用户转化导向收口期"));
}

#[test]
fn context_prefers_status_sections_then_hits() {
    let sections = vec![project_status_section("docs/README.md", "导航")];
    assert_eq!(build_project_context("当前阶段是什么", &sections, &[]), "文件：docs/README.md\n摘要：导航");
    assert_eq!(build_project_context("介绍项目", &sections, &[]), NO_SNIPPETS);
    let hits = vec![hit("a.md", "x"), hit("b.md", "y")];
    assert_eq!(build_project_context("介绍项目", &[], &hits), "文件：a.md\n片段：x\n\n文件：b.md\n片段：y");
}

#[test]
fn status_documents_start_with_current_state() {
    let paths = project_status_doc_paths();
    assert_eq!(paths.len(), 13);
    assert_eq!(paths[0], "11-hermes-rebuild/current-state.md");
    assert!(project_status_known_summary("第二阶段需求文档_V1.md").unwrap().starts_with("定位为面向长期学习"));
    assert!(project_status_known_summary("README.md").is_none());
}

#[test]
fn unusable_answers_fall_back() {
    assert!(has_cjk_text("中文"));
    assert!(!has_cjk_text("english only"));
    assert_eq!(sanitize_project_answer("english only", DEFAULT_PROJECT_ANSWER), DEFAULT_PROJECT_ANSWER);
    assert_eq!(sanitize_project_answer("D:/repo/docs/a.md", "兜底"), "兜底");
    assert_eq!(sanitize_project_answer("这是项目说明。", "兜底"), "这是项目说明。");
    assert!(should_recover_project_answer("english", "x"));
    assert!(should_recover_project_answer("这是说明。", DEFAULT_PROJECT_ANSWER));
    assert!(!should_recover_project_answer("这是说明。", "这是说明。"));
}

#[test]
fn status_question_gets_stable_answer_over_model_text() {
    let answer = finalized_project_answer("现在进度如何", "模型的回答。", "阶段 H");
    assert!(answer.starts_with("当前停在阶段 H"));
}

#[test]
fn fallback_summary_by_context() {
    assert!(fallback_project_summary(NO_SNIPPETS).starts_with("当前缺少可复用的项目文档片段"));
    assert!(fallback_project_summary("普通文本").starts_with("当前项目是一个围绕运行时"));
    let probe = AnswerCacheProbe {
        cache_key: "k".to_string(),
        status: "miss".to_string(),
        reason: "未命中。".to_string(),
        answer: None,
        summary: None,
    };
    let e = recovered_project_answer(&probe, "超时", "摘要".to_string());
    assert_eq!(e.result_summary, "项目说明主回答失败，已执行单次恢复：超时");
    assert_eq!(e.final_answer, "主回答未成功，已切换到项目文档恢复路径。\n摘要");
    assert_eq!(e.cache_status, "miss");
}
