use runtime_core::knowledge_store::{
    has_knowledge_record, retry_cortex_ingest_operation, same_record, should_skip_knowledge_record,
    should_sync_to_cortex, KnowledgeRecord,
};
use runtime_core::sensitive::contains_sensitive_text;

fn runtime_record(id: &str, summary: &str) -> KnowledgeRecord {
    KnowledgeRecord {
        id: id.to_string(),
        knowledge_type: "workflow_pattern".to_string(),
        title: "title".to_string(),
        summary: summary.to_string(),
        content: "content".to_string(),
        tags: vec!["agent_resolve".to_string()],
        source: "run:1".to_string(),
        source_type: "runtime".to_string(),
        verified: true,
        workspace_id: "main".to_string(),
        priority: 0,
        archived: false,
        created_at: "1".to_string(),
        updated_at: "1".to_string(),
    }
}

#[test]
fn sync_enabled_for_agent_resolve_workflow_pattern() {
    let record = KnowledgeRecord {
        id: "k1".to_string(),
        knowledge_type: "workflow_pattern".to_string(),
        title: "title".to_string(),
        summary: "summary long enough for sync".to_string(),
        content: "content".to_string(),
        tags: vec!["agent_resolve".to_string(), "main".to_string()],
        source: "run:1".to_string(),
        source_type: "runtime".to_string(),
        verified: true,
        workspace_id: "main".to_string(),
        priority: 0,
        archived: false,
        created_at: "1".to_string(),
        updated_at: "1".to_string(),
    };
    assert!(should_sync_to_cortex(&record));
}

#[test]
fn sync_disabled_for_non_runtime_records() {
    let record = KnowledgeRecord {
        id: "k2".to_string(),
        knowledge_type: "workflow_pattern".to_string(),
        title: "title".to_string(),
        summary: "summary".to_string(),
        content: "content".to_string(),
        tags: vec!["agent_resolve".to_string()],
        source: "manual".to_string(),
        source_type: "manual".to_string(),
        verified: true,
        workspace_id: "main".to_string(),
        priority: 0,
        archived: false,
        created_at: "1".to_string(),
        updated_at: "1".to_string(),
    };
    assert!(!should_sync_to_cortex(&record));
}

#[test]
fn retry_ingest_operation_returns_success_attempt() {
    let mut calls = 0_u8;
    let result = retry_cortex_ingest_operation(|_| {
        calls += 1;
        if calls < 3 {
            return Err("transient".to_string());
        }
        Ok(())
    });
    assert_eq!(result, Ok(3));
}

#[test]
fn retry_ingest_operation_keeps_timeout_error_trace() {
    let result = retry_cortex_ingest_operation(|_| Err("Operation timed out".to_string()));
    let error = result.expect_err("should fail");
    assert!(error.contains("retry exhausted"));
    assert!(error.contains("attempt=3/3"));
    assert!(error.contains("Operation timed out"));
}

#[test]
fn sensitive_record_is_skipped() {
    let mut record = runtime_record("k5", "summary long enough for sensitive check");
    record.content = "authorization: bearer sk-test-token".to_string();
    let skip = should_skip_knowledge_record(&record).expect("sensitive should be skipped");
    assert!(skip.reason.contains("敏感信息"));
}

#[test]
fn email_record_is_skipped() {
    let mut record = runtime_record("k7", "summary long enough for email sensitive check");
    record.content = "contact: user.demo@example.com".to_string();
    let skip = should_skip_knowledge_record(&record).expect("email should be skipped");
    assert!(skip.reason.contains("敏感信息"));
}

#[test]
fn phone_record_is_skipped() {
    let mut record = runtime_record("k8", "summary long enough for phone sensitive check");
    record.content = "联系电话 13800138000".to_string();
    let skip = should_skip_knowledge_record(&record).expect("phone should be skipped");
    assert!(skip.reason.contains("敏感信息"));
}

#[test]
fn id_card_record_is_skipped() {
    let mut record = runtime_record("k9", "summary long enough for id-card sensitive check");
    record.content = "身份证 11010519491231002X".to_string();
    let skip = should_skip_knowledge_record(&record).expect("id card should be skipped");
    assert!(skip.reason.contains("敏感信息"));
}

#[test]
fn normal_record_not_skipped() {
    let record = runtime_record("k6", "summary long enough without secret marker");
    assert!(should_skip_knowledge_record(&record).is_none());
}

#[test]
fn short_or_unverified_records_are_skipped_with_their_reasons() {
    let short = runtime_record("k10", "too short");
    assert_eq!(
        should_skip_knowledge_record(&short).unwrap().reason,
        "命中低价值知识拦截：摘要过短，缺少跨任务复用价值。"
    );
    let mut unverified = runtime_record("k11", "summary long enough but not verified yet");
    unverified.verified = false;
    assert_eq!(
        should_skip_knowledge_record(&unverified).unwrap().reason,
        "命中低价值知识拦截：当前结果未验证通过。"
    );
    let mut echo = runtime_record("k12", "summary long enough for a project echo");
    echo.title = "项目说明".to_string();
    assert_eq!(
        should_skip_knowledge_record(&echo).unwrap().reason,
        "命中低价值运行时知识治理规则：项目说明回显不进入知识层。"
    );
}

#[test]
fn sensitive_text_detects_only_bounded_numbers() {
    assert!(contains_sensitive_text("call 13800138000 now"));
    assert!(!contains_sensitive_text("order 138001380001"));
    assert!(!contains_sensitive_text("a@b"));
    assert!(contains_sensitive_text("PASSWORD=hunter2"));
    assert!(!contains_sensitive_text("plain text"));
}

#[test]
fn same_record_matches_identity_or_summary() {
    let a = runtime_record("k1", "summary long enough for matching");
    let mut b = runtime_record("k2", "other summary that is long enough");
    assert!(same_record(&a, &b));
    b.source = "run:2".to_string();
    assert!(!same_record(&a, &b));
    assert!(!has_knowledge_record(&vec![b.clone()], &a));
    assert!(has_knowledge_record(&vec![b, a.clone()], &a));
}
