//! The governance of stored knowledge records: which records are kept out
//! of the knowledge base, which ones count as the same, and which ones are
//! copied to the external memory service.
use vstd::prelude::*;
use crate::knowledge::{attempt_error, attempt_error_spec, CORTEX_RETRY_ATTEMPTS};
use crate::sensitive::{contains_sensitive_text, sensitive_spec};
use crate::text::{char_count, contains, has_prefix, has_sub, push_str, starts_with, str_eq, views};

verus! {

/// One record of the knowledge base.
#[derive(Clone, Debug)]
pub struct KnowledgeRecord {
    pub id: String,
    pub knowledge_type: String,
    pub title: String,
    pub summary: String,
    pub content: String,
    pub tags: Vec<String>,
    pub source: String,
    pub source_type: String,
    pub verified: bool,
    pub workspace_id: String,
    pub priority: i32,
    pub archived: bool,
    pub created_at: String,
    pub updated_at: String,
}

/// Why a record was kept out of the knowledge base.
#[derive(Clone, Debug)]
pub struct KnowledgeSkip {
    pub reason: String,
}

/// The two records have the same workspace, title, source and source type.
pub open spec fn same_identity_spec(a: KnowledgeRecord, b: KnowledgeRecord) -> bool {
    a.workspace_id@ == b.workspace_id@ && a.title@ == b.title@ && a.source@ == b.source@ && a.source_type@
        == b.source_type@
}

/// The two records have the same workspace, title, summary and source type.
pub open spec fn same_summary_spec(a: KnowledgeRecord, b: KnowledgeRecord) -> bool {
    a.workspace_id@ == b.workspace_id@ && a.title@ == b.title@ && a.summary@ == b.summary@ && a.source_type@
        == b.source_type@
}

/// The two records count as the same.
pub open spec fn same_record_spec(a: KnowledgeRecord, b: KnowledgeRecord) -> bool {
    same_identity_spec(a, b) || same_summary_spec(a, b)
}

/// Whether the two records have the same identity.
pub fn same_identity(current: &KnowledgeRecord, target: &KnowledgeRecord) -> (r: bool)
    ensures
        r == same_identity_spec(*current, *target),
{
    str_eq(current.workspace_id.as_str(), target.workspace_id.as_str()) && str_eq(
        current.title.as_str(),
        target.title.as_str(),
    ) && str_eq(current.source.as_str(), target.source.as_str()) && str_eq(
        current.source_type.as_str(),
        target.source_type.as_str(),
    )
}

/// Whether the two records have the same summary.
pub fn same_summary(current: &KnowledgeRecord, target: &KnowledgeRecord) -> (r: bool)
    ensures
        r == same_summary_spec(*current, *target),
{
    str_eq(current.workspace_id.as_str(), target.workspace_id.as_str()) && str_eq(
        current.title.as_str(),
        target.title.as_str(),
    ) && str_eq(current.summary.as_str(), target.summary.as_str()) && str_eq(
        current.source_type.as_str(),
        target.source_type.as_str(),
    )
}

/// Whether the two records count as the same.
pub fn same_record(current: &KnowledgeRecord, target: &KnowledgeRecord) -> (r: bool)
    ensures
        r == same_record_spec(*current, *target),
{
    same_identity(current, target) || same_summary(current, target)
}

/// Whether the stored records hold one that counts as the same as `record`.
pub fn has_knowledge_record(records: &Vec<KnowledgeRecord>, record: &KnowledgeRecord) -> (r: bool)
    ensures
        r == exists|j: int| 0 <= j < records@.len() && #[trigger] same_record_spec(records@[j], *record),
{
    let mut i: usize = 0;
    while i < records.len()
        invariant
            i <= records@.len(),
            forall|j: int| 0 <= j < i ==> !#[trigger] same_record_spec(records@[j], *record),
        decreases records.len() - i,
    {
        if same_record(&records[i], record) {
            return true;
        }
        i = i + 1;
    }
    false
}

/// The record is a user-confirmed one with this title and summary.
pub open spec fn reusable_siyuan_spec(r: KnowledgeRecord, title: Seq<char>, summary: Seq<char>) -> bool {
    r.source_type@ == "siyuan"@ && r.title@ == title && r.summary@ == summary
}

fn copy_strings(list: &Vec<String>) -> (r: Vec<String>)
    ensures
        r@ == list@,
{
    let mut out: Vec<String> = Vec::new();
    let mut i: usize = 0;
    while i < list.len()
        invariant
            i <= list@.len(),
            out@ == list@.take(i as int),
        decreases list.len() - i,
    {
        out.push(list[i].clone());
        i = i + 1;
        assert(out@ =~= list@.take(i as int));
    }
    assert(list@.take(list@.len() as int) =~= list@);
    out
}

/// `c` holds the same fields as `r`, its tags as a copy.
pub open spec fn record_copy_of(c: KnowledgeRecord, r: KnowledgeRecord) -> bool {
    c == (KnowledgeRecord { tags: c.tags, ..r }) && c.tags@ == r.tags@
}

/// A copy of a record.
pub fn copy_record(r: &KnowledgeRecord) -> (c: KnowledgeRecord)
    ensures
        record_copy_of(c, *r),
{
    KnowledgeRecord {
        id: r.id.clone(),
        knowledge_type: r.knowledge_type.clone(),
        title: r.title.clone(),
        summary: r.summary.clone(),
        content: r.content.clone(),
        tags: copy_strings(&r.tags),
        source: r.source.clone(),
        source_type: r.source_type.clone(),
        verified: r.verified,
        workspace_id: r.workspace_id.clone(),
        priority: r.priority,
        archived: r.archived,
        created_at: r.created_at.clone(),
        updated_at: r.updated_at.clone(),
    }
}

/// The first stored user-confirmed record with this title and summary.
pub fn find_reusable_siyuan_record(records: &Vec<KnowledgeRecord>, title: &str, summary: &str) -> (r: Option<
    KnowledgeRecord,
>)
    ensures
        match r {
            Some(c) => exists|j: int|
                0 <= j < records@.len() && record_copy_of(c, records@[j]) && #[trigger] reusable_siyuan_spec(records@[j], title@, summary@)
                    && forall|k: int| 0 <= k < j ==> !reusable_siyuan_spec(records@[k], title@, summary@),
            None => forall|j: int| 0 <= j < records@.len() ==> !#[trigger] reusable_siyuan_spec(records@[j], title@, summary@),
        },
{
    let mut i: usize = 0;
    while i < records.len()
        invariant
            i <= records@.len(),
            forall|j: int| 0 <= j < i ==> !#[trigger] reusable_siyuan_spec(records@[j], title@, summary@),
        decreases records.len() - i,
    {
        let r = &records[i];
        if str_eq(r.source_type.as_str(), "siyuan") && str_eq(r.title.as_str(), title) && str_eq(r.summary.as_str(), summary) {
            let c = copy_record(r);
            assert(reusable_siyuan_spec(records@[i as int], title@, summary@));
            return Some(c);
        }
        i = i + 1;
    }
    None
}

/// Some field of the record holds sensitive text.
pub open spec fn record_sensitive_spec(r: KnowledgeRecord) -> bool {
    sensitive_spec(r.title@) || sensitive_spec(r.summary@) || sensitive_spec(r.content@) || exists|j: int|
        0 <= j < r.tags@.len() && #[trigger] sensitive_spec(r.tags@[j]@)
}

/// Whether some field of the record holds sensitive text.
pub fn record_contains_sensitive_data(record: &KnowledgeRecord) -> (r: bool)
    ensures
        r == record_sensitive_spec(*record),
{
    if contains_sensitive_text(record.title.as_str()) || contains_sensitive_text(record.summary.as_str())
        || contains_sensitive_text(record.content.as_str()) {
        return true;
    }
    let mut i: usize = 0;
    while i < record.tags.len()
        invariant
            i <= record.tags@.len(),
            !sensitive_spec(record.title@) && !sensitive_spec(record.summary@) && !sensitive_spec(record.content@),
            forall|j: int| 0 <= j < i ==> !#[trigger] sensitive_spec(record.tags@[j]@),
        decreases record.tags.len() - i,
    {
        if contains_sensitive_text(record.tags[i].as_str()) {
            return true;
        }
        i = i + 1;
    }
    false
}

/// The reason a record is kept out of the knowledge base, if any: a run's
/// echo of a project answer, sensitive text, a summary under twenty
/// characters, or an unverified result, checked in that order.
pub open spec fn skip_reason_spec(r: KnowledgeRecord) -> Option<Seq<char>> {
    let runtime_generated = r.source_type@ == "runtime"@ && has_prefix(r.source@, "run:"@);
    let project_answer = has_sub(r.title@, "项目说明"@) || has_sub(r.summary@, "已基于项目文档片段完成一次项目说明回答"@);
    if runtime_generated && project_answer {
        Some("命中低价值运行时知识治理规则：项目说明回显不进入知识层。"@)
    } else if record_sensitive_spec(r) {
        Some("命中敏感信息清洗规则：疑似密钥或隐私字段，禁止入库。"@)
    } else if r.summary@.len() < 20 {
        Some("命中低价值知识拦截：摘要过短，缺少跨任务复用价值。"@)
    } else if !r.verified {
        Some("命中低价值知识拦截：当前结果未验证通过。"@)
    } else {
        None
    }
}

/// Sensitive text never enters the knowledge base: a record whose title,
/// summary, content or tags hold it is always kept out, and only what is
/// verified and says something reusable is let in.
pub proof fn sensitive_record_kept_out_law(r: KnowledgeRecord)
    ensures
        record_sensitive_spec(r) ==> skip_reason_spec(r) is Some,
        skip_reason_spec(r) is None ==> !record_sensitive_spec(r) && r.verified && r.summary@.len() >= 20,
{
}

/// The reason a record is kept out of the knowledge base (see `skip_reason_spec`).
pub fn should_skip_knowledge_record(record: &KnowledgeRecord) -> (r: Option<KnowledgeSkip>)
    ensures
        match r {
            Some(s) => skip_reason_spec(*record) == Some(s.reason@),
            None => skip_reason_spec(*record) is None,
        },
{
    let runtime_generated = str_eq(record.source_type.as_str(), "runtime") && starts_with(record.source.as_str(), "run:");
    let project_answer = contains(record.title.as_str(), "项目说明") || contains(
        record.summary.as_str(),
        "已基于项目文档片段完成一次项目说明回答",
    );
    if runtime_generated && project_answer {
        return Some(KnowledgeSkip { reason: String::from_str("命中低价值运行时知识治理规则：项目说明回显不进入知识层。") });
    }
    if record_contains_sensitive_data(record) {
        return Some(KnowledgeSkip { reason: String::from_str("命中敏感信息清洗规则：疑似密钥或隐私字段，禁止入库。") });
    }
    if char_count(record.summary.as_str()) < 20 {
        return Some(KnowledgeSkip { reason: String::from_str("命中低价值知识拦截：摘要过短，缺少跨任务复用价值。") });
    }
    if !record.verified {
        return Some(KnowledgeSkip { reason: String::from_str("命中低价值知识拦截：当前结果未验证通过。") });
    }
    None
}

/// Some tag of the record is exactly `t`.
pub open spec fn has_tag(r: KnowledgeRecord, t: Seq<char>) -> bool {
    exists|j: int| 0 <= j < r.tags@.len() && #[trigger] r.tags@[j]@ == t
}

/// A runtime record of a workflow pattern, an agent resolve or a result mode
/// is copied to the external memory service.
pub open spec fn sync_spec(r: KnowledgeRecord) -> bool {
    r.source_type@ == "runtime"@ && (r.knowledge_type@ == "workflow_pattern"@ || has_tag(r, "agent_resolve"@)
        || has_tag(r, "result_mode"@))
}

fn tag_present(tags: &Vec<String>, t: &str) -> (r: bool)
    ensures
        r == exists|j: int| 0 <= j < tags@.len() && #[trigger] tags@[j]@ == t@,
{
    let mut i: usize = 0;
    while i < tags.len()
        invariant
            i <= tags@.len(),
            forall|j: int| 0 <= j < i ==> #[trigger] tags@[j]@ != t@,
        decreases tags.len() - i,
    {
        if str_eq(tags[i].as_str(), t) {
            return true;
        }
        i = i + 1;
    }
    false
}

/// Whether the record is copied to the external memory service (see `sync_spec`).
pub fn should_sync_to_cortex(record: &KnowledgeRecord) -> (r: bool)
    ensures
        r == sync_spec(*record),
{
    if !str_eq(record.source_type.as_str(), "runtime") {
        return false;
    }
    str_eq(record.knowledge_type.as_str(), "workflow_pattern") || tag_present(&record.tags, "agent_resolve")
        || tag_present(&record.tags, "result_mode")
}

/// Attempt `b` of the external write may have failed with some message:
/// a call of `run` at some state with argument `b` can return an error.
pub open spec fn attempt_can_fail<F: FnMut(u8) -> Result<(), String>>(b: u8) -> bool {
    exists|f: F, e: String| #[trigger] call_ensures(f, (b,), Err::<(), String>(e))
}

/// Tries the external write up to three times, passing each call its
/// attempt number: the attempt that succeeded, or the exhausted error with
/// the last failure.
pub fn retry_cortex_ingest_operation<F: FnMut(u8) -> Result<(), String>>(mut run: F) -> (r: Result<u8, String>)
    requires
        forall|a: u8, f: F| call_requires(f, (a,)),
    ensures
        r matches Ok(attempt) ==> {
            &&& 1 <= attempt <= CORTEX_RETRY_ATTEMPTS
            &&& exists|f: F, o: Result<(), String>| #[trigger] call_ensures(f, (attempt,), o) && o is Ok
            &&& forall|b: u8| 1 <= b < attempt ==> #[trigger] attempt_can_fail::<F>(b)
        },
        r matches Err(e) ==> {
            &&& forall|b: u8| 1 <= b <= CORTEX_RETRY_ATTEMPTS ==> #[trigger] attempt_can_fail::<F>(b)
            &&& exists|f: F, last: String|
                #[trigger] call_ensures(f, (CORTEX_RETRY_ATTEMPTS,), Err::<(), String>(last))
                && e@ == "cortex ingest retry exhausted, "@ + attempt_error_spec(CORTEX_RETRY_ATTEMPTS, last@)
        },
{
    let mut last_error = String::new();
    let ghost mut last_f: F = run;
    let ghost mut last_e: String = vstd::pervasive::arbitrary();
    let mut attempt: u8 = 1;
    while attempt <= CORTEX_RETRY_ATTEMPTS
        invariant
            1 <= attempt <= CORTEX_RETRY_ATTEMPTS + 1,
            forall|a: u8, f: F| call_requires(f, (a,)),
            forall|b: u8| 1 <= b < attempt ==> #[trigger] attempt_can_fail::<F>(b),
            attempt > 1 ==> call_ensures(last_f, ((attempt - 1) as u8,), Err::<(), String>(last_e)),
            attempt > 1 ==> last_error@ == attempt_error_spec((attempt - 1) as u8, last_e@),
        decreases CORTEX_RETRY_ATTEMPTS + 1 - attempt,
    {
        let ghost before: F = run;
        let outcome = run(attempt);
        assert(call_ensures(before, (attempt,), outcome));
        match outcome {
            Ok(()) => {
                return Ok(attempt);
            },
            Err(error) => {
                last_error = attempt_error(attempt, error.as_str());
                proof {
                    last_f = before;
                    last_e = error;
                    assert forall|b: u8| 1 <= b < attempt + 1 implies #[trigger] attempt_can_fail::<F>(b) by {
                        if b == attempt {
                            assert(call_ensures(before, (b,), Err::<(), String>(error)));
                        }
                    }
                }
            },
        }
        attempt = attempt + 1;
    }
    let mut out = String::from_str("cortex ingest retry exhausted, ");
    push_str(&mut out, last_error.as_str());
    Err(out)
}

/// The attempts an ingest audit records: the successful attempt, or all of them.
pub fn ingest_audit_attempts(result: &Result<u8, String>) -> (n: u8)
    ensures
        n == match result {
            Ok(a) => *a,
            Err(_) => CORTEX_RETRY_ATTEMPTS,
        },
{
    match result {
        Ok(a) => *a,
        Err(_) => CORTEX_RETRY_ATTEMPTS,
    }
}

/// The records to search: those of the database, or, when it has none,
/// those of the fallback file.
pub fn search_knowledge_records(database: Vec<KnowledgeRecord>, file: Vec<KnowledgeRecord>) -> (r: Vec<KnowledgeRecord>)
    ensures
        r@ == if database@.len() == 0 { file@ } else { database@ },
{
    if database.len() == 0 {
        file
    } else {
        database
    }
}

} // verus!
