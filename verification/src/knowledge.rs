//! Knowledge hits: what a knowledge search returns, how local and external
//! hits are merged without duplicates, and how each hit is labelled.
use vstd::prelude::*;
use crate::knowledge_store::KnowledgeRecord;
use crate::text::{
    ascii_lower, char_count, contains, dec, has_prefix, has_sub, has_suffix, lowercase_of, push_str,
    replace, replace_all, starts_with, ends_with, str_eq, strip_ws, take_chars, to_ascii_lower, to_lower, trim,
    trimmed, without_ws, trim_end_char, trim_end_matches_char,
};

verus! {

/// One hit of a knowledge search.
#[derive(Clone, Debug)]
pub struct KnowledgeHit {
    pub path: String,
    pub snippet: String,
    pub source_type: String,
    pub source_label: String,
    pub knowledge_type: String,
    pub confidence: String,
    pub updated_at: String,
    pub reason: String,
}

/// How many characters of a normalized text a dedupe key keeps.
pub const HIT_KEY_CHARS: usize = 160;

/// A text as it enters a dedupe key: lower-cased, white space removed, cut
/// after `HIT_KEY_CHARS` characters.
pub open spec fn normalize_hit_spec(t: Seq<char>) -> Seq<char> {
    let s = strip_ws(lowercase_of(t));
    if s.len() <= HIT_KEY_CHARS {
        s
    } else {
        s.take(HIT_KEY_CHARS as int)
    }
}

/// The dedupe key of a hit: its knowledge type and its normalized snippet,
/// with the normalized path in front when the snippet is shorter than twelve
/// characters.
pub open spec fn hit_key_spec(h: KnowledgeHit) -> Seq<char> {
    let snippet = normalize_hit_spec(h.snippet@);
    let anchor = if snippet.len() >= 12 {
        snippet
    } else {
        normalize_hit_spec(h.path@) + "|"@ + snippet
    };
    h.knowledge_type@ + "|"@ + anchor
}

/// Some hit of `hits` has the key `k`.
pub open spec fn key_seen(hits: Seq<KnowledgeHit>, k: Seq<char>) -> bool {
    exists|j: int| 0 <= j < hits.len() && #[trigger] hit_key_spec(hits[j]) == k
}

/// The hits whose key no earlier hit had, in order.
pub open spec fn dedupe_spec(hits: Seq<KnowledgeHit>) -> Seq<KnowledgeHit>
    decreases hits.len(),
{
    if hits.len() == 0 {
        seq![]
    } else {
        let rest = dedupe_spec(hits.drop_last());
        if key_seen(hits.drop_last(), hit_key_spec(hits.last())) {
            rest
        } else {
            rest.push(hits.last())
        }
    }
}

/// The first `limit` of `s`.
pub open spec fn first_n<A>(s: Seq<A>, limit: nat) -> Seq<A> {
    if s.len() <= limit {
        s
    } else {
        s.take(limit as int)
    }
}

/// The merged hits: local hits first, then external ones, without
/// duplicates, at most `limit` of them.
pub open spec fn merge_spec(local: Seq<KnowledgeHit>, external: Seq<KnowledgeHit>, limit: nat) -> Seq<KnowledgeHit> {
    first_n(dedupe_spec(local + external), limit)
}

/// A copy of a hit.
pub fn copy_hit(h: &KnowledgeHit) -> (r: KnowledgeHit)
    ensures
        r == *h,
{
    KnowledgeHit {
        path: h.path.clone(),
        snippet: h.snippet.clone(),
        source_type: h.source_type.clone(),
        source_label: h.source_label.clone(),
        knowledge_type: h.knowledge_type.clone(),
        confidence: h.confidence.clone(),
        updated_at: h.updated_at.clone(),
        reason: h.reason.clone(),
    }
}

/// A text as it enters a dedupe key (see `normalize_hit_spec`).
pub fn normalize_hit_text(text: &str) -> (r: String)
    ensures
        r@ == normalize_hit_spec(text@),
{
    let lower = to_lower(text);
    let compact = without_ws(lower.as_str());
    take_chars(compact.as_str(), HIT_KEY_CHARS)
}

/// The dedupe key of a hit (see `hit_key_spec`).
pub fn hit_dedupe_key(hit: &KnowledgeHit) -> (r: String)
    ensures
        r@ == hit_key_spec(*hit),
{
    let snippet = normalize_hit_text(hit.snippet.as_str());
    let anchor = if char_count(snippet.as_str()) >= 12 {
        snippet
    } else {
        let mut a = normalize_hit_text(hit.path.as_str());
        push_str(&mut a, "|");
        push_str(&mut a, snippet.as_str());
        a
    };
    let mut key = hit.knowledge_type.clone();
    push_str(&mut key, "|");
    push_str(&mut key, anchor.as_str());
    key
}

/// The hits whose key no earlier hit had, in order (see `dedupe_spec`).
pub fn dedupe_hits(hits: Vec<KnowledgeHit>) -> (r: Vec<KnowledgeHit>)
    ensures
        r@ == dedupe_spec(hits@),
{
    let mut keys: Vec<String> = Vec::new();
    let mut out: Vec<KnowledgeHit> = Vec::new();
    let mut i: usize = 0;
    while i < hits.len()
        invariant
            i <= hits@.len(),
            keys@.len() == i,
            forall|j: int| 0 <= j < i ==> #[trigger] keys@[j]@ == hit_key_spec(hits@[j]),
            out@ == dedupe_spec(hits@.take(i as int)),
        decreases hits.len() - i,
    {
        let key = hit_dedupe_key(&hits[i]);
        let mut seen = false;
        let mut j: usize = 0;
        while j < keys.len()
            invariant
                j <= keys@.len() == i,
                i < hits@.len(),
                key@ == hit_key_spec(hits@[i as int]),
                forall|m: int| 0 <= m < i ==> #[trigger] keys@[m]@ == hit_key_spec(hits@[m]),
                seen <==> exists|m: int| 0 <= m < j && #[trigger] keys@[m]@ == key@,
            decreases keys.len() - j,
        {
            if str_eq(keys[j].as_str(), key.as_str()) {
                seen = true;
            }
            j = j + 1;
        }
        proof {
            let prefix = hits@.take(i + 1);
            assert(prefix.drop_last() =~= hits@.take(i as int));
            assert(prefix.last() == hits@[i as int]);
            if seen {
                let m = choose|m: int| 0 <= m < j && #[trigger] keys@[m]@ == key@;
                assert(hits@.take(i as int)[m] == hits@[m]);
                assert(key_seen(hits@.take(i as int), hit_key_spec(hits@[i as int])));
            } else {
                assert forall|m: int| 0 <= m < i implies #[trigger] hit_key_spec(hits@.take(i as int)[m]) != key@ by {
                    assert(hits@.take(i as int)[m] == hits@[m]);
                    assert(keys@[m]@ == hit_key_spec(hits@[m]));
                }
            }
        }
        if !seen {
            out.push(copy_hit(&hits[i]));
        }
        keys.push(key);
        i = i + 1;
    }
    assert(hits@.take(hits@.len() as int) =~= hits@);
    out
}

/// Local hits, then external ones, without duplicates, at most `limit`.
pub fn merge_knowledge_hits(local_hits: Vec<KnowledgeHit>, external_hits: Vec<KnowledgeHit>, limit: usize) -> (r: Vec<
    KnowledgeHit,
>)
    ensures
        r@ == merge_spec(local_hits@, external_hits@, limit as nat),
{
    let mut hits = local_hits;
    let mut rest = external_hits;
    let ghost l = hits@;
    let ghost e = rest@;
    hits.append(&mut rest);
    assert(hits@ == l + e);
    let deduped = dedupe_hits(hits);
    if deduped.len() <= limit {
        return deduped;
    }
    let mut out: Vec<KnowledgeHit> = Vec::new();
    let mut i: usize = 0;
    while i < limit
        invariant
            i <= limit < deduped@.len(),
            out@ == deduped@.take(i as int),
        decreases limit - i,
    {
        out.push(copy_hit(&deduped[i]));
        i = i + 1;
        assert(out@ =~= deduped@.take(i as int));
    }
    out
}

/// The external hits, or none when the external recall failed.
pub fn cortex_result_or_empty(result: Result<Vec<KnowledgeHit>, String>) -> (r: Vec<KnowledgeHit>)
    ensures
        r@ == match result {
            Ok(hits) => hits@,
            Err(_) => Seq::<KnowledgeHit>::empty(),
        },
{
    match result {
        Ok(hits) => hits,
        Err(_) => Vec::new(),
    }
}

/// The agent an external request speaks for: the configured one, else `default`.
pub open spec fn agent_id_spec(agent_id: Seq<char>) -> Seq<char> {
    if trim(agent_id).len() == 0 {
        "default"@
    } else {
        agent_id
    }
}

/// The agent an external request speaks for (see `agent_id_spec`).
pub fn resolve_agent_id(agent_id: &str) -> (r: String)
    ensures
        r@ == agent_id_spec(agent_id@),
{
    let t = trimmed(agent_id);
    if t.as_str().is_empty() {
        String::from_str("default")
    } else {
        String::from_str(agent_id)
    }
}

/// The query carries a credential marker, matched on its ASCII lower-cased text.
pub open spec fn sensitive_query_spec(q: Seq<char>) -> bool {
    let l = ascii_lower(q);
    ||| has_sub(l, "authorization: bearer"@)
    ||| has_sub(l, "api_key"@)
    ||| has_sub(l, "token="@)
    ||| has_sub(l, "password="@)
    ||| has_sub(l, "secret="@)
    ||| has_sub(l, "sk-"@)
    ||| has_sub(l, "ak-"@)
}

/// Whether the query carries a credential marker.
pub fn sensitive_query_marker(text: &str) -> (r: bool)
    ensures
        r == sensitive_query_spec(text@),
{
    let lowered = to_ascii_lower(text);
    let l = lowered.as_str();
    contains(l, "authorization: bearer") || contains(l, "api_key") || contains(l, "token=") || contains(
        l,
        "password=",
    ) || contains(l, "secret=") || contains(l, "sk-") || contains(l, "ak-")
}

/// The source an external recall is audited under: the query's first eighty
/// characters, or a redaction mark when it carries a credential.
pub open spec fn recall_source_spec(q: Seq<char>) -> Seq<char> {
    if sensitive_query_spec(q) {
        "knowledge_search:[REDACTED]"@
    } else {
        "knowledge_search:"@ + first_n(q, 80)
    }
}

/// The source an external recall is audited under (see `recall_source_spec`).
pub fn recall_source(query: &str) -> (r: String)
    ensures
        r@ == recall_source_spec(query@),
{
    if sensitive_query_marker(query) {
        return String::from_str("knowledge_search:[REDACTED]");
    }
    let snippet = take_chars(query, 80);
    let mut out = String::from_str("knowledge_search:");
    push_str(&mut out, snippet.as_str());
    out
}

/// The knowledge type of an external memory: its category, else `external_memory`.
pub open spec fn category_spec(category: Seq<char>) -> Seq<char> {
    if trim(category).len() == 0 {
        "external_memory"@
    } else {
        category
    }
}

/// The knowledge type of an external memory (see `category_spec`).
pub fn cortex_category_or_default(category: &str) -> (r: String)
    ensures
        r@ == category_spec(category@),
{
    let t = trimmed(category);
    if t.as_str().is_empty() {
        String::from_str("external_memory")
    } else {
        String::from_str(category)
    }
}

/// The hit of one memory returned by the external recall.
pub fn cortex_memory_hit(id: &str, content: String, category: &str, created_at: String) -> (h: KnowledgeHit)
    ensures
        h.path@ == "cortex://"@ + id@,
        h.snippet == content,
        h.source_type@ == "cortex"@,
        h.source_label@ == "外部增强记忆"@,
        h.knowledge_type@ == category_spec(category@),
        h.confidence@ == "中（外部 recall 补充）"@,
        h.updated_at == created_at,
        h.reason@ == "本地命中不足，补充外部召回"@,
{
    let mut path = String::from_str("cortex://");
    push_str(&mut path, id);
    KnowledgeHit {
        path,
        snippet: content,
        source_type: String::from_str("cortex"),
        source_label: String::from_str("外部增强记忆"),
        knowledge_type: cortex_category_or_default(category),
        confidence: String::from_str("中（外部 recall 补充）"),
        updated_at: created_at,
        reason: String::from_str("本地命中不足，补充外部召回"),
    }
}

/// The address of the external memory service: the configured one, trimmed,
/// else the local default.
pub open spec fn recall_server_spec(server_url: Seq<char>) -> Seq<char> {
    if trim(server_url).len() == 0 {
        "http://127.0.0.1:21100"@
    } else {
        trim(server_url)
    }
}

/// The recall endpoint of the external memory service.
pub fn cortex_recall_uri(server_url: &str) -> (r: String)
    ensures
        r@ == trim_end_char(recall_server_spec(server_url@), '/') + "/api/v1/recall"@,
{
    let t = trimmed(server_url);
    let server = if t.as_str().is_empty() { String::from_str("http://127.0.0.1:21100") } else { t };
    let mut uri = trim_end_matches_char(server.as_str(), '/');
    push_str(&mut uri, "/api/v1/recall");
    uri
}

/// The address the external memory service is written at: the configured
/// one as given, else the local default.
pub open spec fn ingest_server_spec(server_url: Seq<char>) -> Seq<char> {
    if trim(server_url).len() == 0 {
        "http://127.0.0.1:21100"@
    } else {
        server_url
    }
}

/// The ingest endpoint of the external memory service.
pub fn cortex_ingest_uri(server_url: &str) -> (r: String)
    ensures
        r@ == trim_end_char(ingest_server_spec(server_url@), '/') + "/api/v1/ingest"@,
{
    let t = trimmed(server_url);
    let server = if t.as_str().is_empty() { String::from_str("http://127.0.0.1:21100") } else { String::from_str(server_url) };
    let mut uri = trim_end_matches_char(server.as_str(), '/');
    push_str(&mut uri, "/api/v1/ingest");
    uri
}

/// How many times an external call is tried.
pub const CORTEX_RETRY_ATTEMPTS: u8 = 3;

/// The error recorded for a failed attempt.
pub open spec fn attempt_error_spec(attempt: u8, error: Seq<char>) -> Seq<char> {
    "attempt="@ + dec(attempt as nat) + "/3, "@ + error
}

/// The error recorded for a failed attempt.
pub fn attempt_error(attempt: u8, error: &str) -> (r: String)
    ensures
        r@ == attempt_error_spec(attempt, error@),
{
    let mut out = String::from_str("attempt=");
    let n = crate::text::u64_text(attempt as u64);
    push_str(&mut out, n.as_str());
    push_str(&mut out, "/3, ");
    push_str(&mut out, error);
    out
}

/// Attempt `b` of the external recall may have failed with some message:
/// a call of `run` at some state with argument `b` can return an error.
pub open spec fn recall_attempt_can_fail<F: FnMut(u8) -> Result<String, String>>(b: u8) -> bool {
    exists|f: F, e: String| #[trigger] call_ensures(f, (b,), Err::<String, String>(e))
}

/// Tries the external recall up to three times: the body and the attempt
/// that gave it, or the exhausted error with the last failure.
pub fn retry_cortex_recall<F: FnMut(u8) -> Result<String, String>>(mut run: F) -> (r: Result<(String, u8), String>)
    requires
        forall|a: u8, f: F| call_requires(f, (a,)),
    ensures
        r matches Ok((body, attempt)) ==> {
            &&& 1 <= attempt <= CORTEX_RETRY_ATTEMPTS
            &&& exists|f: F, o: Result<String, String>| #[trigger] call_ensures(f, (attempt,), o) && (o is Ok && o->Ok_0 == body)
            &&& forall|b: u8| 1 <= b < attempt ==> #[trigger] recall_attempt_can_fail::<F>(b)
        },
        r matches Err(e) ==> {
            &&& forall|b: u8| 1 <= b <= CORTEX_RETRY_ATTEMPTS ==> #[trigger] recall_attempt_can_fail::<F>(b)
            &&& exists|f: F, last: String|
                #[trigger] call_ensures(f, (CORTEX_RETRY_ATTEMPTS,), Err::<String, String>(last))
                && e@ == "cortex recall retry exhausted, "@ + attempt_error_spec(CORTEX_RETRY_ATTEMPTS, last@)
        },
{
    let mut last_error = String::new();
    let ghost mut last_f: F = run;
    let ghost mut last_e: String = vstd::pervasive::arbitrary();
    let mut attempt: u8 = 1;
    while attempt <= CORTEX_RETRY_ATTEMPTS
        invariant
            1 <= attempt <= CORTEX_RETRY_ATTEMPTS + 1,
            forall|a: u8, f: F| call_requires(f, (a,)),
            forall|b: u8| 1 <= b < attempt ==> #[trigger] recall_attempt_can_fail::<F>(b),
            attempt > 1 ==> call_ensures(last_f, ((attempt - 1) as u8,), Err::<String, String>(last_e)),
            attempt > 1 ==> last_error@ == attempt_error_spec((attempt - 1) as u8, last_e@),
        decreases CORTEX_RETRY_ATTEMPTS + 1 - attempt,
    {
        let ghost before: F = run;
        let outcome = run(attempt);
        assert(call_ensures(before, (attempt,), outcome));
        match outcome {
            Ok(body) => {
                return Ok((body, attempt));
            },
            Err(error) => {
                last_error = attempt_error(attempt, error.as_str());
                proof {
                    last_f = before;
                    last_e = error;
                    assert forall|b: u8| 1 <= b < attempt + 1 implies #[trigger] recall_attempt_can_fail::<F>(b) by {
                        if b == attempt {
                            assert(call_ensures(before, (b,), Err::<String, String>(error)));
                        }
                    }
                }
            },
        }
        attempt = attempt + 1;
    }
    let mut out = String::from_str("cortex recall retry exhausted, ");
    push_str(&mut out, last_error.as_str());
    Err(out)
}

/// How deep the knowledge file walk goes below a root.
pub const KNOWLEDGE_WALK_MAX_DEPTH: usize = 4;

/// How many files the knowledge file walk collects at most.
pub const KNOWLEDGE_WALK_MAX_FILES: usize = 240;

/// The folders the knowledge file walk does not enter, by lower-cased name.
pub open spec fn knowledge_skipped_dir_spec(lower: Seq<char>) -> bool {
    lower == ".git"@ || lower == "node_modules"@ || lower == "target"@ || lower == "dist"@ || lower == "tmp"@
        || lower == "logs"@ || lower == "data"@
}

/// Whether the knowledge file walk skips a folder of this name: its
/// lower-cased name is one of the skipped folders.
pub fn is_knowledge_skipped_dir(name: &str) -> (r: bool)
    ensures
        r == knowledge_skipped_dir_spec(lowercase_of(name@)),
{
    let lower = to_lower(name);
    let l = lower.as_str();
    str_eq(l, ".git") || str_eq(l, "node_modules") || str_eq(l, "target") || str_eq(l, "dist") || str_eq(l, "tmp")
        || str_eq(l, "logs") || str_eq(l, "data")
}

/// The file extensions the knowledge file walk collects, lower-cased.
pub open spec fn knowledge_file_ext_spec(lower: Seq<char>) -> bool {
    lower == "md"@ || lower == "txt"@ || lower == "json"@ || lower == "toml"@
}

/// Whether the knowledge file walk collects a file with this extension.
pub fn is_knowledge_file_ext(ext: &str) -> (r: bool)
    ensures
        r == knowledge_file_ext_spec(lowercase_of(ext@)),
{
    let lower = to_lower(ext);
    let l = lower.as_str();
    str_eq(l, "md") || str_eq(l, "txt") || str_eq(l, "json") || str_eq(l, "toml")
}

/// Whether the knowledge file walk reads a folder at this depth below its root.
pub fn knowledge_dir_in_reach(depth: usize) -> (r: bool)
    ensures
        r == (depth <= KNOWLEDGE_WALK_MAX_DEPTH),
{
    depth <= KNOWLEDGE_WALK_MAX_DEPTH
}

/// Whether the knowledge file walk has collected all the files it takes.
pub fn knowledge_files_full(found: usize) -> (r: bool)
    ensures
        r == (found >= KNOWLEDGE_WALK_MAX_FILES),
{
    found >= KNOWLEDGE_WALK_MAX_FILES
}

/// The priority of a document path: README files first, development and
/// architecture documents next, test documents last.
pub open spec fn path_priority_spec(path_text: Seq<char>) -> int {
    let p = lowercase_of(replace_all(path_text, "\\"@, "/"@));
    if has_suffix(p, "/readme.md"@) || p == "readme.md"@ {
        48
    } else if has_sub(p, "/docs/readme.md"@) {
        42
    } else if has_sub(p, "/docs/06-development/"@) {
        28
    } else if has_sub(p, "/docs/02-architecture/"@) || has_sub(p, "/docs/03-runtime/"@) {
        18
    } else if has_sub(p, "/docs/07-test/"@) {
        -32
    } else {
        0
    }
}

/// The priority of a document path (see `path_priority_spec`).
pub fn path_priority(path_text: &str) -> (r: i32)
    ensures
        r == path_priority_spec(path_text@),
{
    proof { reveal_strlit("\\"); }
    let slashed = replace(path_text, "\\", "/");
    let lowered = to_lower(slashed.as_str());
    let p = lowered.as_str();
    if ends_with(p, "/readme.md") || str_eq(p, "readme.md") {
        return 48;
    }
    if contains(p, "/docs/readme.md") {
        return 42;
    }
    if contains(p, "/docs/06-development/") {
        return 28;
    }
    if contains(p, "/docs/02-architecture/") || contains(p, "/docs/03-runtime/") {
        return 18;
    }
    if contains(p, "/docs/07-test/") {
        return -32;
    }
    0
}

/// The priority of a document path, for other modules.
pub fn knowledge_path_priority(path_text: &str) -> (r: i32)
    ensures
        r == path_priority_spec(path_text@),
{
    path_priority(path_text)
}

/// Why a document was chosen, by its priority.
pub open spec fn knowledge_reason_spec(path_text: Seq<char>) -> Seq<char> {
    let score = path_priority_spec(path_text);
    if score >= 40 {
        "README 主入口优先"@
    } else if score >= 28 {
        "06-development 开发文档优先"@
    } else if score < 0 {
        "07-test 已降权，仅作验收参考"@
    } else {
        "按内容相关性命中"@
    }
}

/// Why a document was chosen (see `knowledge_reason_spec`).
pub fn knowledge_reason(path_text: &str) -> (r: String)
    ensures
        r@ == knowledge_reason_spec(path_text@),
{
    let score = path_priority(path_text);
    if score >= 40 {
        return String::from_str("README 主入口优先");
    }
    if score >= 28 {
        return String::from_str("06-development 开发文档优先");
    }
    if score < 0 {
        return String::from_str("07-test 已降权，仅作验收参考");
    }
    String::from_str("按内容相关性命中")
}

/// The label of a knowledge source.
pub open spec fn source_label_spec(source_type: Seq<char>) -> Seq<char> {
    if source_type == "runtime"@ {
        "运行时沉淀知识"@
    } else if source_type == "siyuan"@ || source_type == "siyuan_file"@ {
        "用户确认知识"@
    } else if source_type == "workspace_file"@ {
        "文档知识"@
    } else {
        "本地知识"@
    }
}

/// The label of a knowledge source (see `source_label_spec`).
pub fn source_label(source_type: &str) -> (r: String)
    ensures
        r@ == source_label_spec(source_type@),
{
    if str_eq(source_type, "runtime") {
        String::from_str("运行时沉淀知识")
    } else if str_eq(source_type, "siyuan") || str_eq(source_type, "siyuan_file") {
        String::from_str("用户确认知识")
    } else if str_eq(source_type, "workspace_file") {
        String::from_str("文档知识")
    } else {
        String::from_str("本地知识")
    }
}

/// How far a hit can be trusted, by its source and verification.
pub open spec fn confidence_spec(source_type: Seq<char>, verified: bool) -> Seq<char> {
    if source_type == "workspace_file"@ {
        "高（直接文件命中）"@
    } else if source_type == "siyuan"@ || source_type == "siyuan_file"@ {
        "高（用户沉淀确认）"@
    } else if verified {
        "高（已验证沉淀）"@
    } else {
        "中（待进一步验证）"@
    }
}

/// How far a hit can be trusted (see `confidence_spec`).
pub fn confidence_label(source_type: &str, verified: bool) -> (r: String)
    ensures
        r@ == confidence_spec(source_type@, verified),
{
    if str_eq(source_type, "workspace_file") {
        return String::from_str("高（直接文件命中）");
    }
    if str_eq(source_type, "siyuan") || str_eq(source_type, "siyuan_file") {
        return String::from_str("高（用户沉淀确认）");
    }
    if verified {
        String::from_str("高（已验证沉淀）")
    } else {
        String::from_str("中（待进一步验证）")
    }
}

/// The record was written by a run about another run's answer.
pub open spec fn recursive_record_spec(r: KnowledgeRecord) -> bool {
    has_prefix(r.source@, "run:"@) && (has_sub(r.summary@, "文件：run:"@) || has_sub(r.content@, "文件：run:"@))
}

/// Whether the record was written by a run about another run's answer.
pub fn is_recursive_record(record: &KnowledgeRecord) -> (r: bool)
    ensures
        r == recursive_record_spec(*record),
{
    starts_with(record.source.as_str(), "run:") && (contains(record.summary.as_str(), "文件：run:") || contains(
        record.content.as_str(),
        "文件：run:",
    ))
}

/// The text a stored record is scored against.
pub open spec fn stored_haystack_spec(r: KnowledgeRecord) -> Seq<char> {
    r.title@ + " "@ + r.summary@ + " "@ + r.content@ + " "@ + r.source@ + " "@ + r.source_type@ + " "@
        + source_label_spec(r.source_type@) + " "@ + confidence_spec(r.source_type@, r.verified)
}

/// The text a stored record is scored against.
pub fn stored_haystack(record: &KnowledgeRecord) -> (r: String)
    ensures
        r@ == stored_haystack_spec(*record),
{
    let mut out = record.title.clone();
    push_str(&mut out, " ");
    push_str(&mut out, record.summary.as_str());
    push_str(&mut out, " ");
    push_str(&mut out, record.content.as_str());
    push_str(&mut out, " ");
    push_str(&mut out, record.source.as_str());
    push_str(&mut out, " ");
    push_str(&mut out, record.source_type.as_str());
    push_str(&mut out, " ");
    let label = source_label(record.source_type.as_str());
    push_str(&mut out, label.as_str());
    push_str(&mut out, " ");
    let confidence = confidence_label(record.source_type.as_str(), record.verified);
    push_str(&mut out, confidence.as_str());
    out
}

/// The hit of a stored record.
pub fn stored_knowledge_hit(record: KnowledgeRecord) -> (h: KnowledgeHit)
    ensures
        h.path == record.source,
        h.snippet == record.summary,
        h.source_type == record.source_type,
        h.source_label@ == source_label_spec(record.source_type@),
        h.knowledge_type == record.knowledge_type,
        h.confidence@ == confidence_spec(record.source_type@, record.verified),
        h.updated_at == record.updated_at,
        h.reason@ == knowledge_reason_spec(record.source@),
{
    let label = source_label(record.source_type.as_str());
    let confidence = confidence_label(record.source_type.as_str(), record.verified);
    let reason = knowledge_reason(record.source.as_str());
    KnowledgeHit {
        path: record.source,
        snippet: record.summary,
        source_type: record.source_type,
        source_label: label,
        knowledge_type: record.knowledge_type,
        confidence,
        updated_at: record.updated_at,
        reason,
    }
}

/// The hit of a workspace document, with the snippet taken from it.
pub fn file_knowledge_hit(path_text: String, snippet: String) -> (h: KnowledgeHit)
    ensures
        h.reason@ == knowledge_reason_spec(path_text@),
        h.path == path_text,
        h.snippet == snippet,
        h.source_type@ == "workspace_file"@,
        h.source_label@ == "文档知识"@,
        h.knowledge_type@ == "document_reference"@,
        h.confidence@ == "高（工作区文档直接命中）"@,
        h.updated_at@.len() == 0,
{
    let reason = knowledge_reason(path_text.as_str());
    KnowledgeHit {
        reason,
        path: path_text,
        snippet,
        source_type: String::from_str("workspace_file"),
        source_label: String::from_str("文档知识"),
        knowledge_type: String::from_str("document_reference"),
        confidence: String::from_str("高（工作区文档直接命中）"),
        updated_at: String::new(),
    }
}

// ---------------------------------------------------------------------------
// Laws of the merge
// ---------------------------------------------------------------------------

/// Every hit kept by the dedupe is a hit of the input.
pub proof fn lemma_dedupe_from_input(hits: Seq<KnowledgeHit>)
    ensures
        dedupe_spec(hits).len() <= hits.len(),
        forall|i: int| #![trigger dedupe_spec(hits)[i]] 0 <= i < dedupe_spec(hits).len() ==> exists|j: int| 0 <= j < hits.len() && #[trigger] hits[j]
            == dedupe_spec(hits)[i],
    decreases hits.len(),
{
    if hits.len() > 0 {
        let prev = hits.drop_last();
        lemma_dedupe_from_input(prev);
        let out = dedupe_spec(hits);
        assert forall|i: int| #![trigger out[i]] 0 <= i < out.len() implies exists|j: int| 0 <= j < hits.len() && #[trigger] hits[j]
            == out[i] by {
            if i < dedupe_spec(prev).len() {
                let j = choose|j: int| 0 <= j < prev.len() && #[trigger] prev[j] == dedupe_spec(prev)[i];
                assert(hits[j] == prev[j]);
            } else {
                assert(hits[hits.len() - 1] == out[i]);
            }
        }
    }
}

/// No two hits kept by the dedupe share a key.
pub proof fn lemma_dedupe_keys_unique(hits: Seq<KnowledgeHit>)
    ensures
        forall|i: int, j: int|
            0 <= i < j < dedupe_spec(hits).len() ==> hit_key_spec(#[trigger] dedupe_spec(hits)[i]) != hit_key_spec(
                #[trigger] dedupe_spec(hits)[j],
            ),
    decreases hits.len(),
{
    if hits.len() > 0 {
        let prev = hits.drop_last();
        lemma_dedupe_keys_unique(prev);
        lemma_dedupe_from_input(prev);
        let k = hit_key_spec(hits.last());
        if !key_seen(prev, k) {
            let d = dedupe_spec(prev);
            assert forall|i: int| 0 <= i < d.len() implies hit_key_spec(d[i]) != k by {
                let j = choose|j: int| 0 <= j < prev.len() && #[trigger] prev[j] == d[i];
                assert(hit_key_spec(prev[j]) != k);
            }
        }
    }
}

/// Every key of the input is the key of some hit kept by the dedupe.
pub proof fn lemma_dedupe_keeps_keys(hits: Seq<KnowledgeHit>)
    ensures
        forall|j: int| 0 <= j < hits.len() ==> key_seen(dedupe_spec(hits), #[trigger] hit_key_spec(hits[j])),
    decreases hits.len(),
{
    if hits.len() > 0 {
        let prev = hits.drop_last();
        lemma_dedupe_keeps_keys(prev);
        let out = dedupe_spec(hits);
        let d = dedupe_spec(prev);
        assert forall|j: int| 0 <= j < hits.len() implies key_seen(out, #[trigger] hit_key_spec(hits[j])) by {
            if j < hits.len() - 1 {
                assert(hits[j] == prev[j]);
                assert(key_seen(d, hit_key_spec(prev[j])));
                let m = choose|m: int| 0 <= m < d.len() && #[trigger] hit_key_spec(d[m]) == hit_key_spec(prev[j]);
                assert(out[m] == d[m]);
            } else {
                let k = hit_key_spec(hits.last());
                if key_seen(prev, k) {
                    let m = choose|m: int| 0 <= m < prev.len() && #[trigger] hit_key_spec(prev[m]) == k;
                    assert(key_seen(d, hit_key_spec(prev[m])));
                    let n = choose|n: int| 0 <= n < d.len() && #[trigger] hit_key_spec(d[n]) == hit_key_spec(prev[m]);
                    assert(out[n] == d[n]);
                } else {
                    assert(out[out.len() - 1] == hits.last());
                }
            }
        }
    }
}

/// The dedupe of a longer list extends the dedupe of its front.
pub proof fn lemma_dedupe_prefix(front: Seq<KnowledgeHit>, back: Seq<KnowledgeHit>)
    ensures
        dedupe_spec(front).len() <= dedupe_spec(front + back).len(),
        dedupe_spec(front + back).take(dedupe_spec(front).len() as int) == dedupe_spec(front),
    decreases back.len(),
{
    if back.len() == 0 {
        assert(front + back =~= front);
        assert(dedupe_spec(front).take(dedupe_spec(front).len() as int) =~= dedupe_spec(front));
    } else {
        let shorter = back.drop_last();
        lemma_dedupe_prefix(front, shorter);
        assert((front + back).drop_last() =~= front + shorter);
        let n = dedupe_spec(front).len() as int;
        let d = dedupe_spec(front + shorter);
        let e = dedupe_spec(front + back);
        assert(e.take(n) =~= d.take(n));
    }
}

/// The dedupe leaves no two hits with one key, keeps a hit of every key of
/// its input, and keeps the input's hits in their order, the first of each key.
pub proof fn dedupe_hits_law(hits: Seq<KnowledgeHit>)
    ensures
        forall|i: int, j: int|
            0 <= i < j < dedupe_spec(hits).len() ==> hit_key_spec(#[trigger] dedupe_spec(hits)[i]) != hit_key_spec(
                #[trigger] dedupe_spec(hits)[j],
            ),
        forall|j: int| 0 <= j < hits.len() ==> key_seen(dedupe_spec(hits), #[trigger] hit_key_spec(hits[j])),
        forall|i: int| #![trigger dedupe_spec(hits)[i]] 0 <= i < dedupe_spec(hits).len() ==> exists|j: int| 0 <= j < hits.len() && #[trigger] hits[j]
            == dedupe_spec(hits)[i],
{
    lemma_dedupe_keys_unique(hits);
    lemma_dedupe_keeps_keys(hits);
    lemma_dedupe_from_input(hits);
}

/// The merge returns at most `limit` hits, and when the deduplicated local
/// hits fill the limit, it returns exactly the first `limit` of them: local
/// hits win over external ones.
pub proof fn merge_prefers_local_law(local: Seq<KnowledgeHit>, external: Seq<KnowledgeHit>, limit: nat)
    ensures
        merge_spec(local, external, limit).len() <= limit,
        dedupe_spec(local).len() >= limit ==> merge_spec(local, external, limit) == dedupe_spec(local).take(
            limit as int,
        ),
        dedupe_spec(local).len() < limit ==> merge_spec(local, external, limit).take(dedupe_spec(local).len() as int)
            == dedupe_spec(local),
{
    lemma_dedupe_prefix(local, external);
    let d = dedupe_spec(local);
    let all = dedupe_spec(local + external);
    if d.len() >= limit {
        assert(all.take(limit as int) =~= d.take(limit as int));
    } else {
        if all.len() > limit {
            assert(all.take(limit as int).take(d.len() as int) =~= all.take(d.len() as int));
        }
    }
}

} // verus!
