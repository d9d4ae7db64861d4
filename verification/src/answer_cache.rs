//! The answer cache: answers keyed by scene, question and context, looked up
//! before a model call and recorded after one. The cache file itself is read
//! and appended to by the host; these functions decide what is looked up,
//! what a lookup yields and what is recorded.
use vstd::prelude::*;
use crate::execution::{ActionExecution, opt_view, plain_execution};
use crate::text::{
    dec, lowercase_of, push_str, str_eq, strip_ws, summarize_text, summary_of, to_lower, trim, trimmed, without_ws,
};

verus! {

/// One recorded answer.
#[derive(Clone, Debug)]
pub struct AnswerCacheEntry {
    pub cache_key: String,
    pub scene: String,
    pub user_input: String,
    pub context_digest: String,
    pub answer: String,
    pub summary: String,
    pub created_at: String,
}

/// The outcome of a cache lookup: its key, status (`hit`, `miss` or
/// `bypass`), reason, and on a hit the recorded answer and summary.
#[derive(Clone, Debug)]
pub struct AnswerCacheProbe {
    pub cache_key: String,
    pub status: String,
    pub reason: String,
    pub answer: Option<String>,
    pub summary: Option<String>,
}

/// A text as it enters a cache key: white space removed, lower-cased.
pub open spec fn normalize_key_spec(s: Seq<char>) -> Seq<char> {
    lowercase_of(strip_ws(s))
}

/// The key of a question in a scene under a context digest.
pub open spec fn cache_key_spec(scene: Seq<char>, user_input: Seq<char>, digest: Seq<char>) -> Seq<char> {
    scene + "::"@ + normalize_key_spec(user_input) + "::"@ + normalize_key_spec(digest)
}

/// A cache key keeps the context apart: it ends with the normalized
/// context digest, so two keys of one scene and question are equal only
/// when their digests normalize alike, and an answer cached under one
/// context is not found under another.
pub proof fn cache_key_separates_contexts_law(scene: Seq<char>, user_input: Seq<char>, d1: Seq<char>, d2: Seq<char>)
    ensures
        cache_key_spec(scene, user_input, d1).len() >= normalize_key_spec(d1).len(),
        cache_key_spec(scene, user_input, d1).skip(
            cache_key_spec(scene, user_input, d1).len() - normalize_key_spec(d1).len(),
        ) == normalize_key_spec(d1),
        cache_key_spec(scene, user_input, d1) == cache_key_spec(scene, user_input, d2) <==> normalize_key_spec(d1)
            == normalize_key_spec(d2),
        cache_key_spec(scene, user_input, d1).take(scene.len() + 2int) == scene + "::"@,
        forall|q: Seq<char>| cache_key_spec(scene, user_input, d1) == #[trigger] cache_key_spec(scene, q, d1) ==> normalize_key_spec(
            user_input) == normalize_key_spec(q),
{
    reveal_strlit("::");
    let prefix = scene + "::"@ + normalize_key_spec(user_input) + "::"@;
    assert(cache_key_spec(scene, user_input, d1) =~= prefix + normalize_key_spec(d1));
    assert(cache_key_spec(scene, user_input, d2) =~= prefix + normalize_key_spec(d2));
    assert((prefix + normalize_key_spec(d1)).skip(prefix.len() as int) =~= normalize_key_spec(d1));
    assert((prefix + normalize_key_spec(d2)).skip(prefix.len() as int) =~= normalize_key_spec(d2));
    assert(cache_key_spec(scene, user_input, d1).take(scene.len() + 2int) =~= scene + "::"@);
    assert forall|q: Seq<char>| cache_key_spec(scene, user_input, d1) == #[trigger] cache_key_spec(scene, q, d1) implies normalize_key_spec(
        user_input) == normalize_key_spec(q) by {
        let a = normalize_key_spec(user_input);
        let b = normalize_key_spec(q);
        let k1 = cache_key_spec(scene, user_input, d1);
        let k2 = cache_key_spec(scene, q, d1);
        assert(k1.len() == scene.len() + 4 + a.len() + normalize_key_spec(d1).len());
        assert(k2.len() == scene.len() + 4 + b.len() + normalize_key_spec(d1).len());
        assert(k1.subrange(scene.len() + 2int, scene.len() + 2int + a.len()) =~= a);
        assert(k2.subrange(scene.len() + 2int, scene.len() + 2int + b.len()) =~= b);
    }
}

/// A text as it enters a cache key (see `normalize_key_spec`).
pub fn normalize_key(input: &str) -> (r: String)
    ensures
        r@ == normalize_key_spec(input@),
{
    let compact = without_ws(input);
    to_lower(compact.as_str())
}

/// The key of a question in a scene under a context digest.
pub fn cache_key(scene: &str, user_input: &str, context_digest: &str) -> (r: String)
    ensures
        r@ == cache_key_spec(scene@, user_input@, context_digest@),
{
    let mut out = String::from_str(scene);
    push_str(&mut out, "::");
    let a = normalize_key(user_input);
    push_str(&mut out, a.as_str());
    push_str(&mut out, "::");
    let b = normalize_key(context_digest);
    push_str(&mut out, b.as_str());
    out
}

/// A lookup that was not made, for the reason given.
pub fn bypass_probe(reason: &str) -> (p: AnswerCacheProbe)
    ensures
        p.cache_key@.len() == 0,
        p.status@ == "bypass"@,
        p.reason@ == reason@,
        p.answer is None,
        p.summary is None,
{
    AnswerCacheProbe {
        cache_key: String::new(),
        status: String::from_str("bypass"),
        reason: String::from_str(reason),
        answer: None,
        summary: None,
    }
}

/// The reason a lookup gives when it found an answer.
pub const HIT_REASON: &'static str = "命中本地缓存，优先复用最近稳定回答。";

/// A lookup that found `entry` under `cache_key`.
pub fn hit_probe(cache_key: String, entry: AnswerCacheEntry) -> (p: AnswerCacheProbe)
    ensures
        p.cache_key == cache_key,
        p.status@ == "hit"@,
        p.reason@ == HIT_REASON@,
        p.answer == Some(entry.answer),
        p.summary == Some(entry.summary),
{
    AnswerCacheProbe {
        cache_key,
        status: String::from_str("hit"),
        reason: String::from_str(HIT_REASON),
        answer: Some(entry.answer),
        summary: Some(entry.summary),
    }
}

/// The reason of a lookup that found nothing in the scene.
pub open spec fn miss_reason_spec(scene: Seq<char>) -> Seq<char> {
    "当前未命中 `"@ + scene + "` 本地缓存，本轮将生成新回答并回写缓存。"@
}

/// A lookup that found nothing under `cache_key`.
pub fn miss_probe(cache_key: String, scene: &str) -> (p: AnswerCacheProbe)
    ensures
        p.cache_key == cache_key,
        p.status@ == "miss"@,
        p.reason@ == miss_reason_spec(scene@),
        p.answer is None,
        p.summary is None,
{
    let mut reason = String::from_str("当前未命中 `");
    push_str(&mut reason, scene);
    push_str(&mut reason, "` 本地缓存，本轮将生成新回答并回写缓存。");
    AnswerCacheProbe { cache_key, status: String::from_str("miss"), reason, answer: None, summary: None }
}

/// `j` is the position of the last entry recorded under `key`.
pub open spec fn last_with_key(entries: Seq<AnswerCacheEntry>, key: Seq<char>, j: int) -> bool {
    &&& 0 <= j < entries.len()
    &&& entries[j].cache_key@ == key
    &&& forall|k: int| j < k < entries.len() ==> entries[k].cache_key@ != key
}

/// Some entry is recorded under `key`.
pub open spec fn has_key(entries: Seq<AnswerCacheEntry>, key: Seq<char>) -> bool {
    exists|j: int| 0 <= j < entries.len() && #[trigger] entries[j].cache_key@ == key
}

/// The lookup of a question in the recorded entries: a hit on the most
/// recent entry under its key, else a miss.
pub fn probe_answer_cache(
    scene: &str,
    user_input: &str,
    context_digest: &str,
    entries: &Vec<AnswerCacheEntry>,
) -> (p: AnswerCacheProbe)
    ensures
        p.cache_key@ == cache_key_spec(scene@, user_input@, context_digest@),
        p.answer is Some <==> has_key(entries@, p.cache_key@),
        has_key(entries@, p.cache_key@) ==> p.status@ == "hit"@,
        has_key(entries@, p.cache_key@) ==> forall|j: int| #[trigger] last_with_key(entries@, p.cache_key@, j) ==> {
            &&& p.status@ == "hit"@
            &&& p.reason@ == HIT_REASON@
            &&& opt_view(p.answer) == Some(entries@[j].answer@)
            &&& opt_view(p.summary) == Some(entries@[j].summary@)
        },
        !has_key(entries@, p.cache_key@) ==> {
            &&& p.status@ == "miss"@
            &&& p.reason@ == miss_reason_spec(scene@)
            &&& p.answer is None
            &&& p.summary is None
        },
{
    let key = cache_key(scene, user_input, context_digest);
    let mut i: usize = entries.len();
    while i > 0
        invariant
            i <= entries@.len(),
            key@ == cache_key_spec(scene@, user_input@, context_digest@),
            forall|k: int| i <= k < entries@.len() ==> entries@[k].cache_key@ != key@,
        decreases i,
    {
        if str_eq(entries[i - 1].cache_key.as_str(), key.as_str()) {
            let entry = AnswerCacheEntry {
                cache_key: entries[i - 1].cache_key.clone(),
                scene: entries[i - 1].scene.clone(),
                user_input: entries[i - 1].user_input.clone(),
                context_digest: entries[i - 1].context_digest.clone(),
                answer: entries[i - 1].answer.clone(),
                summary: entries[i - 1].summary.clone(),
                created_at: entries[i - 1].created_at.clone(),
            };
            let p = hit_probe(key, entry);
            proof {
                assert(entries@[i - 1].cache_key@ == p.cache_key@);
                assert forall|j: int| #[trigger] last_with_key(entries@, p.cache_key@, j) implies j == i - 1 by {
                    if j < i - 1 {
                        assert(entries@[i - 1].cache_key@ != p.cache_key@);
                    }
                }
            }
            return p;
        }
        i = i - 1;
    }
    miss_probe(key, scene)
}

/// The lookup of a question, made only when a context is available;
/// otherwise a bypass for the reason given.
pub fn probe_answer_cache_or_bypass(
    scene: &str,
    user_input: &str,
    context_digest: &str,
    context_available: bool,
    bypass_reason: &str,
    entries: &Vec<AnswerCacheEntry>,
) -> (p: AnswerCacheProbe)
    ensures
        !context_available ==> p.status@ == "bypass"@ && p.reason@ == bypass_reason@ && p.cache_key@.len() == 0
            && p.answer is None && p.summary is None,
        p.answer is Some ==> p.status@ == "hit"@,
        context_available ==> p.cache_key@ == cache_key_spec(scene@, user_input@, context_digest@) && (
        !has_key(entries@, p.cache_key@) ==> p.status@ == "miss"@ && p.answer is None) && (has_key(
            entries@,
            p.cache_key@,
        ) ==> forall|j: int| #[trigger]
            last_with_key(entries@, p.cache_key@, j) ==> p.status@ == "hit"@ && opt_view(p.answer) == Some(
                entries@[j].answer@,
            ) && opt_view(p.summary) == Some(entries@[j].summary@) && p.reason@ == HIT_REASON@),
{
    if !context_available {
        return bypass_probe(bypass_reason);
    }
    probe_answer_cache(scene, user_input, context_digest, entries)
}

/// Nothing is recorded after a hit or a bypass, without a key, or for a blank answer.
pub open spec fn records_answer(p: AnswerCacheProbe, answer: Seq<char>) -> bool {
    !(p.status@ == "hit"@ || p.status@ == "bypass"@ || p.cache_key@.len() == 0 || trim(answer).len() == 0)
}

/// The entry to record after answering a question the cache missed: the
/// answer in full, the other texts summarized; none when nothing is to be
/// recorded (see `records_answer`).
pub fn answer_cache_entry(
    probe: &AnswerCacheProbe,
    scene: &str,
    user_input: &str,
    context_digest: &str,
    answer: &str,
    summary: &str,
    created_at: &str,
) -> (r: Option<AnswerCacheEntry>)
    ensures
        r is Some <==> records_answer(*probe, answer@),
        r matches Some(e) ==> {
            &&& e.cache_key@ == probe.cache_key@
            &&& e.scene@ == scene@
            &&& e.user_input@ == summary_of(user_input@)
            &&& e.context_digest@ == summary_of(context_digest@)
            &&& e.answer@ == answer@
            &&& e.summary@ == summary_of(summary@)
            &&& e.created_at@ == created_at@
        },
{
    let blank = trimmed(answer);
    if str_eq(probe.status.as_str(), "hit") || str_eq(probe.status.as_str(), "bypass")
        || probe.cache_key.as_str().is_empty() || blank.as_str().is_empty() {
        return None;
    }
    Some(AnswerCacheEntry {
        cache_key: probe.cache_key.clone(),
        scene: String::from_str(scene),
        user_input: summarize_text(user_input),
        context_digest: summarize_text(context_digest),
        answer: String::from_str(answer),
        summary: summarize_text(summary),
        created_at: String::from_str(created_at),
    })
}

/// A recorded answer is the one the next lookup of its question replays:
/// once an entry is appended under a key, it is the most recent entry under
/// that key, and the only one a lookup may answer from.
pub proof fn recorded_answer_is_replayed_law(entries: Seq<AnswerCacheEntry>, e: AnswerCacheEntry)
    ensures
        has_key(entries.push(e), e.cache_key@),
        last_with_key(entries.push(e), e.cache_key@, entries.len() as int),
        forall|j: int| #[trigger] last_with_key(entries.push(e), e.cache_key@, j) ==> j == entries.len(),
{
    let all = entries.push(e);
    assert(all[entries.len() as int] == e);
    assert forall|j: int| #[trigger] last_with_key(all, e.cache_key@, j) implies j == entries.len() by {
        if j < entries.len() {
            assert(all[entries.len() as int].cache_key@ == e.cache_key@);
        }
    }
}

/// The execution that answers from the cache.
pub fn cached_answer(
    action_summary: &str,
    probe: &AnswerCacheProbe,
    answer: String,
    reasoning_summary: String,
) -> (e: ActionExecution)
    ensures
        plain_execution(
            e,
            action_summary@,
            match probe.summary {
                Some(s) => s@,
                None => "已复用本地缓存回答。"@,
            },
            answer@,
            true,
            None,
            reasoning_summary@,
            probe.status@,
            probe.reason@,
        ),
{
    let summary = match &probe.summary {
        Some(s) => s.clone(),
        None => String::from_str("已复用本地缓存回答。"),
    };
    ActionExecution::cached_ok(
        String::from_str(action_summary),
        summary,
        answer,
        reasoning_summary,
        probe.status.clone(),
        probe.reason.clone(),
    )
}

/// The reasoning of an answer reused from the cache.
pub open spec fn cached_reasoning_spec(label: Seq<char>, digest: Seq<char>) -> Seq<char> {
    label + "稳定命中缓存，直接复用最近一次可用回答。上下文摘要："@ + summary_of(digest)
}

/// The reasoning of an answer reused from the cache.
pub fn cached_answer_reasoning(label: &str, context_digest: &str) -> (r: String)
    ensures
        r@ == cached_reasoning_spec(label@, context_digest@),
{
    let mut out = String::from_str(label);
    push_str(&mut out, "稳定命中缓存，直接复用最近一次可用回答。上下文摘要：");
    let d = summarize_text(context_digest);
    push_str(&mut out, d.as_str());
    out
}

} // verus!
