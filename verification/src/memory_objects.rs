//! Versions of a memory object: finding a version and comparing two. The
//! host reads the versions from the store.
use vstd::prelude::*;
use crate::text::{push_str, str_eq, summarize_text, summary_of};

verus! {

/// One stored version of a memory object.
#[derive(Clone, Debug)]
pub struct MemoryObjectVersion {
    pub object_id: String,
    pub version_id: String,
    pub canonical_uri: String,
    pub summary: String,
    pub content: String,
    pub is_current: bool,
    pub restored_from_version_id: String,
    pub created_at: String,
}

/// What changed between two versions of a memory object.
#[derive(Clone, Debug)]
pub struct MemoryObjectDiff {
    pub object_id: String,
    pub from_version_id: String,
    pub to_version_id: String,
    pub summary_changed: bool,
    pub content_changed: bool,
    pub from_summary: String,
    pub to_summary: String,
    pub from_content_excerpt: String,
    pub to_content_excerpt: String,
}

/// The position of the first version with the id, if any.
pub open spec fn version_index(versions: Seq<MemoryObjectVersion>, id: Seq<char>) -> Option<int> {
    if exists|i: int| 0 <= i < versions.len() && #[trigger] versions[i].version_id@ == id {
        Some(choose|i: int| 0 <= i < versions.len() && #[trigger] versions[i].version_id@ == id
            && forall|j: int| 0 <= j < i ==> versions[j].version_id@ != id)
    } else {
        None
    }
}

/// The error of a version that is not stored.
pub open spec fn missing_version(id: Seq<char>) -> Seq<char> {
    "未找到 memory object 版本："@ + id
}

/// The first version with the id, or the error that there is none.
pub fn find_version(versions: &[MemoryObjectVersion], version_id: &str) -> (r: Result<usize, String>)
    ensures
        match r {
            Ok(i) => version_index(versions@, version_id@) == Some(i as int) && i < versions@.len(),
            Err(e) => version_index(versions@, version_id@) is None && e@ == missing_version(version_id@),
        },
{
    let mut i: usize = 0;
    while i < versions.len()
        invariant
            i <= versions@.len(),
            forall|j: int| 0 <= j < i ==> versions@[j].version_id@ != version_id@,
        decreases versions.len() - i,
    {
        if str_eq(versions[i].version_id.as_str(), version_id) {
            proof {
                let w = choose|k: int| 0 <= k < versions@.len() && #[trigger] versions@[k].version_id@ == version_id@
                    && forall|j: int| 0 <= j < k ==> versions@[j].version_id@ != version_id@;
                assert(0 <= i < versions@.len() && versions@[i as int].version_id@ == version_id@);
                if w < i {
                    assert(versions@[w].version_id@ != version_id@);
                }
                if i < w {
                    assert(versions@[i as int].version_id@ != version_id@);
                }
            }
            return Ok(i);
        }
        i = i + 1;
    }
    let mut e = String::from_str("未找到 memory object 版本：");
    push_str(&mut e, version_id);
    Err(e)
}

/// What changed from one version to another.
pub open spec fn diff_spec(d: MemoryObjectDiff, object_id: Seq<char>, from: MemoryObjectVersion, to: MemoryObjectVersion) -> bool {
    &&& d.object_id@ == object_id
    &&& d.from_version_id@ == from.version_id@
    &&& d.to_version_id@ == to.version_id@
    &&& d.summary_changed == (from.summary@ != to.summary@)
    &&& d.content_changed == (from.content@ != to.content@)
    &&& d.from_summary@ == from.summary@
    &&& d.to_summary@ == to.summary@
    &&& d.from_content_excerpt@ == summary_of(from.content@)
    &&& d.to_content_excerpt@ == summary_of(to.content@)
}

/// What changed from one version to another (see `diff_spec`).
pub fn build_version_diff(object_id: &str, from: &MemoryObjectVersion, to: &MemoryObjectVersion) -> (d: MemoryObjectDiff)
    ensures
        diff_spec(d, object_id@, *from, *to),
{
    MemoryObjectDiff {
        object_id: String::from_str(object_id),
        from_version_id: from.version_id.clone(),
        to_version_id: to.version_id.clone(),
        summary_changed: !str_eq(from.summary.as_str(), to.summary.as_str()),
        content_changed: !str_eq(from.content.as_str(), to.content.as_str()),
        from_summary: from.summary.clone(),
        to_summary: to.summary.clone(),
        from_content_excerpt: summarize_text(from.content.as_str()),
        to_content_excerpt: summarize_text(to.content.as_str()),
    }
}

/// The comparison of two stored versions of an object, or the error of the
/// first version that is not stored.
pub fn diff_memory_object_versions(
    versions: &[MemoryObjectVersion],
    object_id: &str,
    from_version_id: &str,
    to_version_id: &str,
) -> (r: Result<MemoryObjectDiff, String>)
    ensures
        match version_index(versions@, from_version_id@) {
            None => r is Err && r->Err_0@ == missing_version(from_version_id@),
            Some(f) => match version_index(versions@, to_version_id@) {
                None => r is Err && r->Err_0@ == missing_version(to_version_id@),
                Some(t) => r is Ok && diff_spec(r->Ok_0, object_id@, versions@[f], versions@[t]),
            },
        },
{
    let f = match find_version(versions, from_version_id) {
        Ok(i) => i,
        Err(e) => { return Err(e); },
    };
    let t = match find_version(versions, to_version_id) {
        Ok(i) => i,
        Err(e) => { return Err(e); },
    };
    Ok(build_version_diff(object_id, &versions[f], &versions[t]))
}

} // verus!
