//! Large results kept out of the event stream: when a result is stored as
//! an artifact file, under which name, and the index record that points at
//! it. The host writes the file and appends the record.
use vstd::prelude::*;
use crate::text::{char_count, is_blank, push_str, summarize_text, summary_of, trimmed};

verus! {

/// Results shorter than this many characters stay inline.
pub const ARTIFACT_MIN_CHARS: usize = 240;

/// The index record of a stored artifact.
#[derive(Clone, Debug)]
pub struct ArtifactRecord {
    pub kind: String,
    pub path: String,
    pub preview: String,
    pub content_chars: usize,
    pub created_at: String,
}

/// Whether a text result is stored as an artifact: when it has at least
/// `ARTIFACT_MIN_CHARS` characters.
pub fn should_externalize(content: &str) -> (r: bool)
    ensures
        r == (content@.len() >= ARTIFACT_MIN_CHARS),
{
    char_count(content) >= ARTIFACT_MIN_CHARS
}

/// Whether a text result that is always kept is stored: when it is not blank.
pub fn should_externalize_always(content: &str) -> (r: bool)
    ensures
        r == !is_blank(content@),
{
    let t = trimmed(content);
    !t.as_str().is_empty()
}

/// The file name of an artifact: its kind, the time, and the extension.
pub fn artifact_file_name(kind: &str, timestamp: &str, extension: &str) -> (r: String)
    ensures
        r@ == kind@ + "-"@ + timestamp@ + "."@ + extension@,
{
    let mut out = String::from_str(kind);
    push_str(&mut out, "-");
    push_str(&mut out, timestamp);
    push_str(&mut out, ".");
    push_str(&mut out, extension);
    out
}

/// The index record of an artifact saved at `saved_path`: its kind, a
/// preview and the length of its content, and when it was made.
pub fn artifact_record(kind: &str, saved_path: &str, content: &str, created_at: &str) -> (r: ArtifactRecord)
    ensures
        r.kind@ == kind@,
        r.path@ == saved_path@,
        r.preview@ == summary_of(content@),
        r.content_chars == content@.len(),
        r.created_at@ == created_at@,
{
    ArtifactRecord {
        kind: String::from_str(kind),
        path: String::from_str(saved_path),
        preview: summarize_text(content),
        content_chars: char_count(content),
        created_at: String::from_str(created_at),
    }
}

} // verus!
