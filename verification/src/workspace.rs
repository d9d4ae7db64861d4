//! Reading, writing, deleting and listing files in the workspace: which
//! paths are refused before the file system is touched, which lines a read
//! shows, and the execution record of each outcome. The host resolves the
//! path inside the workspace and performs the file operation.
use vstd::prelude::*;
use crate::execution::{ActionExecution, plain_execution};
use crate::text::{
    dec, join, join_strings, lines, lines_of, push_str, replace_all, summarize_text, summary_of, trim, trimmed,
    char_count, usize_text, views,
};

verus! {

/// Why file reads never come from the answer cache.
pub const CACHE_READ_REASON: &'static str = "文件读取结果依赖实时文件内容，不使用回答缓存。";

/// Why file writes never come from the answer cache.
pub const CACHE_WRITE_REASON: &'static str = "文件写入属于实时副作用动作，不使用回答缓存。";

/// Why deletions never come from the answer cache.
pub const CACHE_DELETE_REASON: &'static str = "删除属于实时副作用动作，不使用回答缓存。";

/// Why directory listings never come from the answer cache.
pub const CACHE_LIST_REASON: &'static str = "目录浏览依赖实时文件系统状态，不使用回答缓存。";

/// Why file searches never come from the answer cache.
pub const CACHE_SEARCH_REASON: &'static str = "文件搜索依赖实时文件系统状态，不使用回答缓存。";

/// The summary when a path cannot be placed inside the workspace.
pub const OUT_OF_WORKSPACE: &'static str = "目标路径越界或解析失败";

/// Why an empty path is refused.
pub const EMPTY_PATH_REASON: &'static str = "目标路径为空，请提供可读取的文件路径。";

/// Why a path that lost its encoding is refused.
pub const PLACEHOLDER_REASON: &'static str = "目标路径包含 `?`，疑似发生编码丢失；请改用 ASCII 路径或先 list 目录后复制路径重试。";

/// Why a path with a forbidden character is refused.
pub const BAD_CHAR_REASON: &'static str = "目标路径包含非法字符；请使用标准文件路径（不要包含 * \" < > |）。";

/// What a binary file read answers.
pub const BINARY_FILE: &'static str = "目标文件为二进制文件，不支持文本读取。";

// ---------------------------------------------------------------------------
// Path checks
// ---------------------------------------------------------------------------

/// A path as given, trimmed, with backslashes turned into slashes.
pub open spec fn normalized_path_spec(path: Seq<char>) -> Seq<char> {
    replace_all(trim(path), "\\"@, "/"@)
}

/// A path as given, trimmed, with backslashes turned into slashes.
pub fn normalize_explicit_path(path: &str) -> (r: String)
    ensures
        r@ == normalized_path_spec(path@),
{
    proof {
        reveal_strlit("\\");
    }
    let t = trimmed(path);
    crate::text::replace(t.as_str(), "\\", "/")
}

/// A control character (general category Cc), as `char::is_control` tells.
pub open spec fn is_control_char(c: char) -> bool {
    c <= '\u{1f}' || ('\u{7f}' <= c && c <= '\u{9f}')
}

/// A character that shows a path lost its encoding.
pub open spec fn is_placeholder_char(c: char) -> bool {
    c == '?' || c == '？' || c == '\u{FFFD}' || is_control_char(c)
}

/// A character no path may hold.
pub open spec fn is_bad_path_char(c: char) -> bool {
    c == '*' || c == '"' || c == '<' || c == '>' || c == '|' || c == '\0'
}

/// Some character of `s` satisfies `p`.
pub open spec fn any_char(s: Seq<char>, p: spec_fn(char) -> bool) -> bool {
    exists|i: int| 0 <= i < s.len() && #[trigger] p(s[i])
}

/// Why a path is refused before the file system is touched, if it is.
pub open spec fn invalid_path_reason_spec(path: Seq<char>) -> Option<Seq<char>> {
    if path.len() == 0 {
        Some(EMPTY_PATH_REASON@)
    } else if any_char(path, |c: char| is_placeholder_char(c)) {
        Some(PLACEHOLDER_REASON@)
    } else if any_char(path, |c: char| is_bad_path_char(c)) {
        Some(BAD_CHAR_REASON@)
    } else {
        None
    }
}

fn first_char_where(v: &Vec<char>, bad: bool) -> (r: bool)
    ensures
        bad ==> r == any_char(v@, |c: char| is_bad_path_char(c)),
        !bad ==> r == any_char(v@, |c: char| is_placeholder_char(c)),
{
    let mut i: usize = 0;
    while i < v.len()
        invariant
            i <= v@.len(),
            bad ==> forall|j: int| 0 <= j < i ==> !is_bad_path_char(#[trigger] v@[j]),
            !bad ==> forall|j: int| 0 <= j < i ==> !is_placeholder_char(#[trigger] v@[j]),
        decreases v.len() - i,
    {
        let c = v[i];
        let hit = if bad {
            c == '*' || c == '"' || c == '<' || c == '>' || c == '|' || c == '\0'
        } else {
            c == '?' || c == '？' || c == '\u{FFFD}' || c <= '\u{1f}' || ('\u{7f}' <= c && c <= '\u{9f}')
        };
        if hit {
            assert(bad ==> (|c: char| is_bad_path_char(c))(v@[i as int]));
            assert(!bad ==> (|c: char| is_placeholder_char(c))(v@[i as int]));
            return true;
        }
        i = i + 1;
    }
    false
}

/// Whether the path holds a character that shows a lost encoding.
pub fn has_encoding_placeholder(path: &str) -> (r: bool)
    ensures
        r == any_char(path@, |c: char| is_placeholder_char(c)),
{
    let v = crate::text::chars_of(path);
    first_char_where(&v, false)
}

/// Why a path is refused, if it is (see `invalid_path_reason_spec`).
pub fn invalid_explicit_path_reason(path: &str) -> (r: Option<&'static str>)
    ensures
        match r {
            Some(reason) => invalid_path_reason_spec(path@) == Some(reason@),
            None => invalid_path_reason_spec(path@) is None,
        },
{
    if path.is_empty() {
        return Some(EMPTY_PATH_REASON);
    }
    let v = crate::text::chars_of(path);
    if first_char_where(&v, false) {
        return Some(PLACEHOLDER_REASON);
    }
    if first_char_where(&v, true) {
        return Some(BAD_CHAR_REASON);
    }
    None
}

/// The execution of an operation refused for its path.
pub fn invalid_path(action: &str, path: &str, summary: &str, cache_reason: &str) -> (e: ActionExecution)
    ensures
        plain_execution(e, action@ + "："@ + path@, summary@, summary@, false, None, summary@, "bypass"@, cache_reason@),
{
    let mut a = String::from_str(action);
    push_str(&mut a, "：");
    push_str(&mut a, path);
    ActionExecution::bypass_fail(a, String::from_str(summary), String::from_str(summary), String::from_str(summary), cache_reason)
}

/// The path an operation goes on with, normalized, or the execution that
/// refuses it.
pub fn precheck_path(action: &str, path: &str, cache_reason: &str) -> (r: Result<String, ActionExecution>)
    ensures
        match r {
            Ok(p) => p@ == normalized_path_spec(path@) && invalid_path_reason_spec(p@) is None,
            Err(e) => invalid_path_reason_spec(normalized_path_spec(path@)) matches Some(reason) && plain_execution(e,
                action@ + "："@ + normalized_path_spec(path@), reason, reason, false, None, reason, "bypass"@,
                cache_reason@),
        },
{
    let normalized = normalize_explicit_path(path);
    match invalid_explicit_path_reason(normalized.as_str()) {
        Some(reason) => Err(invalid_path(action, normalized.as_str(), reason, cache_reason)),
        None => Ok(normalized),
    }
}

/// The execution of an operation whose path lies outside the workspace.
pub fn out_of_workspace(action: &str, path: &str, cache_reason: &str) -> (e: ActionExecution)
    ensures
        plain_execution(e, action@ + "："@ + path@, OUT_OF_WORKSPACE@, OUT_OF_WORKSPACE@, false, None, OUT_OF_WORKSPACE@,
            "bypass"@, cache_reason@),
{
    invalid_path(action, path, OUT_OF_WORKSPACE, cache_reason)
}

/// Whether the first bytes of a file (up to 8192 read) mark it as binary:
/// a zero byte among the first 512.
pub open spec fn binary_chunk_spec(chunk: Seq<u8>) -> bool {
    exists|i: int| 0 <= i < chunk.len() && i < 512 && chunk[i] == 0
}

/// Whether the first bytes of a file mark it as binary.
pub fn is_binary_chunk(chunk: &[u8]) -> (r: bool)
    ensures
        r == binary_chunk_spec(chunk@),
{
    let n = if chunk.len() < 512 { chunk.len() } else { 512 };
    let mut i: usize = 0;
    while i < n
        invariant
            i <= n,
            n <= chunk@.len(),
            n == chunk@.len() || n == 512,
            n <= 512,
            forall|j: int| 0 <= j < i ==> chunk@[j] != 0,
        decreases n - i,
    {
        if chunk[i] == 0 {
            assert(0 <= i < chunk@.len() && i < 512 && chunk@[i as int] == 0);
            return true;
        }
        i = i + 1;
    }
    false
}

// ---------------------------------------------------------------------------
// Execution records
// ---------------------------------------------------------------------------

/// A successful workspace operation.
pub fn ok_op(action_summary: String, result_summary: String, final_answer: String, reasoning: &str, cache_reason: &str) -> (e: ActionExecution)
    ensures
        plain_execution(e, action_summary@, result_summary@, final_answer@, true, None, reasoning@, "bypass"@, cache_reason@),
{
    ActionExecution::bypass_ok(action_summary, result_summary, final_answer, String::from_str(reasoning), cache_reason)
}

/// A failed workspace operation.
pub fn fail_op(action_summary: String, result_summary: String, final_answer: String, reasoning: &str, cache_reason: &str) -> (e: ActionExecution)
    ensures
        plain_execution(e, action_summary@, result_summary@, final_answer@, false, None, reasoning@, "bypass"@, cache_reason@),
{
    ActionExecution::bypass_fail(action_summary, result_summary, final_answer, String::from_str(reasoning), cache_reason)
}

fn labelled(label: &str, value: &str) -> (r: String)
    ensures
        r@ == label@ + value@,
{
    let mut out = String::from_str(label);
    push_str(&mut out, value);
    out
}

/// The execution of a read refused because the file is binary.
pub fn binary_file_read(path: &str) -> (e: ActionExecution)
    ensures
        plain_execution(e, "读取文件："@ + path@, BINARY_FILE@, BINARY_FILE@, false, None, "二进制文件拒绝读取，返回错误。"@,
            "bypass"@, CACHE_READ_REASON@),
{
    fail_op(labelled("读取文件：", path), String::from_str(BINARY_FILE), String::from_str(BINARY_FILE),
        "二进制文件拒绝读取，返回错误。", CACHE_READ_REASON)
}

/// The execution of a read that failed with `error`.
pub fn failed_file_read(path: &str, error: &str) -> (e: ActionExecution)
    ensures
        plain_execution(e, "读取文件："@ + path@, "文件读取失败："@ + error@, "文件读取失败："@ + error@, false, None,
            "目标文件读取失败，按错误直接返回。"@, "bypass"@, CACHE_READ_REASON@),
{
    fail_op(labelled("读取文件：", path), labelled("文件读取失败：", error), labelled("文件读取失败：", error),
        "目标文件读取失败，按错误直接返回。", CACHE_READ_REASON)
}

/// The execution of a write whose parent folder could not be created.
pub fn fail_create_parent_dir(resolved: &str, error: &str, cache_reason: &str) -> (e: ActionExecution)
    ensures
        plain_execution(e, "写入文件："@ + resolved@, "目录创建失败："@ + error@, "写入前创建目录失败："@ + error@, false,
            None, "写入前置目录创建失败，未进入文件写入阶段。"@, "bypass"@, cache_reason@),
{
    fail_op(labelled("写入文件：", resolved), labelled("目录创建失败：", error), labelled("写入前创建目录失败：", error),
        "写入前置目录创建失败，未进入文件写入阶段。", cache_reason)
}

/// The execution of a write that failed with `error`.
pub fn fail_write_file(resolved: &str, error: &str, cache_reason: &str) -> (e: ActionExecution)
    ensures
        plain_execution(e, "写入文件："@ + resolved@, "文件写入失败："@ + error@, "文件写入失败："@ + error@, false, None,
            "文件写入过程中出现系统错误，直接按失败收口。"@, "bypass"@, cache_reason@),
{
    fail_op(labelled("写入文件：", resolved), labelled("文件写入失败：", error), labelled("文件写入失败：", error),
        "文件写入过程中出现系统错误，直接按失败收口。", cache_reason)
}

/// Whether a write mode asks to append (`append`, in any case).
pub open spec fn is_append_spec(mode: Option<Seq<char>>) -> bool {
    match mode {
        Some(m) => crate::text::ascii_lower(m) == "append"@,
        None => false,
    }
}

/// Whether a write mode asks to append.
pub fn is_append_mode(mode: Option<&str>) -> (r: bool)
    ensures
        r == is_append_spec(match mode {
            Some(m) => Some(m@),
            None => None,
        }),
{
    match mode {
        Some(m) => {
            let lower = crate::text::to_ascii_lower(m);
            crate::text::str_eq(lower.as_str(), "append")
        },
        None => false,
    }
}

/// The execution of a completed write of `content`.
pub fn ok_file_write(resolved: &str, content: &str) -> (e: ActionExecution)
    ensures
        plain_execution(e, "写入文件："@ + resolved@, "文件写入成功，共写入 "@ + dec(content@.len()) + " 个字符。"@,
            "文件写入完成："@ + resolved@ + "\n写入字符数："@ + dec(content@.len()) + "\n内容摘要："@ + summary_of(content@),
            true, None, "先校验工作区路径，再直接写入目标文件并返回摘要。"@, "bypass"@, CACHE_WRITE_REASON@),
{
    let n = usize_text(char_count(content));
    let mut summary = String::from_str("文件写入成功，共写入 ");
    push_str(&mut summary, n.as_str());
    push_str(&mut summary, " 个字符。");
    let mut answer = String::from_str("文件写入完成：");
    push_str(&mut answer, resolved);
    push_str(&mut answer, "\n写入字符数：");
    push_str(&mut answer, n.as_str());
    push_str(&mut answer, "\n内容摘要：");
    let s = summarize_text(content);
    push_str(&mut answer, s.as_str());
    ok_op(labelled("写入文件：", resolved), summary, answer, "先校验工作区路径，再直接写入目标文件并返回摘要。", CACHE_WRITE_REASON)
}

/// The execution of a completed append of `content`.
pub fn ok_file_append(resolved: &str, content: &str) -> (e: ActionExecution)
    ensures
        plain_execution(e, "追加写入："@ + resolved@, "文件追加成功，共追加 "@ + dec(content@.len()) + " 个字符。"@,
            "文件追加完成："@ + resolved@ + "\n追加字符数："@ + dec(content@.len()) + "\n内容摘要："@ + summary_of(content@),
            true, None, "先校验工作区路径，再追加写入目标文件。"@, "bypass"@, CACHE_WRITE_REASON@),
{
    let n = usize_text(char_count(content));
    let mut summary = String::from_str("文件追加成功，共追加 ");
    push_str(&mut summary, n.as_str());
    push_str(&mut summary, " 个字符。");
    let mut answer = String::from_str("文件追加完成：");
    push_str(&mut answer, resolved);
    push_str(&mut answer, "\n追加字符数：");
    push_str(&mut answer, n.as_str());
    push_str(&mut answer, "\n内容摘要：");
    let s = summarize_text(content);
    push_str(&mut answer, s.as_str());
    ok_op(labelled("追加写入：", resolved), summary, answer, "先校验工作区路径，再追加写入目标文件。", CACHE_WRITE_REASON)
}

/// The execution of a completed deletion.
pub fn ok_file_delete(resolved: &str) -> (e: ActionExecution)
    ensures
        plain_execution(e, "删除路径："@ + resolved@, "目标路径已删除。"@, "删除完成："@ + resolved@, true, None,
            "按目标类型执行删除，并将删除结果直接回传。"@, "bypass"@, CACHE_DELETE_REASON@),
{
    ok_op(labelled("删除路径：", resolved), String::from_str("目标路径已删除。"), labelled("删除完成：", resolved),
        "按目标类型执行删除，并将删除结果直接回传。", CACHE_DELETE_REASON)
}

/// The execution of a deletion that failed with `error`.
pub fn failed_delete(resolved: &str, error: &str) -> (e: ActionExecution)
    ensures
        plain_execution(e, "删除路径："@ + resolved@, "删除失败："@ + error@, "删除失败："@ + error@, false, None,
            "删除阶段失败，直接按系统错误返回。"@, "bypass"@, CACHE_DELETE_REASON@),
{
    fail_op(labelled("删除路径：", resolved), labelled("删除失败：", error), labelled("删除失败：", error),
        "删除阶段失败，直接按系统错误返回。", CACHE_DELETE_REASON)
}

/// The execution of a listing whose folder could not be read.
pub fn failed_list(resolved: &str, error: &str) -> (e: ActionExecution)
    ensures
        plain_execution(e, "列出目录："@ + resolved@, "目录列举失败："@ + error@, "目录列举失败："@ + error@, false, None,
            "目录读取失败，按系统错误直接返回。"@, "bypass"@, CACHE_LIST_REASON@),
{
    fail_op(labelled("列出目录：", resolved), labelled("目录列举失败：", error), labelled("目录列举失败：", error),
        "目录读取失败，按系统错误直接返回。", CACHE_LIST_REASON)
}

// ---------------------------------------------------------------------------
// Reading a range of lines
// ---------------------------------------------------------------------------

/// The lines a read shows: from line `offset` (1-based, default 1) at most
/// `limit` lines (default all), joined by line breaks.
pub open spec fn selected_lines_spec(content: Seq<char>, offset: Option<usize>, limit: Option<usize>) -> Seq<char> {
    let ls = lines_of(content);
    let s0: int = match offset {
        Some(o) => if o == 0 { 0 } else { o - 1 },
        None => 0,
    };
    let start: int = if s0 < ls.len() { s0 } else { ls.len() as int };
    let end: int = match limit {
        Some(l) => if start + l < ls.len() { start + l } else { ls.len() as int },
        None => ls.len() as int,
    };
    join(ls.subrange(start, end), "\n"@)
}

/// The lines a read shows (see `selected_lines_spec`).
pub fn select_lines(content: &str, offset: Option<usize>, limit: Option<usize>) -> (r: String)
    ensures
        r@ == selected_lines_spec(content@, offset, limit),
{
    let ls = lines(content);
    let ghost l = views(ls@);
    let s0: usize = match offset {
        Some(o) => if o == 0 { 0 } else { o - 1 },
        None => 0,
    };
    let start: usize = if s0 < ls.len() { s0 } else { ls.len() };
    let end: usize = match limit {
        Some(lim) => if lim < ls.len() - start { start + lim } else { ls.len() },
        None => ls.len(),
    };
    let mut parts: Vec<String> = Vec::new();
    let mut i: usize = start;
    while i < end
        invariant
            start <= i <= end <= ls@.len(),
            views(parts@) == l.subrange(start as int, i as int),
            l == views(ls@),
        decreases end - i,
    {
        let ghost before = parts@;
        let item = ls[i].clone();
        assert(item@ == l[i as int]);
        parts.push(item);
        assert(views(parts@) =~= views(before).push(l[i as int]));
        assert(views(parts@) =~= l.subrange(start as int, i + 1));
        i = i + 1;
    }
    let r = join_strings(parts.as_slice(), "\n");
    assert(parts@.map_values(|s: String| s@) =~= views(parts@));
    r
}

/// The result summary of a read: how many lines were shown when not all.
pub open spec fn read_summary_spec(content: Seq<char>, shown: nat) -> Seq<char> {
    let total = lines_of(content).len();
    if shown < total {
        "文件读取成功，显示 "@ + dec(shown) + "/"@ + dec(total) + " 行（文件共 "@ + dec(content.len()) + " 字符）。"@
    } else {
        "文件读取成功，"@ + dec(total) + " 行。"@
    }
}

/// The answer of a read: the selected lines with their range, or a summary
/// of the whole file when no range was asked for.
pub open spec fn read_display_spec(resolved: Seq<char>, content: Seq<char>, offset: Option<usize>, limit: Option<usize>) -> Seq<char> {
    let selected = selected_lines_spec(content, offset, limit);
    let total = lines_of(content).len();
    if offset is Some || limit is Some {
        let start: nat = match offset {
            Some(o) => o as nat,
            None => 1,
        };
        let k = lines_of(selected).len();
        let back: nat = if k == 0 { 0 } else { (k - 1) as nat };
        let end: nat = if start + back <= usize::MAX { start + back } else { usize::MAX as nat };
        if total > 0 {
            "文件读取完成（行 "@ + dec(start) + "-"@ + dec(end) + "/"@ + dec(total) + "）："@ + resolved + "\n"@ + selected
        } else {
            "文件读取完成："@ + resolved + "\n"@ + selected
        }
    } else {
        "文件读取完成："@ + resolved + "\n"@ + summary_of(content)
    }
}

/// The execution of a completed read.
pub fn ok_file_read(resolved: &str, content: &str, offset: Option<usize>, limit: Option<usize>) -> (e: ActionExecution)
    ensures
        plain_execution(
            e,
            "读取文件："@ + resolved@,
            read_summary_spec(content@, lines_of(selected_lines_spec(content@, offset, limit)).len()),
            read_display_spec(resolved@, content@, offset, limit),
            true,
            None,
            "读取目标文件，支持行范围与二进制检测。"@,
            "bypass"@,
            CACHE_READ_REASON@,
        ),
{
    let total_lines = lines(content).len();
    let selected = select_lines(content, offset, limit);
    let shown = lines(selected.as_str()).len();
    let display = if offset.is_some() || limit.is_some() {
        let start: usize = match offset {
            Some(o) => o,
            None => 1,
        };
        let back: usize = if shown == 0 { 0 } else { shown - 1 };
        let end: usize = start.saturating_add(back);
        if total_lines > 0 {
            let mut d = String::from_str("文件读取完成（行 ");
            let a = usize_text(start);
            push_str(&mut d, a.as_str());
            push_str(&mut d, "-");
            let b = usize_text(end);
            push_str(&mut d, b.as_str());
            push_str(&mut d, "/");
            let c = usize_text(total_lines);
            push_str(&mut d, c.as_str());
            push_str(&mut d, "）：");
            push_str(&mut d, resolved);
            push_str(&mut d, "\n");
            push_str(&mut d, selected.as_str());
            d
        } else {
            let mut d = String::from_str("文件读取完成：");
            push_str(&mut d, resolved);
            push_str(&mut d, "\n");
            push_str(&mut d, selected.as_str());
            d
        }
    } else {
        let mut d = String::from_str("文件读取完成：");
        push_str(&mut d, resolved);
        push_str(&mut d, "\n");
        let s = summarize_text(content);
        push_str(&mut d, s.as_str());
        d
    };
    let summary = if shown < total_lines {
        let mut s = String::from_str("文件读取成功，显示 ");
        let a = usize_text(shown);
        push_str(&mut s, a.as_str());
        push_str(&mut s, "/");
        let b = usize_text(total_lines);
        push_str(&mut s, b.as_str());
        push_str(&mut s, " 行（文件共 ");
        let c = usize_text(char_count(content));
        push_str(&mut s, c.as_str());
        push_str(&mut s, " 字符）。");
        s
    } else {
        let mut s = String::from_str("文件读取成功，");
        let a = usize_text(total_lines);
        push_str(&mut s, a.as_str());
        push_str(&mut s, " 行。");
        s
    };
    ok_op(labelled("读取文件：", resolved), summary, display, "读取目标文件，支持行范围与二进制检测。", CACHE_READ_REASON)
}

} // verus!
