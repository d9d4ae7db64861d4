//! Applying a unified diff in the workspace: the grammar of the diff (file
//! blocks, hunks and pure renames), the kind of each file change, how hunks
//! are matched against the current text, the checks before anything is
//! written, the file operations that write and undo a change, and the
//! reports. The host resolves the paths in the workspace, reads the files
//! and performs the file operations.
use vstd::prelude::*;
use crate::text::{has_prefix, is_ws, lines, lines_of, push_str, starts_with, trim, trimmed, views};

verus! {

/// Why patch results never come from the answer cache.
pub const CACHE_REASON: &'static str = "patch 应用属于实时文件副作用动作，不使用回答缓存。";

/// The error of a diff without a file block.
pub const NO_FILE_BLOCK: &'static str = "diff 缺少文件块。";

/// The error of a file block without its `+++` line.
pub const NO_NEW_HEADER: &'static str = "diff 文件块缺少 +++ 文件路径。";

/// The error of a header without a path.
pub const EMPTY_HEADER_PATH: &'static str = "diff 文件路径为空。";

/// The error of a file block without a hunk.
pub const NO_HUNK: &'static str = "diff 缺少 hunk。";

/// The error of a rename section without a path.
pub const NO_RENAME_PATH: &'static str = "rename patch 缺少路径。";

/// One hunk: the lines it expects and the lines it puts in their place.
#[derive(Clone, Debug)]
pub struct Hunk {
    pub old_lines: Vec<String>,
    pub new_lines: Vec<String>,
}

/// The changes a diff makes to one file.
#[derive(Clone, Debug)]
pub struct FilePatch {
    pub old_path: Option<String>,
    pub new_path: Option<String>,
    pub hunks: Vec<Hunk>,
}

/// A hunk as plain values.
pub type HunkModel = (Seq<Seq<char>>, Seq<Seq<char>>);

/// A file patch as plain values.
pub type FilePatchModel = (Option<Seq<char>>, Option<Seq<char>>, Seq<HunkModel>);

pub open spec fn hunk_model(h: Hunk) -> HunkModel {
    (views(h.old_lines@), views(h.new_lines@))
}

pub open spec fn opt_view(o: Option<String>) -> Option<Seq<char>> {
    match o {
        Some(s) => Some(s@),
        None => None,
    }
}

pub open spec fn patch_model(p: FilePatch) -> FilePatchModel {
    (opt_view(p.old_path), opt_view(p.new_path), p.hunks@.map_values(|h: Hunk| hunk_model(h)))
}

pub open spec fn patch_models(ps: Seq<FilePatch>) -> Seq<FilePatchModel> {
    ps.map_values(|p: FilePatch| patch_model(p))
}

// ---------------------------------------------------------------------------
// Headers and paths
// ---------------------------------------------------------------------------

/// A text with every leading copy of `marker` removed (`str::trim_start_matches`).
pub open spec fn strip_all_prefix(s: Seq<char>, marker: Seq<char>) -> Seq<char>
    decreases s.len(),
{
    if marker.len() > 0 && has_prefix(s, marker) {
        strip_all_prefix(s.skip(marker.len() as int), marker)
    } else {
        s
    }
}

/// The position of the first white space character of `s`, or its length.
pub open spec fn first_ws(s: Seq<char>) -> nat
    decreases s.len(),
{
    if s.len() == 0 {
        0
    } else if is_ws(s[0]) {
        0
    } else {
        1 + first_ws(s.drop_first())
    }
}

/// The path of a header line: the first word after the marker(s), if any.
pub open spec fn header_path_spec(line: Seq<char>, marker: Seq<char>) -> Option<Seq<char>> {
    let v = trim(strip_all_prefix(line, marker));
    if v.len() == 0 {
        None
    } else {
        Some(v.take(first_ws(v) as int))
    }
}

proof fn lemma_first_ws_bound(s: Seq<char>)
    ensures
        first_ws(s) <= s.len(),
        forall|k: int| 0 <= k < first_ws(s) ==> !is_ws(#[trigger] s[k]),
        first_ws(s) < s.len() ==> is_ws(s[first_ws(s) as int]),
    decreases s.len(),
{
    if s.len() > 0 && !is_ws(s[0]) {
        lemma_first_ws_bound(s.drop_first());
        assert forall|k: int| 0 <= k < first_ws(s) implies !is_ws(#[trigger] s[k]) by {
            if k > 0 {
                assert(s[k] == s.drop_first()[k - 1]);
            }
        }
    }
}

proof fn lemma_first_ws_is(s: Seq<char>, i: int)
    requires
        0 <= i <= s.len(),
        forall|k: int| 0 <= k < i ==> !is_ws(#[trigger] s[k]),
        i < s.len() ==> is_ws(s[i]),
    ensures
        first_ws(s) == i,
    decreases s.len(),
{
    if s.len() > 0 && i > 0 {
        assert(!is_ws(s[0]));
        assert forall|k: int| 0 <= k < i - 1 implies !is_ws(#[trigger] s.drop_first()[k]) by {
            assert(s.drop_first()[k] == s[k + 1]);
        }
        lemma_first_ws_is(s.drop_first(), i - 1);
    }
}

/// The text with every leading copy of `marker` removed.
pub fn trim_start_matches(s: &str, marker: &str) -> (r: String)
    ensures
        r@ == strip_all_prefix(s@, marker@),
    decreases s@.len(),
{
    if marker.is_empty() {
        return String::from_str(s);
    }
    match crate::text::strip_prefix(s, marker) {
        Some(rest) => trim_start_matches(rest.as_str(), marker),
        None => String::from_str(s),
    }
}

/// The path of a header line (see `header_path_spec`).
pub fn header_path(line: &str, marker: &str) -> (r: Option<String>)
    ensures
        opt_view(r) == header_path_spec(line@, marker@),
{
    let stripped = trim_start_matches(line, marker);
    let v = trimmed(stripped.as_str());
    if v.as_str().is_empty() {
        return None;
    }
    let chars = crate::text::chars_of(v.as_str());
    let mut i: usize = 0;
    while i < chars.len() && !crate::text::is_whitespace(chars[i])
        invariant
            i <= chars@.len(),
            chars@ == v@,
            forall|k: int| 0 <= k < i ==> !is_ws(#[trigger] chars@[k]),
        decreases chars.len() - i,
    {
        i = i + 1;
    }
    proof {
        lemma_first_ws_is(v@, i as int);
    }
    let word = crate::text::string_of(chars.as_slice(), 0, i);
    assert(word@ =~= v@.take(i as int));
    Some(word)
}

/// A diff path as a workspace path: none for `/dev/null`, else without its
/// `b/` or `a/` prefix.
pub open spec fn diff_path_spec(p: Seq<char>) -> Option<Seq<char>> {
    if p == "/dev/null"@ {
        None
    } else if has_prefix(p, "b/"@) {
        Some(p.skip(2))
    } else if has_prefix(p, "a/"@) {
        Some(p.skip(2))
    } else {
        Some(p)
    }
}

/// A diff path as a workspace path (see `diff_path_spec`).
pub fn normalize_diff_path(path: &str) -> (r: Option<String>)
    ensures
        opt_view(r) == diff_path_spec(path@),
{
    if crate::text::str_eq(path, "/dev/null") {
        return None;
    }
    proof {
        reveal_strlit("b/");
        reveal_strlit("a/");
    }
    match crate::text::strip_prefix(path, "b/") {
        Some(rest) => Some(rest),
        None => match crate::text::strip_prefix(path, "a/") {
            Some(rest) => Some(rest),
            None => Some(String::from_str(path)),
        },
    }
}

/// A line that starts a file block or a git section.
pub open spec fn starts_file(l: Seq<char>) -> bool {
    has_prefix(l, "--- "@) || has_prefix(l, "diff --git "@)
}

/// The first line from `start` on that satisfies `p`, or the number of lines.
pub open spec fn next_where(ls: Seq<Seq<char>>, start: int, p: spec_fn(Seq<char>) -> bool) -> int
    decreases ls.len() - start,
{
    if start >= ls.len() {
        ls.len() as int
    } else if p(ls[start]) {
        start
    } else {
        next_where(ls, start + 1, p)
    }
}

proof fn lemma_next_where(ls: Seq<Seq<char>>, start: int, p: spec_fn(Seq<char>) -> bool)
    requires
        0 <= start,
    ensures
        start <= ls.len() ==> start <= next_where(ls, start, p) <= ls.len(),
        start > ls.len() ==> next_where(ls, start, p) == ls.len(),
    decreases ls.len() - start,
{
    if start < ls.len() && !p(ls[start]) {
        lemma_next_where(ls, start + 1, p);
    }
}

fn next_line_where(ls: &Vec<String>, start: usize, git_only: bool) -> (r: usize)
    requires
        start <= ls@.len(),
    ensures
        !git_only ==> r == next_where(views(ls@), start as int, |l: Seq<char>| starts_file(l)),
        git_only ==> r == next_where(views(ls@), start as int, |l: Seq<char>| has_prefix(l, "diff --git "@)),
        start <= r <= ls@.len(),
{
    let ghost l = views(ls@);
    let ghost p = if git_only {
        |x: Seq<char>| has_prefix(x, "diff --git "@)
    } else {
        |x: Seq<char>| starts_file(x)
    };
    let mut i: usize = start;
    while i < ls.len()
        invariant
            start <= i <= ls@.len(),
            l == views(ls@),
            p == (if git_only { |x: Seq<char>| has_prefix(x, "diff --git "@) } else { |x: Seq<char>| starts_file(x) }),
            next_where(l, start as int, p) == next_where(l, i as int, p),
        decreases ls.len() - i,
    {
        let hit = if git_only {
            starts_with(ls[i].as_str(), "diff --git ")
        } else {
            starts_with(ls[i].as_str(), "--- ") || starts_with(ls[i].as_str(), "diff --git ")
        };
        if hit {
            return i;
        }
        i = i + 1;
    }
    i
}

// ---------------------------------------------------------------------------
// Hunks
// ---------------------------------------------------------------------------

/// A line that belongs to a hunk: context, removed, added, or a
/// "no newline" note.
pub open spec fn is_patch_line(l: Seq<char>) -> bool {
    l.len() > 0 && (l[0] == ' ' || l[0] == '-' || l[0] == '+' || l[0] == '\\')
}

/// The hunk lines read so far: the finished groups, the group being read,
/// and whether a `@@` line was seen.
pub type HunkScan = (Seq<Seq<Seq<char>>>, Seq<Seq<char>>, bool);

/// The hunk lines of the first `k` lines.
pub open spec fn hunk_scan(ls: Seq<Seq<char>>, k: int) -> HunkScan
    decreases k,
{
    if k <= 0 {
        (Seq::empty(), Seq::empty(), false)
    } else {
        let st = hunk_scan(ls, k - 1);
        let l = ls[k - 1];
        if has_prefix(l, "@@"@) {
            (if st.1.len() > 0 { st.0.push(st.1) } else { st.0 }, Seq::empty(), true)
        } else if st.2 && is_patch_line(l) {
            (st.0, st.1.push(l), st.2)
        } else {
            st
        }
    }
}

/// The groups of hunk lines of a file block.
pub open spec fn hunk_groups(ls: Seq<Seq<char>>) -> Seq<Seq<Seq<char>>> {
    let st = hunk_scan(ls, ls.len() as int);
    if st.1.len() > 0 { st.0.push(st.1) } else { st.0 }
}

/// The lines a hunk expects: context and removed lines, without their marker.
pub open spec fn old_side(group: Seq<Seq<char>>) -> Seq<Seq<char>> {
    group.filter(|l: Seq<char>| l[0] == ' ' || l[0] == '-').map_values(|l: Seq<char>| l.drop_first())
}

/// The lines a hunk puts in: context and added lines, without their marker.
pub open spec fn new_side(group: Seq<Seq<char>>) -> Seq<Seq<char>> {
    group.filter(|l: Seq<char>| l[0] == ' ' || l[0] == '+').map_values(|l: Seq<char>| l.drop_first())
}

/// The hunks of a group list.
pub open spec fn hunks_of(groups: Seq<Seq<Seq<char>>>) -> Seq<HunkModel> {
    groups.map_values(|g: Seq<Seq<char>>| (old_side(g), new_side(g)))
}

/// The hunks of a file block's lines, or the error that it has none.
pub open spec fn parse_hunks_spec(ls: Seq<Seq<char>>) -> Result<Seq<HunkModel>, Seq<char>> {
    if hunk_groups(ls).len() == 0 {
        Err(NO_HUNK@)
    } else {
        Ok(hunks_of(hunk_groups(ls)))
    }
}

/// The hunk of a group of hunk lines.
pub fn build_hunk(group: &Vec<String>) -> (h: Hunk)
    requires
        forall|i: int| 0 <= i < group@.len() ==> is_patch_line(#[trigger] group@[i]@),
    ensures
        hunk_model(h) == (old_side(views(group@)), new_side(views(group@))),
{
    let ghost g = views(group@);
    let ghost fo = |l: Seq<char>| l[0] == ' ' || l[0] == '-';
    let ghost fnw = |l: Seq<char>| l[0] == ' ' || l[0] == '+';
    let mut old_lines: Vec<String> = Vec::new();
    let mut new_lines: Vec<String> = Vec::new();
    let mut i: usize = 0;
    while i < group.len()
        invariant
            i <= group@.len(),
            g == views(group@),
            forall|k: int| 0 <= k < group@.len() ==> is_patch_line(#[trigger] group@[k]@),
            fo == (|l: Seq<char>| l[0] == ' ' || l[0] == '-'),
            fnw == (|l: Seq<char>| l[0] == ' ' || l[0] == '+'),
            views(old_lines@) == g.take(i as int).filter(fo).map_values(|l: Seq<char>| l.drop_first()),
            views(new_lines@) == g.take(i as int).filter(fnw).map_values(|l: Seq<char>| l.drop_first()),
        decreases group.len() - i,
    {
        let line = &group[i];
        assert(is_patch_line(group@[i as int]@));
        assert(g[i as int] == line@);
        proof {
            assert(g.take(i + 1) =~= g.take(i as int).push(g[i as int]));
            g.take(i as int).lemma_filter_push(g[i as int], fo);
            g.take(i as int).lemma_filter_push(g[i as int], fnw);
        }
        let chars = crate::text::chars_of(line.as_str());
        let first = chars[0];
        let rest = crate::text::string_of(chars.as_slice(), 1, chars.len());
        assert(rest@ =~= line@.drop_first());
        let ghost bo = views(old_lines@);
        let ghost bn = views(new_lines@);
        if first == ' ' {
            old_lines.push(rest.clone());
            new_lines.push(rest);
            assert(views(old_lines@) =~= bo.push(line@.drop_first()));
            assert(views(new_lines@) =~= bn.push(line@.drop_first()));
        } else if first == '-' {
            old_lines.push(rest);
            assert(views(old_lines@) =~= bo.push(line@.drop_first()));
        } else if first == '+' {
            new_lines.push(rest);
            assert(views(new_lines@) =~= bn.push(line@.drop_first()));
        }
        assert(views(old_lines@) =~= g.take(i + 1).filter(fo).map_values(|l: Seq<char>| l.drop_first()));
        assert(views(new_lines@) =~= g.take(i + 1).filter(fnw).map_values(|l: Seq<char>| l.drop_first()));
        i = i + 1;
    }
    assert(g.take(group@.len() as int) =~= g);
    Hunk { old_lines, new_lines }
}

fn is_patch_line_exec(l: &str) -> (r: bool)
    ensures
        r == is_patch_line(l@),
{
    let v = crate::text::chars_of(l);
    v.len() > 0 && (v[0] == ' ' || v[0] == '-' || v[0] == '+' || v[0] == '\\')
}

/// The hunks of a file block's lines `ls[from..to]`, or the error that it has none.
pub fn parse_hunks(ls: &Vec<String>, from: usize, to: usize) -> (r: Result<Vec<Hunk>, String>)
    requires
        from <= to <= ls@.len(),
    ensures
        match r {
            Ok(hs) => parse_hunks_spec(views(ls@).subrange(from as int, to as int)) == Ok::<Seq<HunkModel>, Seq<char>>(
                hs@.map_values(|h: Hunk| hunk_model(h))),
            Err(e) => parse_hunks_spec(views(ls@).subrange(from as int, to as int)) == Err::<Seq<HunkModel>, Seq<char>>(
                e@),
        },
{
    let ghost seg = views(ls@).subrange(from as int, to as int);
    let mut hunks: Vec<Hunk> = Vec::new();
    let mut current: Vec<String> = Vec::new();
    let mut collecting = false;
    let mut i: usize = from;
    while i < to
        invariant
            from <= i <= to <= ls@.len(),
            seg == views(ls@).subrange(from as int, to as int),
            hunks@.map_values(|h: Hunk| hunk_model(h)) == hunks_of(hunk_scan(seg, i - from).0),
            views(current@) == hunk_scan(seg, i - from).1,
            collecting == hunk_scan(seg, i - from).2,
            forall|k: int| 0 <= k < current@.len() ==> is_patch_line(#[trigger] current@[k]@),
        decreases to - i,
    {
        let line = &ls[i];
        assert(seg[i - from] == line@);
        if starts_with(line.as_str(), "@@") {
            if current.len() > 0 {
                let h = build_hunk(&current);
                let ghost before = hunks@;
                hunks.push(h);
                assert(hunks@.map_values(|h: Hunk| hunk_model(h)) =~= before.map_values(|h: Hunk| hunk_model(h)).push(
                    hunk_model(h)));
                assert(hunks_of(hunk_scan(seg, i - from).0.push(hunk_scan(seg, i - from).1)) =~= hunks_of(
                    hunk_scan(seg, i - from).0).push((old_side(views(current@)), new_side(views(current@)))));
            }
            current = Vec::new();
            collecting = true;
            assert(views(current@) =~= Seq::<Seq<char>>::empty());
        } else if collecting && is_patch_line_exec(line.as_str()) {
            let ghost before = current@;
            current.push(line.clone());
            assert(views(current@) =~= views(before).push(line@));
        }
        i = i + 1;
    }
    if current.len() > 0 {
        let h = build_hunk(&current);
        let ghost before = hunks@;
        hunks.push(h);
        assert(hunks@.map_values(|h: Hunk| hunk_model(h)) =~= before.map_values(|h: Hunk| hunk_model(h)).push(hunk_model(h)));
        assert(hunks_of(hunk_scan(seg, to - from).0.push(hunk_scan(seg, to - from).1)) =~= hunks_of(
            hunk_scan(seg, to - from).0).push((old_side(views(current@)), new_side(views(current@)))));
    }
    assert(seg.len() == to - from);
    if hunks.len() == 0 {
        return Err(String::from_str(NO_HUNK));
    }
    Ok(hunks)
}


// ---------------------------------------------------------------------------
// File blocks, renames and the whole diff
// ---------------------------------------------------------------------------

/// The file block starting at line `start` (a `---` line) and the line
/// after it, or the error that stops the parse.
pub open spec fn parse_file_spec(ls: Seq<Seq<char>>, start: int) -> Result<(FilePatchModel, int), Seq<char>> {
    match header_path_spec(ls[start], "--- "@) {
        None => Err(EMPTY_HEADER_PATH@),
        Some(old) => {
            let next = start + 1;
            if next >= ls.len() || !has_prefix(ls[next], "+++ "@) {
                Err(NO_NEW_HEADER@)
            } else {
                match header_path_spec(ls[next], "+++ "@) {
                    None => Err(EMPTY_HEADER_PATH@),
                    Some(new) => {
                        let end = next_where(ls, next + 1, |l: Seq<char>| starts_file(l));
                        match parse_hunks_spec(ls.subrange(next + 1, end)) {
                            Err(e) => Err(e),
                            Ok(hs) => Ok(((diff_path_spec(old), diff_path_spec(new), hs), end)),
                        }
                    },
                }
            }
        },
    }
}

/// A result with `prefix` put before what it holds.
pub open spec fn prepend<T>(prefix: Seq<T>, r: Result<Seq<T>, Seq<char>>) -> Result<Seq<T>, Seq<char>> {
    match r {
        Ok(rest) => Ok(prefix + rest),
        Err(e) => Err(e),
    }
}

/// The file blocks from line `index` on, in order, or the first error.
pub open spec fn file_scan(ls: Seq<Seq<char>>, index: int) -> Result<Seq<FilePatchModel>, Seq<char>>
    decreases ls.len() - index,
{
    if index < 0 || index >= ls.len() {
        Ok(Seq::empty())
    } else if !has_prefix(ls[index], "--- "@) {
        file_scan(ls, index + 1)
    } else {
        match parse_file_spec(ls, index) {
            Err(e) => Err(e),
            Ok(p) => if p.1 <= index || p.1 > ls.len() {
                Err(NO_FILE_BLOCK@)
            } else {
                prepend(seq![p.0], file_scan(ls, p.1))
            },
        }
    }
}

/// The path after `marker` on the first line of a rename section that
/// starts with it, trimmed; none when there is no such line or it is empty.
pub open spec fn rename_path_spec(sec: Seq<Seq<char>>, marker: Seq<char>) -> Option<Seq<char>> {
    let i = next_where(sec, 0, |l: Seq<char>| has_prefix(l, marker));
    if i >= sec.len() {
        None
    } else {
        let t = trim(sec[i].skip(marker.len() as int));
        if t.len() == 0 {
            None
        } else {
            Some(t)
        }
    }
}

/// The section holds a file block header.
pub open spec fn has_file_header(sec: Seq<Seq<char>>) -> bool {
    exists|k: int| 0 <= k < sec.len() && has_prefix(#[trigger] sec[k], "--- "@)
}

/// The pure renames (rename sections without a file block) from line
/// `index` on, or the first error.
pub open spec fn rename_scan(ls: Seq<Seq<char>>, index: int) -> Result<Seq<FilePatchModel>, Seq<char>>
    decreases ls.len() - index,
{
    if index < 0 || index >= ls.len() {
        Ok(Seq::empty())
    } else if !has_prefix(ls[index], "rename from "@) {
        rename_scan(ls, index + 1)
    } else {
        let end = next_where(ls, index + 1, |l: Seq<char>| has_prefix(l, "diff --git "@));
        if end <= index || end > ls.len() {
            Ok(Seq::empty())
        } else {
            let sec = ls.subrange(index, end);
            if has_file_header(sec) {
                rename_scan(ls, end)
            } else {
                match (rename_path_spec(sec, "rename from "@), rename_path_spec(sec, "rename to "@)) {
                    (Some(old), Some(new)) => prepend(seq![(Some(old), Some(new), Seq::<HunkModel>::empty())], rename_scan(ls, end)),
                    _ => Err(NO_RENAME_PATH@),
                }
            }
        }
    }
}

/// The file patches of a diff: its file blocks, then its pure renames; the
/// error of a diff that has none, or the first error met.
pub open spec fn parse_diff_spec(diff: Seq<char>) -> Result<Seq<FilePatchModel>, Seq<char>> {
    let ls = lines_of(diff);
    match file_scan(ls, 0) {
        Err(e) => Err(e),
        Ok(fs) => match rename_scan(ls, 0) {
            Err(e) => Err(e),
            Ok(rs) => if fs.len() + rs.len() == 0 {
                Err(NO_FILE_BLOCK@)
            } else {
                Ok(fs + rs)
            },
        },
    }
}

/// The view of a parse result.
pub open spec fn parse_view(r: Result<Vec<FilePatch>, String>) -> Result<Seq<FilePatchModel>, Seq<char>> {
    match r {
        Ok(ps) => Ok(patch_models(ps@)),
        Err(e) => Err(e@),
    }
}

fn parse_file_patch(ls: &Vec<String>, start: usize) -> (r: Result<(FilePatch, usize), String>)
    requires
        start < ls@.len(),
    ensures
        match r {
            Ok((p, next)) => parse_file_spec(views(ls@), start as int) == Ok::<(FilePatchModel, int), Seq<char>>(
                (patch_model(p), next as int)) && start < next <= ls@.len(),
            Err(e) => parse_file_spec(views(ls@), start as int) == Err::<(FilePatchModel, int), Seq<char>>(e@),
        },
{
    let ghost l = views(ls@);
    let n = ls.len();
    let old_path = match header_path(ls[start].as_str(), "--- ") {
        Some(p) => p,
        None => { return Err(String::from_str(EMPTY_HEADER_PATH)); },
    };
    let next = start + 1;
    if next >= ls.len() || !starts_with(ls[next].as_str(), "+++ ") {
        return Err(String::from_str(NO_NEW_HEADER));
    }
    let new_path = match header_path(ls[next].as_str(), "+++ ") {
        Some(p) => p,
        None => { return Err(String::from_str(EMPTY_HEADER_PATH)); },
    };
    let end = next_line_where(ls, next + 1, false);
    let hunks = match parse_hunks(ls, next + 1, end) {
        Ok(h) => h,
        Err(e) => { return Err(e); },
    };
    let p = FilePatch { old_path: normalize_diff_path(old_path.as_str()), new_path: normalize_diff_path(new_path.as_str()), hunks };
    assert(patch_model(p).2 == p.hunks@.map_values(|h: Hunk| hunk_model(h)));
    Ok((p, end))
}

fn rename_path(ls: &Vec<String>, from: usize, to: usize, marker: &str) -> (r: Option<String>)
    requires
        from <= to <= ls@.len(),
    ensures
        opt_view(r) == rename_path_spec(views(ls@).subrange(from as int, to as int), marker@),
{
    let ghost sec = views(ls@).subrange(from as int, to as int);
    let ghost p = |l: Seq<char>| has_prefix(l, marker@);
    let mut i: usize = from;
    while i < to
        invariant
            from <= i <= to <= ls@.len(),
            sec == views(ls@).subrange(from as int, to as int),
            p == (|l: Seq<char>| has_prefix(l, marker@)),
            next_where(sec, 0, p) == next_where(sec, i - from, p),
        decreases to - i,
    {
        assert(sec[i - from] == ls@[i as int]@);
        match crate::text::strip_prefix(ls[i].as_str(), marker) {
            Some(rest) => {
                let t = trimmed(rest.as_str());
                if t.as_str().is_empty() {
                    return None;
                }
                return Some(t);
            },
            None => {},
        }
        i = i + 1;
    }
    None
}

fn section_has_header(ls: &Vec<String>, from: usize, to: usize) -> (r: bool)
    requires
        from <= to <= ls@.len(),
    ensures
        r == has_file_header(views(ls@).subrange(from as int, to as int)),
{
    let ghost sec = views(ls@).subrange(from as int, to as int);
    let mut i: usize = from;
    while i < to
        invariant
            from <= i <= to <= ls@.len(),
            sec == views(ls@).subrange(from as int, to as int),
            forall|k: int| 0 <= k < i - from ==> !has_prefix(#[trigger] sec[k], "--- "@),
        decreases to - i,
    {
        assert(sec[i - from] == ls@[i as int]@);
        if starts_with(ls[i].as_str(), "--- ") {
            return true;
        }
        i = i + 1;
    }
    false
}

/// The file patches of a diff (see `parse_diff_spec`).
pub fn parse_unified_diff(diff: &str) -> (r: Result<Vec<FilePatch>, String>)
    ensures
        parse_view(r) == parse_diff_spec(diff@),
{
    let ls = lines(diff);
    let ghost l = views(ls@);
    let mut patches: Vec<FilePatch> = Vec::new();
    let mut index: usize = 0;
    while index < ls.len()
        invariant
            index <= ls@.len(),
            l == views(ls@),
            l == lines_of(diff@),
            file_scan(l, 0) == prepend(patch_models(patches@), file_scan(l, index as int)),
        decreases ls.len() - index,
    {
        if !starts_with(ls[index].as_str(), "--- ") {
            index = index + 1;
            continue;
        }
        match parse_file_patch(&ls, index) {
            Ok((p, next)) => {
                let ghost before = patches@;
                patches.push(p);
                assert(patch_models(patches@) =~= patch_models(before) + seq![patch_model(p)]);
                proof {
                    let r = file_scan(l, next as int);
                    match r {
                        Ok(rest) => {
                            assert(patch_models(before) + (seq![patch_model(p)] + rest) =~= patch_models(patches@) + rest);
                        },
                        Err(e) => {},
                    }
                }
                index = next;
            },
            Err(e) => {
                assert(file_scan(l, index as int) == Err::<Seq<FilePatchModel>, Seq<char>>(e@));
                assert(file_scan(l, 0) == Err::<Seq<FilePatchModel>, Seq<char>>(e@));
                assert(l == lines_of(diff@));
                return Err(e);
            },
        }
    }
    assert(patch_models(patches@) + Seq::<FilePatchModel>::empty() =~= patch_models(patches@));
    let ghost files = patch_models(patches@);
    let mut renames: Vec<FilePatch> = Vec::new();
    let mut j: usize = 0;
    while j < ls.len()
        invariant
            j <= ls@.len(),
            l == views(ls@),
            l == lines_of(diff@),
            file_scan(l, 0) == Ok::<Seq<FilePatchModel>, Seq<char>>(files),
            patch_models(patches@) == files,
            rename_scan(l, 0) == prepend(patch_models(renames@), rename_scan(l, j as int)),
        decreases ls.len() - j,
    {
        if !starts_with(ls[j].as_str(), "rename from ") {
            j = j + 1;
            continue;
        }
        let end = next_line_where(&ls, j + 1, true);
        if section_has_header(&ls, j, end) {
            j = end;
            continue;
        }
        let old_path = rename_path(&ls, j, end, "rename from ");
        let new_path = rename_path(&ls, j, end, "rename to ");
        match (old_path, new_path) {
            (Some(o), Some(n)) => {
                let p = FilePatch { old_path: Some(o), new_path: Some(n), hunks: Vec::new() };
                let ghost before = renames@;
                renames.push(p);
                assert(patch_model(p).2 =~= Seq::<HunkModel>::empty());
                assert(patch_models(renames@) =~= patch_models(before) + seq![patch_model(p)]);
                proof {
                    let r = rename_scan(l, end as int);
                    match r {
                        Ok(rest) => {
                            assert(patch_models(before) + (seq![patch_model(p)] + rest) =~= patch_models(renames@) + rest);
                        },
                        Err(e) => {},
                    }
                }
                j = end;
            },
            _ => {
                proof {
                    lemma_next_where(l, j + 1, |x: Seq<char>| has_prefix(x, "diff --git "@));
                }
                assert(rename_scan(l, j as int) == Err::<Seq<FilePatchModel>, Seq<char>>(NO_RENAME_PATH@));
                assert(rename_scan(l, 0) == Err::<Seq<FilePatchModel>, Seq<char>>(NO_RENAME_PATH@));
                assert(l == lines_of(diff@));
                return Err(String::from_str(NO_RENAME_PATH));
            },
        }
    }
    assert(patch_models(renames@) + Seq::<FilePatchModel>::empty() =~= patch_models(renames@));
    let ghost rs = patch_models(renames@);
    let ghost rs_vec = renames@;
    let mut all = patches;
    let ghost before_all = all@;
    all.append(&mut renames);
    assert(all@ == before_all + rs_vec);
    assert(patch_models(all@) =~= files + rs);
    if all.len() == 0 {
        return Err(String::from_str(NO_FILE_BLOCK));
    }
    Ok(all)
}

// ---------------------------------------------------------------------------
// Kinds of change and matching hunks
// ---------------------------------------------------------------------------

/// What a file patch does to its file.
#[derive(Clone, Copy, Debug, PartialEq, Eq, Structural)]
pub enum PatchKind {
    Create,
    Modify,
    Delete,
    Rename,
}

/// The name of a kind of change.
pub open spec fn kind_name(k: PatchKind) -> Seq<char> {
    match k {
        PatchKind::Create => "create"@,
        PatchKind::Modify => "modify"@,
        PatchKind::Delete => "delete"@,
        PatchKind::Rename => "rename"@,
    }
}

/// The name of a kind of change.
pub fn kind_str(k: PatchKind) -> (r: &'static str)
    ensures
        r@ == kind_name(k),
{
    match k {
        PatchKind::Create => "create",
        PatchKind::Modify => "modify",
        PatchKind::Delete => "delete",
        PatchKind::Rename => "rename",
    }
}

/// The error of a file patch with neither path.
pub const NO_VALID_PATH: &'static str = "diff 文件块缺少有效路径。";

/// The kind of a file patch by its paths: created without an old path,
/// deleted without a new one, renamed when they differ, else modified.
pub open spec fn kind_spec(old: Option<Seq<char>>, new: Option<Seq<char>>) -> Result<PatchKind, Seq<char>> {
    match (old, new) {
        (None, Some(_)) => Ok(PatchKind::Create),
        (Some(_), None) => Ok(PatchKind::Delete),
        (Some(o), Some(n)) => if o != n { Ok(PatchKind::Rename) } else { Ok(PatchKind::Modify) },
        (None, None) => Err(NO_VALID_PATH@),
    }
}

/// The kind of a file patch (see `kind_spec`).
pub fn patch_kind(p: &FilePatch) -> (r: Result<PatchKind, String>)
    ensures
        match r {
            Ok(k) => kind_spec(opt_view(p.old_path), opt_view(p.new_path)) == Ok::<PatchKind, Seq<char>>(k),
            Err(e) => kind_spec(opt_view(p.old_path), opt_view(p.new_path)) == Err::<PatchKind, Seq<char>>(e@),
        },
{
    match (&p.old_path, &p.new_path) {
        (None, Some(_)) => Ok(PatchKind::Create),
        (Some(_), None) => Ok(PatchKind::Delete),
        (Some(o), Some(n)) => if !crate::text::str_eq(o.as_str(), n.as_str()) {
            Ok(PatchKind::Rename)
        } else {
            Ok(PatchKind::Modify)
        },
        (None, None) => Err(String::from_str(NO_VALID_PATH)),
    }
}

/// Whether the original text of a change is read from its old path: every
/// kind but a creation.
pub fn needs_original(k: PatchKind) -> (r: bool)
    ensures
        r == (k != PatchKind::Create),
{
    !matches!(k, PatchKind::Create)
}

/// The hunk's lines stand at `idx` of the source.
pub open spec fn matches_at(source: Seq<Seq<char>>, needle: Seq<Seq<char>>, idx: int) -> bool {
    idx + needle.len() <= source.len() && source.subrange(idx, idx + needle.len()) == needle
}

/// The highest position a hunk may be looked for at.
pub open spec fn last_start(source: Seq<Seq<char>>, needle: Seq<Seq<char>>) -> int {
    if source.len() >= needle.len() { source.len() - needle.len() } else { 0 }
}

/// The first position from `idx` on where the hunk's lines stand, up to
/// `last_start`.
pub open spec fn find_from(source: Seq<Seq<char>>, needle: Seq<Seq<char>>, idx: int) -> Option<int>
    decreases last_start(source, needle) + 1 - idx,
{
    if idx < 0 || idx > last_start(source, needle) {
        None
    } else if matches_at(source, needle, idx) {
        Some(idx)
    } else {
        find_from(source, needle, idx + 1)
    }
}

/// The lines after applying the hunks from number `i` on, from line
/// `cursor` of the source; none when a hunk does not match.
pub open spec fn apply_from(source: Seq<Seq<char>>, hunks: Seq<HunkModel>, i: int, cursor: int) -> Option<Seq<Seq<char>>>
    decreases hunks.len() - i,
{
    if i < 0 || i >= hunks.len() {
        if 0 <= cursor <= source.len() { Some(source.skip(cursor)) } else { None }
    } else {
        match find_from(source, hunks[i].0, cursor) {
            None => None,
            Some(idx) => match apply_from(source, hunks, i + 1, idx + hunks[i].0.len()) {
                None => None,
                Some(rest) => Some(source.subrange(cursor, idx) + hunks[i].1 + rest),
            },
        }
    }
}

/// The text after the hunks: unchanged without hunks, else the lines (split
/// at line breaks) with each hunk's lines replaced in order, joined; none
/// when a hunk does not match.
pub open spec fn apply_hunks_spec(original: Seq<char>, hunks: Seq<HunkModel>) -> Option<Seq<char>> {
    if hunks.len() == 0 {
        Some(original)
    } else {
        match apply_from(crate::text::split_char(original, '\n'), hunks, 0, 0) {
            None => None,
            Some(ls) => Some(crate::text::join(ls, "\n"@)),
        }
    }
}

proof fn lemma_find_from(source: Seq<Seq<char>>, needle: Seq<Seq<char>>, idx: int)
    requires
        0 <= idx,
    ensures
        find_from(source, needle, idx) matches Some(k) ==> idx <= k && matches_at(source, needle, k),
    decreases last_start(source, needle) + 1 - idx,
{
    if idx <= last_start(source, needle) && !matches_at(source, needle, idx) {
        lemma_find_from(source, needle, idx + 1);
    }
}

fn lines_match_at(source: &Vec<String>, needle: &Vec<String>, idx: usize) -> (r: bool)
    requires
        idx <= source@.len(),
    ensures
        r == matches_at(views(source@), views(needle@), idx as int),
{
    let n = source.len();
    if needle.len() > n - idx {
        return false;
    }
    let mut k: usize = 0;
    while k < needle.len()
        invariant
            k <= needle@.len(),
            n == source@.len(),
            idx + needle@.len() <= n,
            forall|j: int| 0 <= j < k ==> #[trigger] source@[idx + j]@ == needle@[j]@,
        decreases needle.len() - k,
    {
        if !crate::text::str_eq(source[idx + k].as_str(), needle[k].as_str()) {
            assert(views(source@).subrange(idx as int, idx + needle@.len())[k as int] != views(needle@)[k as int]);
            return false;
        }
        k = k + 1;
    }
    assert forall|j: int| 0 <= j < needle@.len() implies #[trigger] views(source@).subrange(idx as int, idx + needle@.len())[j]
        == views(needle@)[j] by {
        assert(source@[idx + j]@ == needle@[j]@);
    }
    assert(views(source@).subrange(idx as int, idx + needle@.len()) =~= views(needle@));
    true
}

fn find_hunk(source: &Vec<String>, needle: &Vec<String>, start: usize) -> (r: Option<usize>)
    requires
        start <= source@.len(),
    ensures
        match r {
            Some(k) => find_from(views(source@), views(needle@), start as int) == Some(k as int),
            None => find_from(views(source@), views(needle@), start as int) is None,
        },
{
    let last: usize = if source.len() >= needle.len() { source.len() - needle.len() } else { 0 };
    let ghost s = views(source@);
    let ghost nd = views(needle@);
    if start > last {
        return None;
    }
    let mut idx: usize = start;
    loop
        invariant
            start <= idx <= last,
            last == last_start(s, nd),
            last <= source@.len(),
            s == views(source@),
            nd == views(needle@),
            find_from(s, nd, start as int) == find_from(s, nd, idx as int),
        decreases last - idx,
    {
        if lines_match_at(source, needle, idx) {
            return Some(idx);
        }
        if idx == last {
            assert(find_from(s, nd, idx + 1) is None);
            return None;
        }
        idx = idx + 1;
    }
}

/// The error of a hunk that does not match.
pub const CONTEXT_MISMATCH: &'static str = "diff 上下文与当前文件不匹配，已拒绝应用。";

/// The text after the hunks (see `apply_hunks_spec`); none when a hunk does not match.
pub fn apply_hunks(original: &str, hunks: &Vec<Hunk>) -> (r: Option<String>)
    ensures
        opt_view(r) == apply_hunks_spec(original@, hunks@.map_values(|h: Hunk| hunk_model(h))),
{
    let ghost hs = hunks@.map_values(|h: Hunk| hunk_model(h));
    if hunks.len() == 0 {
        return Some(String::from_str(original));
    }
    let source = crate::text::split_on_char(original, '\n');
    let n = source.len();
    let ghost s = views(source@);
    let mut output: Vec<String> = Vec::new();
    let mut cursor: usize = 0;
    let mut i: usize = 0;
    while i < hunks.len()
        invariant
            i <= hunks@.len(),
            hunks@.len() > 0,
            cursor <= source@.len(),
            n == source@.len(),
            s == views(source@),
            s == crate::text::split_char(original@, '\n'),
            hs == hunks@.map_values(|h: Hunk| hunk_model(h)),
            apply_from(s, hs, 0, 0) == match apply_from(s, hs, i as int, cursor as int) {
                None => None,
                Some(rest) => Some(views(output@) + rest),
            },
        decreases hunks.len() - i,
    {
        let h = &hunks[i];
        assert(hs[i as int] == hunk_model(*h));
        let found = find_hunk(&source, &h.old_lines, cursor);
        let idx = match found {
            Some(k) => k,
            None => {
                assert(apply_from(s, hs, i as int, cursor as int) is None);
                return None;
            },
        };
        proof {
            lemma_find_from(s, views(h.old_lines@), cursor as int);
        }
        assert(idx + h.old_lines@.len() <= n);
        let ghost before = views(output@);
        let mut k: usize = cursor;
        while k < idx
            invariant
                cursor <= k <= idx <= source@.len(),
                s == views(source@),
                views(output@) == before + s.subrange(cursor as int, k as int),
            decreases idx - k,
        {
            let ghost b2 = output@;
            output.push(source[k].clone());
            assert(views(output@) =~= views(b2).push(s[k as int]));
            assert(views(output@) =~= before + s.subrange(cursor as int, k + 1));
            k = k + 1;
        }
        let mut m: usize = 0;
        let ghost mid = views(output@);
        while m < h.new_lines.len()
            invariant
                m <= h.new_lines@.len(),
                views(output@) == mid + views(h.new_lines@).take(m as int),
            decreases h.new_lines.len() - m,
        {
            let ghost b3 = output@;
            output.push(h.new_lines[m].clone());
            assert(views(output@) =~= views(b3).push(h.new_lines@[m as int]@));
            assert(views(output@) =~= mid + views(h.new_lines@).take(m + 1));
            m = m + 1;
        }
        assert(views(h.new_lines@).take(h.new_lines@.len() as int) =~= views(h.new_lines@));
        proof {
            let r = apply_from(s, hs, i + 1, idx + h.old_lines@.len());
            match r {
                Some(rest) => {
                    assert(before + (s.subrange(cursor as int, idx as int) + views(h.new_lines@) + rest) =~= views(output@) + rest);
                },
                None => {},
            }
        }
        cursor = idx + h.old_lines.len();
        i = i + 1;
    }
    let mut k: usize = cursor;
    let ghost before = views(output@);
    while k < source.len()
        invariant
            cursor <= k <= source@.len(),
            s == views(source@),
            views(output@) == before + s.subrange(cursor as int, k as int),
        decreases source.len() - k,
    {
        let ghost b2 = output@;
        output.push(source[k].clone());
        assert(views(output@) =~= views(b2).push(s[k as int]));
        assert(views(output@) =~= before + s.subrange(cursor as int, k + 1));
        k = k + 1;
    }
    assert(s.subrange(cursor as int, s.len() as int) =~= s.skip(cursor as int));
    let r = crate::text::join_strings(output.as_slice(), "\n");
    assert(output@.map_values(|x: String| x@) =~= views(output@));
    Some(r)
}

// ---------------------------------------------------------------------------
// Failures
// ---------------------------------------------------------------------------

/// Why a patch was not applied: the stage (`parse`, `boundary`,
/// `conflict` or `write`), the file concerned, the reason, and whether the
/// files already written were restored.
#[derive(Clone, Debug)]
pub struct PatchFailure {
    pub stage: String,
    pub path: Option<String>,
    pub reason: String,
    pub rollback_attempted: bool,
}

/// A failure as plain values.
pub open spec fn failure_model(f: PatchFailure) -> (Seq<char>, Option<Seq<char>>, Seq<char>, bool) {
    (f.stage@, opt_view(f.path), f.reason@, f.rollback_attempted)
}

/// A failure at `stage`.
pub fn patch_failure(stage: &str, path: Option<&str>, reason: &str) -> (f: PatchFailure)
    ensures
        failure_model(f) == (stage@, match path {
            Some(p) => Some(p@),
            None => None,
        }, reason@, false),
{
    PatchFailure {
        stage: String::from_str(stage),
        path: match path {
            Some(p) => Some(String::from_str(p)),
            None => None,
        },
        reason: String::from_str(reason),
        rollback_attempted: false,
    }
}

/// A failure noting whether the files already written were restored.
pub fn with_rollback(f: PatchFailure, attempted: bool) -> (r: PatchFailure)
    ensures
        r.stage == f.stage,
        r.path == f.path,
        r.reason == f.reason,
        r.rollback_attempted == attempted,
{
    PatchFailure { rollback_attempted: attempted, ..f }
}

/// The answer of a failure: its reason and, when known, its file.
pub open spec fn failure_answer(f: PatchFailure) -> Seq<char> {
    "patch 应用失败："@ + f.reason@ + match f.path {
        Some(p) => "（文件："@ + p@ + "）"@,
        None => Seq::empty(),
    }
}

/// The answer of a failure (see `failure_answer`).
pub fn failure_final_answer(f: &PatchFailure) -> (r: String)
    ensures
        r@ == failure_answer(*f),
{
    let mut out = String::from_str("patch 应用失败：");
    push_str(&mut out, f.reason.as_str());
    match &f.path {
        Some(p) => {
            push_str(&mut out, "（文件：");
            push_str(&mut out, p.as_str());
            push_str(&mut out, "）");
        },
        None => {
            proof {
                reveal_strlit("");
            }
        },
    }
    out
}

use crate::mcp_call::{json_string, json_string_text};

/// The failure as pretty-printed JSON, keys in order.
pub open spec fn failure_json(f: PatchFailure) -> Seq<char> {
    "{\n  \"path\": "@ + match f.path {
        Some(p) => json_string_text(p@),
        None => "null"@,
    } + ",\n  \"reason\": "@ + json_string_text(f.reason@) + ",\n  \"rollback_attempted\": "@ + (if f.rollback_attempted {
        "true"@
    } else {
        "false"@
    }) + ",\n  \"stage\": "@ + json_string_text(f.stage@) + ",\n  \"success\": false\n}"@
}

/// The failure as pretty-printed JSON (see `failure_json`).
pub fn failure_raw_output(f: &PatchFailure) -> (r: String)
    ensures
        r@ == failure_json(*f),
{
    let mut out = String::from_str("{\n  \"path\": ");
    match &f.path {
        Some(p) => {
            let j = json_string(p.as_str());
            push_str(&mut out, j.as_str());
        },
        None => push_str(&mut out, "null"),
    }
    push_str(&mut out, ",\n  \"reason\": ");
    let r = json_string(f.reason.as_str());
    push_str(&mut out, r.as_str());
    push_str(&mut out, ",\n  \"rollback_attempted\": ");
    push_str(&mut out, if f.rollback_attempted { "true" } else { "false" });
    push_str(&mut out, ",\n  \"stage\": ");
    let s = json_string(f.stage.as_str());
    push_str(&mut out, s.as_str());
    push_str(&mut out, ",\n  \"success\": false\n}");
    out
}

// ---------------------------------------------------------------------------
// Changes
// ---------------------------------------------------------------------------

/// One file change, checked and ready to write: its resolved paths (as
/// shown), its kind, and its text before and after.
#[derive(Clone, Debug)]
pub struct PatchChange {
    pub old_path: Option<String>,
    pub new_path: Option<String>,
    pub kind: PatchKind,
    pub before_chars: usize,
    pub after_chars: usize,
    pub original: String,
    pub updated: String,
}

/// A change has the paths its kind needs.
pub open spec fn change_wf(c: PatchChange) -> bool {
    match c.kind {
        PatchKind::Create => c.new_path is Some,
        PatchKind::Delete => c.old_path is Some,
        PatchKind::Rename | PatchKind::Modify => c.old_path is Some && c.new_path is Some,
    }
}

/// The file a change ends on: its new path, else its old one.
pub open spec fn target_of(c: PatchChange) -> Seq<char> {
    match c.new_path {
        Some(p) => p@,
        None => match c.old_path {
            Some(p) => p@,
            None => Seq::empty(),
        },
    }
}

/// The file a change ends on.
pub fn target_path(c: &PatchChange) -> (r: String)
    ensures
        r@ == target_of(*c),
{
    match &c.new_path {
        Some(p) => p.clone(),
        None => match &c.old_path {
            Some(p) => p.clone(),
            None => String::new(),
        },
    }
}

/// The errors of the checks on a change.
pub const CREATE_NO_TARGET: &'static str = "新增 patch 缺少目标路径。";
pub const CREATE_EXISTS: &'static str = "新增文件已存在。";
pub const DELETE_NOT_EMPTY: &'static str = "删除 patch 未移除全部内容。";
pub const RENAME_NO_NEW: &'static str = "rename patch 缺少新路径。";
pub const RENAME_NO_OLD: &'static str = "rename patch 缺少旧路径。";
pub const RENAME_EXISTS: &'static str = "rename 目标文件已存在。";

/// The outcome of checking and applying one file patch, whose paths the
/// host resolved (`old`, `new`) and whose original text it read: the change,
/// or the failure (stage, path, reason). `new_exists` tells whether the new
/// path exists, `same_path` whether it is the old one.
pub open spec fn change_spec(
    kind: PatchKind,
    old: Option<Seq<char>>,
    new: Option<Seq<char>>,
    original: Seq<char>,
    hunks: Seq<HunkModel>,
    new_exists: bool,
    same_path: bool,
) -> Result<Seq<char>, (Seq<char>, Option<Seq<char>>, Seq<char>)> {
    let target = match new {
        Some(p) => p,
        None => match old {
            Some(p) => p,
            None => Seq::empty(),
        },
    };
    match apply_hunks_spec(original, hunks) {
        None => Err(("conflict"@, Some(target), CONTEXT_MISMATCH@)),
        Some(updated) => match kind {
            PatchKind::Create => match new {
                None => Err(("parse"@, None, CREATE_NO_TARGET@)),
                Some(n) => if new_exists { Err(("conflict"@, Some(n), CREATE_EXISTS@)) } else { Ok(updated) },
            },
            PatchKind::Delete => if updated.len() == 0 {
                Ok(updated)
            } else {
                Err(("conflict"@, Some(match old { Some(o) => o, None => Seq::empty() }), DELETE_NOT_EMPTY@))
            },
            PatchKind::Rename => match (new, old) {
                (None, _) => Err(("parse"@, None, RENAME_NO_NEW@)),
                (Some(_), None) => Err(("parse"@, None, RENAME_NO_OLD@)),
                (Some(n), Some(_)) => if new_exists && !same_path {
                    Err(("conflict"@, Some(n), RENAME_EXISTS@))
                } else {
                    Ok(updated)
                },
            },
            PatchKind::Modify => Ok(updated),
        },
    }
}

/// The paths a kind of change has: those its file patch had, resolved.
pub open spec fn paths_fit_kind(kind: PatchKind, old: Option<Seq<char>>, new: Option<Seq<char>>) -> bool {
    match kind {
        PatchKind::Create => new is Some,
        PatchKind::Delete => old is Some,
        PatchKind::Rename | PatchKind::Modify => old is Some && new is Some,
    }
}

/// Checks and applies one file patch (see `change_spec`).
pub fn build_change(
    kind: PatchKind,
    old_path: Option<String>,
    new_path: Option<String>,
    original: String,
    hunks: &Vec<Hunk>,
    new_exists: bool,
    same_path: bool,
) -> (r: Result<PatchChange, PatchFailure>)
    requires
        paths_fit_kind(kind, opt_view(old_path), opt_view(new_path)),
    ensures
        match r {
            Ok(c) => change_spec(kind, opt_view(old_path), opt_view(new_path), original@, hunks@.map_values(|h: Hunk| hunk_model(h)),
                new_exists, same_path) == Ok::<Seq<char>, (Seq<char>, Option<Seq<char>>, Seq<char>)>(c.updated@)
                && c.kind == kind && opt_view(c.old_path) == opt_view(old_path) && opt_view(c.new_path) == opt_view(new_path)
                && c.original@ == original@ && c.before_chars == original@.len() && c.after_chars == c.updated@.len()
                && change_wf(c),
            Err(f) => change_spec(kind, opt_view(old_path), opt_view(new_path), original@, hunks@.map_values(|h: Hunk| hunk_model(h)),
                new_exists, same_path) == Err::<Seq<char>, (Seq<char>, Option<Seq<char>>, Seq<char>)>((f.stage@, opt_view(f.path), f.reason@))
                && !f.rollback_attempted,
        },
{
    let target: String = match &new_path {
        Some(p) => p.clone(),
        None => match &old_path {
            Some(p) => p.clone(),
            None => String::new(),
        },
    };
    let updated = match apply_hunks(original.as_str(), hunks) {
        Some(u) => u,
        None => { return Err(patch_failure("conflict", Some(target.as_str()), CONTEXT_MISMATCH)); },
    };
    match kind {
        PatchKind::Create => {
            match &new_path {
                None => { return Err(patch_failure("parse", None, CREATE_NO_TARGET)); },
                Some(n) => {
                    if new_exists {
                        return Err(patch_failure("conflict", Some(n.as_str()), CREATE_EXISTS));
                    }
                },
            }
        },
        PatchKind::Delete => {
            if !updated.as_str().is_empty() {
                let o = match &old_path {
                    Some(o) => o.clone(),
                    None => String::new(),
                };
                return Err(patch_failure("conflict", Some(o.as_str()), DELETE_NOT_EMPTY));
            }
        },
        PatchKind::Rename => {
            match (&new_path, &old_path) {
                (None, _) => { return Err(patch_failure("parse", None, RENAME_NO_NEW)); },
                (Some(_), None) => { return Err(patch_failure("parse", None, RENAME_NO_OLD)); },
                (Some(n), Some(_)) => {
                    if new_exists && !same_path {
                        return Err(patch_failure("conflict", Some(n.as_str()), RENAME_EXISTS));
                    }
                },
            }
        },
        PatchKind::Modify => {},
    }
    let before_chars = crate::text::char_count(original.as_str());
    let after_chars = crate::text::char_count(updated.as_str());
    Ok(PatchChange { old_path, new_path, kind, before_chars, after_chars, original, updated })
}

/// A creation patch never overwrites a file: when its target already
/// exists the change is refused, and once its hunks apply the refusal is a
/// conflict on the target, "新增文件已存在。".
pub proof fn create_never_overwrites_law(
    old: Option<Seq<char>>,
    target: Seq<char>,
    original: Seq<char>,
    hunks: Seq<HunkModel>,
    same_path: bool,
)
    ensures
        change_spec(PatchKind::Create, old, Some(target), original, hunks, true, same_path) is Err,
        apply_hunks_spec(original, hunks) is Some ==> change_spec(PatchKind::Create, old, Some(target), original, hunks,
            true, same_path) == Err::<Seq<char>, (Seq<char>, Option<Seq<char>>, Seq<char>)>(
            ("conflict"@, Some(target), "新增文件已存在。"@)),
{
}

/// A rename never lands on another existing file, and a deletion must
/// remove all the content: otherwise the change is refused as a conflict.
pub proof fn rename_and_delete_refusals_law(
    old: Seq<char>,
    new: Seq<char>,
    original: Seq<char>,
    hunks: Seq<HunkModel>,
    new_exists: bool,
    same_path: bool,
)
    ensures
        apply_hunks_spec(original, hunks) is Some ==> change_spec(PatchKind::Rename, Some(old), Some(new), original, hunks,
            true, false) == Err::<Seq<char>, (Seq<char>, Option<Seq<char>>, Seq<char>)>(
            ("conflict"@, Some(new), "rename 目标文件已存在。"@)),
        (apply_hunks_spec(original, hunks) matches Some(u) && u.len() > 0) ==> change_spec(PatchKind::Delete, Some(old),
            None, original, hunks, new_exists, same_path) == Err::<Seq<char>, (Seq<char>, Option<Seq<char>>, Seq<char>)>(
            ("conflict"@, Some(old), "删除 patch 未移除全部内容。"@)),
        change_spec(PatchKind::Modify, Some(old), Some(new), original, hunks, new_exists, same_path) is Ok <==> apply_hunks_spec(
            original, hunks) is Some,
{
}

/// The kind of a file patch fits its paths.
pub proof fn lemma_kind_fits_paths(old: Option<Seq<char>>, new: Option<Seq<char>>)
    ensures
        kind_spec(old, new) matches Ok(k) ==> paths_fit_kind(k, old, new),
{
}

/// The files a change touches: its old and new path, once when they are the same.
pub open spec fn touched_of(c: PatchChange) -> Seq<Seq<char>> {
    match (c.old_path, c.new_path) {
        (Some(o), Some(n)) => if o@ == n@ { seq![o@] } else { seq![o@, n@] },
        (Some(o), None) => seq![o@],
        (None, Some(n)) => seq![n@],
        (None, None) => Seq::empty(),
    }
}

/// All the files touched, change after change.
pub open spec fn all_touched(cs: Seq<PatchChange>) -> Seq<Seq<char>>
    decreases cs.len(),
{
    if cs.len() == 0 {
        Seq::empty()
    } else {
        all_touched(cs.drop_last()) + touched_of(cs.last())
    }
}

/// The first file touched twice, if any.
pub open spec fn first_repeat(paths: Seq<Seq<char>>) -> Option<Seq<char>> {
    if exists|j: int| 0 <= j < paths.len() && #[trigger] paths.take(j).contains(paths[j]) {
        let j = choose|j: int| 0 <= j < paths.len() && #[trigger] paths.take(j).contains(paths[j])
            && forall|k: int| 0 <= k < j ==> !(#[trigger] paths.take(k).contains(paths[k]));
        Some(paths[j])
    } else {
        None
    }
}

/// The error of a patch that touches a file twice.
pub const TOUCHED_TWICE: &'static str = "同一 patch 重复触达文件。";

fn touched_paths(c: &PatchChange) -> (r: Vec<String>)
    ensures
        views(r@) == touched_of(*c),
{
    let mut r: Vec<String> = Vec::new();
    match (&c.old_path, &c.new_path) {
        (Some(o), Some(n)) => {
            r.push(o.clone());
            if !crate::text::str_eq(o.as_str(), n.as_str()) {
                r.push(n.clone());
            }
        },
        (Some(o), None) => r.push(o.clone()),
        (None, Some(n)) => r.push(n.clone()),
        (None, None) => {},
    }
    assert(views(r@) =~= touched_of(*c));
    r
}

proof fn lemma_first_repeat_none(paths: Seq<Seq<char>>)
    requires
        forall|j: int| 0 <= j < paths.len() ==> !(#[trigger] paths.take(j).contains(paths[j])),
    ensures
        first_repeat(paths) is None,
{
}

proof fn lemma_first_repeat_at(paths: Seq<Seq<char>>, j: int)
    requires
        0 <= j < paths.len(),
        paths.take(j).contains(paths[j]),
        forall|k: int| 0 <= k < j ==> !(#[trigger] paths.take(k).contains(paths[k])),
    ensures
        first_repeat(paths) == Some(paths[j]),
{
    let w = choose|j: int| 0 <= j < paths.len() && #[trigger] paths.take(j).contains(paths[j])
        && forall|k: int| 0 <= k < j ==> !(#[trigger] paths.take(k).contains(paths[k]));
    assert(0 <= w < paths.len() && paths.take(w).contains(paths[w]));
    if w < j {
        assert(!paths.take(w).contains(paths[w]));
    }
    if j < w {
        assert(!paths.take(j).contains(paths[j]));
    }
}

/// Refuses a patch that touches a file twice: the conflict on the first
/// file touched again.
#[verifier::spinoff_prover]
pub fn ensure_unique_targets(changes: &[PatchChange]) -> (r: Result<(), PatchFailure>)
    ensures
        match r {
            Ok(()) => first_repeat(all_touched(changes@)) is None,
            Err(f) => first_repeat(all_touched(changes@)) matches Some(p) && failure_model(f) == ("conflict"@, Some(p),
                TOUCHED_TWICE@, false),
        },
{
    let ghost all = all_touched(changes@);
    let mut seen: Vec<String> = Vec::new();
    let mut i: usize = 0;
    assert(all_touched(changes@.take(0)) =~= Seq::<Seq<char>>::empty());
    while i < changes.len()
        invariant
            i <= changes@.len(),
            all == all_touched(changes@),
            views(seen@) == all_touched(changes@.take(i as int)),
            forall|j: int| 0 <= j < seen@.len() ==> !(#[trigger] views(seen@).take(j).contains(views(seen@)[j])),
        decreases changes.len() - i,
    {
        let ps = touched_paths(&changes[i]);
        proof {
            assert(changes@.take(i + 1).drop_last() =~= changes@.take(i as int));
        }
        let ghost base = views(seen@);
        let mut k: usize = 0;
        while k < ps.len()
            invariant
                k <= ps@.len(),
                i < changes@.len(),
                all == all_touched(changes@),
                base == all_touched(changes@.take(i as int)),
                views(ps@) == touched_of(changes@[i as int]),
                views(seen@) == base + views(ps@).take(k as int),
                forall|j: int| 0 <= j < seen@.len() ==> !(#[trigger] views(seen@).take(j).contains(views(seen@)[j])),
            decreases ps.len() - k,
        {
            let p = &ps[k];
            let mut found = false;
            let mut m: usize = 0;
            while m < seen.len()
                invariant
                    m <= seen@.len(),
                    !found ==> forall|q: int| 0 <= q < m ==> views(seen@)[q] != p@,
                    found ==> views(seen@).contains(p@),
                decreases seen.len() - m,
            {
                if crate::text::str_eq(seen[m].as_str(), p.as_str()) {
                    assert(views(seen@)[m as int] == p@);
                    found = true;
                }
                m = m + 1;
            }
            if found {
                proof {
                    let full = views(seen@).push(p@);
                    assert(full.take(seen@.len() as int) =~= views(seen@));
                    assert(full[seen@.len() as int] == p@);
                    assert forall|j: int| 0 <= j < seen@.len() implies !(#[trigger] full.take(j).contains(full[j])) by {
                        assert(full.take(j) =~= views(seen@).take(j));
                        assert(full[j] == views(seen@)[j]);
                    }
                    let rest = all_touched(changes@.take(i + 1));
                    assert(changes@.take(i + 1).drop_last() =~= changes@.take(i as int));
                    assert(changes@.take(i + 1).last() == changes@[i as int]);
                    assert(rest =~= base + views(ps@));
                    assert(full =~= rest.take(seen@.len() as int + 1));
                    lemma_all_touched_prefix(changes@, i + 1);
                    assert(all.take(seen@.len() as int + 1) =~= full);
                    assert(all.take(seen@.len() as int) =~= views(seen@));
                    assert(all[seen@.len() as int] == p@);
                    assert forall|q: int| 0 <= q < seen@.len() implies !(#[trigger] all.take(q).contains(all[q])) by {
                        assert(all.take(q) =~= views(seen@).take(q));
                        assert(all[q] == views(seen@)[q]);
                    }
                    lemma_first_repeat_at(all, seen@.len() as int);
                }
                return Err(patch_failure("conflict", Some(p.as_str()), TOUCHED_TWICE));
            }
            let ghost before = views(seen@);
            seen.push(p.clone());
            proof {
                assert(views(seen@) =~= before.push(p@));
                assert forall|j: int| 0 <= j < seen@.len() implies !(#[trigger] views(seen@).take(j).contains(views(seen@)[j])) by {
                    if j < before.len() {
                        assert(views(seen@).take(j) =~= before.take(j));
                        assert(views(seen@)[j] == before[j]);
                    } else {
                        assert(views(seen@).take(j) =~= before);
                    }
                }
                assert(views(seen@) =~= base + views(ps@).take(k + 1));
            }
            k = k + 1;
        }
        assert(views(ps@).take(ps@.len() as int) =~= views(ps@));
        i = i + 1;
    }
    assert(changes@.take(changes@.len() as int) =~= changes@);
    proof {
        lemma_first_repeat_none(all);
    }
    Ok(())
}

proof fn lemma_all_touched_prefix(cs: Seq<PatchChange>, n: int)
    requires
        0 <= n <= cs.len(),
    ensures
        all_touched(cs.take(n)).is_prefix_of(all_touched(cs)),
    decreases cs.len() - n,
{
    if n < cs.len() {
        lemma_all_touched_prefix(cs, n + 1);
        assert(cs.take(n + 1).drop_last() =~= cs.take(n));
    } else {
        assert(cs.take(n) =~= cs);
    }
}

// ---------------------------------------------------------------------------
// Reports
// ---------------------------------------------------------------------------

/// The mode of a patch run.
pub open spec fn mode_name(dry_run: bool) -> Seq<char> {
    if dry_run { "dry-run"@ } else { "apply"@ }
}

/// The line of one change: its kind, file and sizes.
pub open spec fn change_line(c: PatchChange) -> Seq<char> {
    "- "@ + kind_name(c.kind) + ": "@ + target_of(c) + " ("@ + crate::text::dec(c.before_chars as nat) + " -> "@
        + crate::text::dec(c.after_chars as nat) + " chars)"@
}

/// The answer of a successful patch run.
pub open spec fn report_answer(dry_run: bool, cs: Seq<PatchChange>) -> Seq<char> {
    "patch "@ + mode_name(dry_run) + " 完成：\n"@ + crate::text::join(cs.map_values(|c: PatchChange| change_line(c)), "\n"@)
}

/// The summary of a successful patch run.
pub open spec fn report_summary(dry_run: bool, n: nat) -> Seq<char> {
    "patch "@ + mode_name(dry_run) + " 成功，影响 "@ + crate::text::dec(n) + " 个文件。"@
}

/// One change as pretty-printed JSON inside the report.
pub open spec fn change_json(c: PatchChange) -> Seq<char> {
    "    {\n      \"after_chars\": "@ + crate::text::dec(c.after_chars as nat) + ",\n      \"before_chars\": "@
        + crate::text::dec(c.before_chars as nat) + ",\n      \"kind\": "@ + json_string_text(kind_name(c.kind))
        + ",\n      \"path\": "@ + json_string_text(target_of(c)) + "\n    }"@
}

/// The report as pretty-printed JSON, keys in order.
pub open spec fn report_json(dry_run: bool, cs: Seq<PatchChange>) -> Seq<char> {
    "{\n  \"changes\": "@ + (if cs.len() == 0 {
        "[]"@
    } else {
        "[\n"@ + crate::text::join(cs.map_values(|c: PatchChange| change_json(c)), ",\n"@) + "\n  ]"@
    }) + ",\n  \"dry_run\": "@ + (if dry_run { "true"@ } else { "false"@ }) + "\n}"@
}

fn change_line_text(c: &PatchChange) -> (r: String)
    ensures
        r@ == change_line(*c),
{
    let mut out = String::from_str("- ");
    push_str(&mut out, kind_str(c.kind));
    push_str(&mut out, ": ");
    let t = target_path(c);
    push_str(&mut out, t.as_str());
    push_str(&mut out, " (");
    let b = crate::text::usize_text(c.before_chars);
    push_str(&mut out, b.as_str());
    push_str(&mut out, " -> ");
    let a = crate::text::usize_text(c.after_chars);
    push_str(&mut out, a.as_str());
    push_str(&mut out, " chars)");
    out
}

fn change_json_text(c: &PatchChange) -> (r: String)
    ensures
        r@ == change_json(*c),
{
    let mut out = String::from_str("    {\n      \"after_chars\": ");
    let a = crate::text::usize_text(c.after_chars);
    push_str(&mut out, a.as_str());
    push_str(&mut out, ",\n      \"before_chars\": ");
    let b = crate::text::usize_text(c.before_chars);
    push_str(&mut out, b.as_str());
    push_str(&mut out, ",\n      \"kind\": ");
    let k = json_string(kind_str(c.kind));
    push_str(&mut out, k.as_str());
    push_str(&mut out, ",\n      \"path\": ");
    let t = target_path(c);
    let p = json_string(t.as_str());
    push_str(&mut out, p.as_str());
    push_str(&mut out, "\n    }");
    out
}

fn map_changes(cs: &[PatchChange], json: bool) -> (r: Vec<String>)
    ensures
        !json ==> views(r@) == cs@.map_values(|c: PatchChange| change_line(c)),
        json ==> views(r@) == cs@.map_values(|c: PatchChange| change_json(c)),
{
    let mut out: Vec<String> = Vec::new();
    let mut i: usize = 0;
    while i < cs.len()
        invariant
            i <= cs@.len(),
            !json ==> views(out@) == cs@.take(i as int).map_values(|c: PatchChange| change_line(c)),
            json ==> views(out@) == cs@.take(i as int).map_values(|c: PatchChange| change_json(c)),
        decreases cs.len() - i,
    {
        let t = if json { change_json_text(&cs[i]) } else { change_line_text(&cs[i]) };
        let ghost before = out@;
        out.push(t);
        assert(!json ==> views(out@) =~= views(before).push(change_line(cs@[i as int])));
        assert(json ==> views(out@) =~= views(before).push(change_json(cs@[i as int])));
        assert(!json ==> views(out@) =~= cs@.take(i + 1).map_values(|c: PatchChange| change_line(c)));
        assert(json ==> views(out@) =~= cs@.take(i + 1).map_values(|c: PatchChange| change_json(c)));
        i = i + 1;
    }
    assert(cs@.take(cs@.len() as int) =~= cs@);
    out
}

/// The answer of a successful patch run (see `report_answer`).
pub fn report_final_answer(dry_run: bool, changes: &[PatchChange]) -> (r: String)
    ensures
        r@ == report_answer(dry_run, changes@),
{
    let mut out = String::from_str("patch ");
    push_str(&mut out, if dry_run { "dry-run" } else { "apply" });
    push_str(&mut out, " 完成：\n");
    let ls = map_changes(changes, false);
    let j = crate::text::join_strings(ls.as_slice(), "\n");
    assert(ls@.map_values(|s: String| s@) =~= views(ls@));
    push_str(&mut out, j.as_str());
    out
}

/// The report as pretty-printed JSON (see `report_json`).
pub fn report_raw_output(dry_run: bool, changes: &[PatchChange]) -> (r: String)
    ensures
        r@ == report_json(dry_run, changes@),
{
    let mut out = String::from_str("{\n  \"changes\": ");
    if changes.len() == 0 {
        push_str(&mut out, "[]");
    } else {
        push_str(&mut out, "[\n");
        let ls = map_changes(changes, true);
        let j = crate::text::join_strings(ls.as_slice(), ",\n");
        assert(ls@.map_values(|s: String| s@) =~= views(ls@));
        push_str(&mut out, j.as_str());
        push_str(&mut out, "\n  ]");
    }
    push_str(&mut out, ",\n  \"dry_run\": ");
    push_str(&mut out, if dry_run { "true" } else { "false" });
    push_str(&mut out, "\n}");
    out
}

/// Why the patch was applied as it was, by mode.
pub open spec fn patch_reasoning_spec(dry_run: bool) -> Seq<char> {
    "解析 unified diff，校验路径边界和上下文匹配；"@ + (if dry_run {
        "dry-run 只生成预览，不写入文件"@
    } else {
        "apply 写入已校验文件"@
    }) + "。"@
}

/// The execution of a successful patch run.
pub open spec fn ok_patch_spec(e: crate::execution::ActionExecution, dry_run: bool, cs: Seq<PatchChange>) -> bool {
    let answer = report_answer(dry_run, cs);
    &&& e.action_summary@ == "应用 patch："@ + crate::text::dec(cs.len()) + " 个文件"@
    &&& e.result_summary@ == report_summary(dry_run, cs.len())
    &&& e.final_answer@ == answer
    &&& e.detail_preview@ == answer
    &&& e.raw_output@ == report_json(dry_run, cs)
    &&& e.result_chars == answer.len()
    &&& e.single_result_budget_chars == 1200
    &&& e.single_result_budget_hit == (answer.len() > 1200)
    &&& e.success
    &&& e.memory_write_summary is None
    &&& e.reasoning_summary@ == patch_reasoning_spec(dry_run)
    &&& e.cache_status@ == "bypass"@
    &&& e.cache_reason@ == CACHE_REASON@
}

/// The execution of a successful patch run (see `ok_patch_spec`).
pub fn ok_patch(dry_run: bool, changes: &[PatchChange]) -> (e: crate::execution::ActionExecution)
    ensures
        ok_patch_spec(e, dry_run, changes@),
{
    let answer = report_final_answer(dry_run, changes);
    let raw = report_raw_output(dry_run, changes);
    let n = crate::text::usize_text(changes.len());
    let mut action = String::from_str("应用 patch：");
    push_str(&mut action, n.as_str());
    push_str(&mut action, " 个文件");
    let mut summary = String::from_str("patch ");
    push_str(&mut summary, if dry_run { "dry-run" } else { "apply" });
    push_str(&mut summary, " 成功，影响 ");
    push_str(&mut summary, n.as_str());
    push_str(&mut summary, " 个文件。");
    let mut reasoning = String::from_str("解析 unified diff，校验路径边界和上下文匹配；");
    push_str(&mut reasoning, if dry_run { "dry-run 只生成预览，不写入文件" } else { "apply 写入已校验文件" });
    push_str(&mut reasoning, "。");
    let chars = crate::text::char_count(answer.as_str());
    crate::execution::ActionExecution {
        action_summary: action,
        result_summary: summary,
        detail_preview: answer.clone(),
        final_answer: answer,
        raw_output: raw,
        result_chars: chars,
        single_result_budget_chars: 1200,
        single_result_budget_hit: chars > 1200,
        success: true,
        memory_write_summary: None,
        reasoning_summary: reasoning,
        cache_status: String::from_str("bypass"),
        cache_reason: String::from_str(CACHE_REASON),
    }
}

/// The execution of a failed patch run.
pub open spec fn fail_patch_spec(e: crate::execution::ActionExecution, f: PatchFailure) -> bool {
    &&& e.action_summary@ == "应用 patch"@
    &&& e.result_summary@ == "patch 应用失败："@ + f.reason@
    &&& e.final_answer@ == failure_answer(f)
    &&& e.detail_preview@ == failure_answer(f)
    &&& e.raw_output@ == failure_json(f)
    &&& e.result_chars == f.reason@.len()
    &&& e.single_result_budget_chars == 1200
    &&& !e.single_result_budget_hit
    &&& !e.success
    &&& e.memory_write_summary is None
    &&& e.reasoning_summary@ == "patch 解析、路径校验、上下文匹配或写入失败，已按文件级错误收口。"@
    &&& e.cache_status@ == "bypass"@
    &&& e.cache_reason@ == CACHE_REASON@
}

/// The execution of a failed patch run (see `fail_patch_spec`).
pub fn fail_patch(f: &PatchFailure) -> (e: crate::execution::ActionExecution)
    ensures
        fail_patch_spec(e, *f),
{
    let answer = failure_final_answer(f);
    let mut summary = String::from_str("patch 应用失败：");
    push_str(&mut summary, f.reason.as_str());
    crate::execution::ActionExecution {
        action_summary: String::from_str("应用 patch"),
        result_summary: summary,
        final_answer: answer.clone(),
        detail_preview: answer,
        raw_output: failure_raw_output(f),
        result_chars: crate::text::char_count(f.reason.as_str()),
        single_result_budget_chars: 1200,
        single_result_budget_hit: false,
        success: false,
        memory_write_summary: None,
        reasoning_summary: String::from_str("patch 解析、路径校验、上下文匹配或写入失败，已按文件级错误收口。"),
        cache_status: String::from_str("bypass"),
        cache_reason: String::from_str(CACHE_REASON),
    }
}

// ---------------------------------------------------------------------------
// File operations
// ---------------------------------------------------------------------------

/// One file operation the host performs.
#[derive(Clone, Debug)]
pub enum FsOp {
    /// Create the folders above a file.
    EnsureParent(String),
    /// Write a file with the text.
    Write(String, String),
    /// Remove a file.
    Remove(String),
}

/// An operation as plain values: its kind (0 parent, 1 write, 2 remove),
/// path and text.
pub open spec fn op_model(o: FsOp) -> (int, Seq<char>, Seq<char>) {
    match o {
        FsOp::EnsureParent(p) => (0, p@, Seq::empty()),
        FsOp::Write(p, t) => (1, p@, t@),
        FsOp::Remove(p) => (2, p@, Seq::empty()),
    }
}

pub open spec fn op_models(ops: Seq<FsOp>) -> Seq<(int, Seq<char>, Seq<char>)> {
    ops.map_values(|o: FsOp| op_model(o))
}

fn path_of(p: &Option<String>) -> (r: String)
    ensures
        r@ == match p {
            Some(s) => s@,
            None => Seq::empty(),
        },
{
    match p {
        Some(s) => s.clone(),
        None => String::new(),
    }
}

/// What writing a change does, in order; the host stops at the first
/// failure. A creation or modification writes the new text at the target, a
/// deletion removes the old file, a rename writes the new file and then
/// removes the old one.
pub open spec fn write_ops_spec(c: PatchChange) -> Seq<(int, Seq<char>, Seq<char>)> {
    let old = match c.old_path { Some(p) => p@, None => Seq::empty() };
    let new = match c.new_path { Some(p) => p@, None => Seq::empty() };
    match c.kind {
        PatchKind::Create | PatchKind::Modify => seq![(0, target_of(c), Seq::empty()), (1, target_of(c), c.updated@)],
        PatchKind::Delete => seq![(2, old, Seq::empty())],
        PatchKind::Rename => seq![(0, new, Seq::empty()), (1, new, c.updated@), (2, old, Seq::empty())],
    }
}

/// What undoing a change does, ignoring failures: a creation removes the
/// new file, a modification or deletion restores the original text, a
/// rename removes the new file and restores the old one.
pub open spec fn rollback_ops_spec(c: PatchChange) -> Seq<(int, Seq<char>, Seq<char>)> {
    let old = match c.old_path { Some(p) => p@, None => Seq::empty() };
    let new = match c.new_path { Some(p) => p@, None => Seq::empty() };
    match c.kind {
        PatchKind::Create => seq![(2, target_of(c), Seq::empty())],
        PatchKind::Modify => seq![(0, target_of(c), Seq::empty()), (1, target_of(c), c.original@)],
        PatchKind::Delete => seq![(0, old, Seq::empty()), (1, old, c.original@)],
        PatchKind::Rename => seq![(2, new, Seq::empty()), (0, old, Seq::empty()), (1, old, c.original@)],
    }
}

/// What writing a change does (see `write_ops_spec`).
pub fn write_ops(c: &PatchChange) -> (r: Vec<FsOp>)
    ensures
        op_models(r@) == write_ops_spec(*c),
{
    let mut r: Vec<FsOp> = Vec::new();
    match c.kind {
        PatchKind::Create | PatchKind::Modify => {
            let t = target_path(c);
            r.push(FsOp::EnsureParent(t.clone()));
            r.push(FsOp::Write(t, c.updated.clone()));
        },
        PatchKind::Delete => {
            r.push(FsOp::Remove(path_of(&c.old_path)));
        },
        PatchKind::Rename => {
            let n = path_of(&c.new_path);
            r.push(FsOp::EnsureParent(n.clone()));
            r.push(FsOp::Write(n, c.updated.clone()));
            r.push(FsOp::Remove(path_of(&c.old_path)));
        },
    }
    assert(op_models(r@) =~= write_ops_spec(*c));
    r
}

/// What undoing a change does (see `rollback_ops_spec`).
pub fn rollback_ops(c: &PatchChange) -> (r: Vec<FsOp>)
    ensures
        op_models(r@) == rollback_ops_spec(*c),
{
    let mut r: Vec<FsOp> = Vec::new();
    match c.kind {
        PatchKind::Create => {
            r.push(FsOp::Remove(target_path(c)));
        },
        PatchKind::Modify => {
            let t = target_path(c);
            r.push(FsOp::EnsureParent(t.clone()));
            r.push(FsOp::Write(t, c.original.clone()));
        },
        PatchKind::Delete => {
            let o = path_of(&c.old_path);
            r.push(FsOp::EnsureParent(o.clone()));
            r.push(FsOp::Write(o, c.original.clone()));
        },
        PatchKind::Rename => {
            r.push(FsOp::Remove(path_of(&c.new_path)));
            let o = path_of(&c.old_path);
            r.push(FsOp::EnsureParent(o.clone()));
            r.push(FsOp::Write(o, c.original.clone()));
        },
    }
    assert(op_models(r@) =~= rollback_ops_spec(*c));
    r
}

/// Undoing a change covers each of its writes: a file it writes is removed
/// again or gets its original text back, and a file it removes gets its
/// original text back.
pub proof fn rollback_undoes_writes_law(c: PatchChange)
    requires
        change_wf(c),
    ensures
        forall|i: int| 0 <= i < write_ops_spec(c).len() && (#[trigger] write_ops_spec(c)[i]).0 == 1 ==> (exists|j: int|
            0 <= j < rollback_ops_spec(c).len() && (#[trigger] rollback_ops_spec(c)[j] == (2int, write_ops_spec(c)[i].1,
            Seq::<char>::empty()) || rollback_ops_spec(c)[j] == (1int, write_ops_spec(c)[i].1, c.original@))),
        forall|i: int| 0 <= i < write_ops_spec(c).len() && (#[trigger] write_ops_spec(c)[i]).0 == 2 ==> (exists|j: int|
            0 <= j < rollback_ops_spec(c).len() && #[trigger] rollback_ops_spec(c)[j] == (1int, write_ops_spec(c)[i].1,
            c.original@)),
{
    let w = write_ops_spec(c);
    let r = rollback_ops_spec(c);
    match c.kind {
        PatchKind::Create => {
            assert(r[0] == (2int, w[1].1, Seq::<char>::empty()));
        },
        PatchKind::Modify => {
            assert(r[1] == (1int, w[1].1, c.original@));
        },
        PatchKind::Delete => {
            assert(r[1] == (1int, w[0].1, c.original@));
        },
        PatchKind::Rename => {
            assert(r[0] == (2int, w[1].1, Seq::<char>::empty()));
            assert(r[2] == (1int, w[2].1, c.original@));
        },
    }
}

/// What undoing the first `k` written changes does: the latest first, down
/// to the first change.
pub open spec fn undo_written(cs: Seq<PatchChange>, k: int) -> Seq<(int, Seq<char>, Seq<char>)>
    decreases k,
{
    if k <= 0 {
        Seq::empty()
    } else {
        rollback_ops_spec(cs[k - 1]) + undo_written(cs, k - 1)
    }
}

/// What the host undoes when writing change `failed` fails: that change
/// itself, then every change written before it, latest first.
pub open spec fn failure_rollback_spec(cs: Seq<PatchChange>, failed: int) -> Seq<(int, Seq<char>, Seq<char>)> {
    rollback_ops_spec(cs[failed]) + undo_written(cs, failed)
}

/// What the host undoes when writing change `failed` fails (see `failure_rollback_spec`).
pub fn failure_rollback_plan(changes: &[PatchChange], failed: usize) -> (r: Vec<FsOp>)
    requires
        failed < changes@.len(),
    ensures
        op_models(r@) == failure_rollback_spec(changes@, failed as int),
{
    let mut r = rollback_ops(&changes[failed]);
    let mut k: usize = failed;
    while k > 0
        invariant
            k <= failed < changes@.len(),
            op_models(r@) + undo_written(changes@, k as int) == failure_rollback_spec(changes@, failed as int),
        decreases k,
    {
        let mut more = rollback_ops(&changes[k - 1]);
        let ghost before = r@;
        let ghost added = more@;
        r.append(&mut more);
        proof {
            assert(r@ =~= before + added);
            assert(op_models(r@) =~= op_models(before) + op_models(added));
            assert(undo_written(changes@, k as int) == rollback_ops_spec(changes@[k - 1]) + undo_written(changes@, k - 1));
            assert(op_models(r@) + undo_written(changes@, k - 1) =~= op_models(before) + undo_written(changes@, k as int));
        }
        k = k - 1;
    }
    assert(op_models(r@) =~= op_models(r@) + undo_written(changes@, 0));
    r
}

/// Undoing the written changes ends with undoing the first one.
proof fn lemma_undo_ends_with_first(cs: Seq<PatchChange>, k: int)
    requires
        1 <= k <= cs.len(),
    ensures
        exists|pre: Seq<(int, Seq<char>, Seq<char>)>| undo_written(cs, k) == pre + rollback_ops_spec(cs[0]),
    decreases k,
{
    if k == 1 {
        let e = Seq::<(int, Seq<char>, Seq<char>)>::empty();
        assert(undo_written(cs, 0) == e);
        assert(undo_written(cs, 1) == rollback_ops_spec(cs[0]) + undo_written(cs, 0));
        assert(undo_written(cs, 1) =~= e + rollback_ops_spec(cs[0]));
    } else {
        lemma_undo_ends_with_first(cs, k - 1);
        let pre = choose|pre: Seq<(int, Seq<char>, Seq<char>)>| undo_written(cs, k - 1) == pre + rollback_ops_spec(cs[0]);
        assert(undo_written(cs, k) =~= (rollback_ops_spec(cs[k - 1]) + pre) + rollback_ops_spec(cs[0]));
    }
}

/// When a later change fails to be written, the files of the first change
/// are restored: the undo the host performs ends with undoing the first change.
pub proof fn failed_write_restores_first_change_law(cs: Seq<PatchChange>, failed: int)
    requires
        0 < failed < cs.len(),
    ensures
        exists|pre: Seq<(int, Seq<char>, Seq<char>)>| failure_rollback_spec(cs, failed) == pre + rollback_ops_spec(cs[0]),
{
    lemma_undo_ends_with_first(cs, failed);
    let pre = choose|pre: Seq<(int, Seq<char>, Seq<char>)>| undo_written(cs, failed) == pre + rollback_ops_spec(cs[0]);
    assert(failure_rollback_spec(cs, failed) =~= (rollback_ops_spec(cs[failed]) + pre) + rollback_ops_spec(cs[0]));
}

/// The writes the host performs for a patch, change by change and in order:
/// none at all for a dry run.
pub fn patch_write_plan(dry_run: bool, changes: &[PatchChange]) -> (r: Vec<Vec<FsOp>>)
    ensures
        dry_run ==> r@.len() == 0,
        !dry_run ==> r@.len() == changes@.len(),
        !dry_run ==> forall|i: int| 0 <= i < r@.len() ==> op_models(#[trigger] r@[i]@) == write_ops_spec(changes@[i]),
{
    let mut r: Vec<Vec<FsOp>> = Vec::new();
    if dry_run {
        return r;
    }
    let mut i: usize = 0;
    while i < changes.len()
        invariant
            i <= changes@.len(),
            r@.len() == i,
            forall|j: int| 0 <= j < i ==> op_models(#[trigger] r@[j]@) == write_ops_spec(changes@[j]),
        decreases changes.len() - i,
    {
        r.push(write_ops(&changes[i]));
        i = i + 1;
    }
    r
}
} // verus!
