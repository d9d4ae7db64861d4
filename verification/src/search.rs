//! Searching file contents in the workspace: the search pattern (a
//! case-insensitive regular expression of the escaped query, or a lower-cased
//! literal), glob filters, which files and folders a search skips, the lines
//! a file contributes with their context, and the reports of each output
//! mode. The host walks the folders and reads the files.
use vstd::prelude::*;
use crate::execution::{ActionExecution, plain_execution};
use crate::text::{dec, has_sub, join, join_strings, lines, lines_of, lowercase_of, push_str, str_eq, summary_of, to_lower, usize_text, views};

verus! {

/// How deep a search descends into folders.
pub const SEARCH_MAX_DEPTH: u32 = 8;

/// How many lines of content a search reports.
pub const SEARCH_MAX_LINES: usize = 500;

/// The largest file a search reads, in bytes.
pub const SEARCH_MAX_FILE_SIZE: u64 = 2097152;

/// How many characters of content a search reports.
pub const SEARCH_MAX_RESULT_CHARS: usize = 8000;

/// How many files a file list or count search reports.
pub const SEARCH_MAX_FILES: usize = 200;

#[verifier::external_type_specification]
#[verifier::external_body]
pub struct ExRegex(regex::Regex);

#[verifier::external_type_specification]
#[verifier::external_body]
pub struct ExRegexError(regex::Error);

/// A regular expression together with the pattern it was built from.
pub struct CompiledRegex {
    re: regex::Regex,
    pattern: Ghost<Seq<char>>,
}

impl View for CompiledRegex {
    type V = Seq<char>;

    closed spec fn view(&self) -> Seq<char> {
        self.pattern@
    }
}

/// Whether `regex::Regex::new` accepts a pattern (valid, and within the
/// default size limit); a function of the pattern alone.
pub uninterp spec fn regex_compiles(pattern: Seq<char>) -> bool;

/// Whether the regular expression built from `pattern` matches somewhere in
/// `haystack`, as `regex::Regex::is_match` tells.
pub uninterp spec fn regex_matches(pattern: Seq<char>, haystack: Seq<char>) -> bool;

/// Builds a regular expression by `regex::Regex::new`. The contract says
/// that it succeeds exactly on the patterns the name `regex_compiles`
/// stands for, and that the value keeps its pattern; the regex syntax is not
/// restated here.
#[verifier::external_body]
fn compile_regex(pattern: &str) -> (r: Result<CompiledRegex, regex::Error>)
    ensures
        r is Ok <==> regex_compiles(pattern@),
        r matches Ok(c) ==> c@ == pattern@,
{
    regex::Regex::new(pattern).map(|re| CompiledRegex { re, pattern: Ghost(pattern@) })
}

/// Whether the regular expression matches somewhere in the text, by
/// `regex::Regex::is_match`. Its contract names the result.
#[verifier::external_body]
fn regex_is_match(re: &CompiledRegex, haystack: &str) -> (r: bool)
    ensures
        r == regex_matches(re@, haystack@),
{
    re.re.is_match(haystack)
}

/// The characters `regex::escape` escapes (`regex_syntax::is_meta_character`).
pub open spec fn is_meta_char(c: char) -> bool {
    c == '\\' || c == '.' || c == '+' || c == '*' || c == '?' || c == '(' || c == ')' || c == '|' || c == '['
        || c == ']' || c == '{' || c == '}' || c == '^' || c == '$' || c == '#' || c == '&' || c == '-' || c == '~'
}

/// A text with each meta character preceded by a backslash.
pub open spec fn escape_spec(s: Seq<char>) -> Seq<char>
    decreases s.len(),
{
    if s.len() == 0 {
        Seq::empty()
    } else {
        escape_spec(s.drop_last()) + if is_meta_char(s.last()) {
            seq!['\\', s.last()]
        } else {
            seq![s.last()]
        }
    }
}

/// A text with each meta character escaped, by `regex::escape`. The contract
/// states what the crate's source does: a backslash before each character
/// that `is_meta_character` lists.
#[verifier::external_body]
fn regex_escape(s: &str) -> (r: String)
    ensures
        r@ == escape_spec(s@),
{
    regex::escape(s)
}

/// The number of bytes a character takes in UTF-8.
pub open spec fn utf8_width(c: char) -> nat {
    if (c as u32) < 0x80 {
        1
    } else if (c as u32) < 0x800 {
        2
    } else if (c as u32) < 0x10000 {
        3
    } else {
        4
    }
}

/// The number of bytes a text takes in UTF-8 (`str::len`).
pub open spec fn utf8_len(s: Seq<char>) -> nat
    decreases s.len(),
{
    if s.len() == 0 {
        0
    } else {
        utf8_len(s.drop_last()) + utf8_width(s.last())
    }
}

/// Whether a text takes at most two bytes in UTF-8.
fn at_most_two_bytes(s: &str) -> (r: bool)
    ensures
        r == (utf8_len(s@) <= 2),
{
    let v = crate::text::chars_of(s);
    let mut n: usize = 0;
    let mut i: usize = 0;
    while i < v.len()
        invariant
            i <= v@.len(),
            v@ == s@,
            n == utf8_len(v@.take(i as int)),
            n <= 2,
        decreases v.len() - i,
    {
        assert(v@.take(i + 1).drop_last() =~= v@.take(i as int));
        let c = v[i];
        let w: usize = if (c as u32) < 0x80 {
            1
        } else if (c as u32) < 0x800 {
            2
        } else if (c as u32) < 0x10000 {
            3
        } else {
            4
        };
        if n + w > 2 {
            proof {
                lemma_utf8_len_grows(v@, i as int + 1);
            }
            return false;
        }
        n = n + w;
        i = i + 1;
    }
    assert(v@.take(v@.len() as int) =~= v@);
    true
}

proof fn lemma_utf8_len_grows(s: Seq<char>, k: int)
    requires
        0 <= k <= s.len(),
    ensures
        utf8_len(s.take(k)) <= utf8_len(s),
    decreases s.len() - k,
{
    if k < s.len() {
        lemma_utf8_len_grows(s, k + 1);
        assert(s.take(k + 1).drop_last() =~= s.take(k));
    } else {
        assert(s.take(k) =~= s);
    }
}

/// The pattern a search looks for.
pub enum SearchPattern {
    /// A case-insensitive regular expression of the escaped query.
    Regex(CompiledRegex),
    /// The lower-cased query, looked for in each lower-cased line.
    Literal(String),
}

/// What a pattern is built from: a regular expression pattern, or a literal.
pub open spec fn pattern_view(p: SearchPattern) -> (bool, Seq<char>) {
    match p {
        SearchPattern::Regex(c) => (true, c@),
        SearchPattern::Literal(s) => (false, s@),
    }
}

/// The pattern of a query: a literal for a query of at most two bytes, else
/// the case-insensitive regular expression of the escaped query, falling
/// back to the literal when it does not build.
pub open spec fn search_pattern_spec(query: Seq<char>) -> (bool, Seq<char>) {
    if utf8_len(query) <= 2 {
        (false, lowercase_of(query))
    } else if regex_compiles("(?i)"@ + escape_spec(query)) {
        (true, "(?i)"@ + escape_spec(query))
    } else {
        (false, lowercase_of(query))
    }
}

/// The pattern of a query (see `search_pattern_spec`).
pub fn compile_search_pattern(query: &str) -> (p: SearchPattern)
    ensures
        pattern_view(p) == search_pattern_spec(query@),
{
    if at_most_two_bytes(query) {
        return SearchPattern::Literal(to_lower(query));
    }
    let escaped = regex_escape(query);
    let mut pattern = String::from_str("(?i)");
    push_str(&mut pattern, escaped.as_str());
    match compile_regex(pattern.as_str()) {
        Ok(re) => SearchPattern::Regex(re),
        Err(_) => SearchPattern::Literal(to_lower(query)),
    }
}

/// A line matches a pattern.
pub open spec fn line_matches(p: (bool, Seq<char>), line: Seq<char>) -> bool {
    if p.0 {
        regex_matches(p.1, line)
    } else {
        has_sub(lowercase_of(line), p.1)
    }
}

/// Whether a line matches the pattern.
pub fn match_pattern(pattern: &SearchPattern, line: &str) -> (r: bool)
    ensures
        r == line_matches(pattern_view(*pattern), line@),
{
    match pattern {
        SearchPattern::Regex(re) => regex_is_match(re, line),
        SearchPattern::Literal(lit) => {
            let lower = to_lower(line);
            crate::text::contains(lower.as_str(), lit.as_str())
        },
    }
}

// ---------------------------------------------------------------------------
// Globs
// ---------------------------------------------------------------------------

/// The regular expression text of one glob character: `**` any text, `*`
/// any text within a path segment, `?` one character, meta characters
/// escaped.
pub open spec fn glob_regex_spec(g: Seq<char>) -> Seq<char>
    decreases g.len(),
{
    if g.len() == 0 {
        Seq::empty()
    } else if g[0] == '*' && g.len() > 1 && g[1] == '*' {
        ".*"@ + glob_regex_spec(g.skip(2))
    } else if g[0] == '*' {
        "[^/\\\\]*"@ + glob_regex_spec(g.drop_first())
    } else if g[0] == '?' {
        "[^/\\\\]"@ + glob_regex_spec(g.drop_first())
    } else if g[0] == '.' || g[0] == '+' || g[0] == '(' || g[0] == ')' || g[0] == '|' || g[0] == '^' || g[0] == '$'
        || g[0] == '{' || g[0] == '}' || g[0] == '[' || g[0] == ']' || g[0] == '\\' {
        seq!['\\', g[0]] + glob_regex_spec(g.drop_first())
    } else {
        seq![g[0]] + glob_regex_spec(g.drop_first())
    }
}

/// The regular expression text of a glob (see `glob_regex_spec`).
pub fn glob_to_regex(glob: &str) -> (r: String)
    ensures
        r@ == glob_regex_spec(glob@),
{
    let chars = crate::text::chars_of(glob);
    let mut out = String::new();
    let mut i: usize = 0;
    assert(chars@.skip(0) =~= glob@);
    assert(out@ + glob_regex_spec(chars@.skip(0)) =~= glob_regex_spec(glob@));
    while i < chars.len()
        invariant
            i <= chars@.len(),
            chars@ == glob@,
            out@ + glob_regex_spec(chars@.skip(i as int)) == glob_regex_spec(glob@),
        decreases chars.len() - i,
    {
        let ghost rest = chars@.skip(i as int);
        assert(rest[0] == chars@[i as int]);
        if chars[i] == '*' {
            if i + 1 < chars.len() && chars[i + 1] == '*' {
                assert(rest[1] == chars@[i + 1]);
                assert(rest.skip(2) =~= chars@.skip(i + 2));
                push_str(&mut out, ".*");
                i = i + 2;
                assert(out@ + glob_regex_spec(chars@.skip(i as int)) =~= glob_regex_spec(glob@));
                continue;
            }
            push_str(&mut out, "[^/\\\\]*");
        } else if chars[i] == '?' {
            push_str(&mut out, "[^/\\\\]");
        } else if chars[i] == '.' || chars[i] == '+' || chars[i] == '(' || chars[i] == ')' || chars[i] == '|'
            || chars[i] == '^' || chars[i] == '$' || chars[i] == '{' || chars[i] == '}' || chars[i] == '['
            || chars[i] == ']' || chars[i] == '\\' {
            crate::text::push_char(&mut out, '\\');
            crate::text::push_char(&mut out, chars[i]);
        } else {
            crate::text::push_char(&mut out, chars[i]);
        }
        assert(rest.drop_first() =~= chars@.skip(i + 1));
        i = i + 1;
        assert(out@ + glob_regex_spec(chars@.skip(i as int)) =~= glob_regex_spec(glob@));
    }
    assert(chars@.skip(chars@.len() as int) =~= Seq::<char>::empty());
    assert(out@ + Seq::<char>::empty() =~= out@);
    out
}

/// Whether a name matches a glob, case-insensitively and in full; a glob
/// whose expression does not build matches nothing.
pub open spec fn glob_matches_spec(glob: Seq<char>, name: Seq<char>) -> bool {
    let pattern = "(?i)^"@ + glob_regex_spec(glob) + "$"@;
    regex_compiles(pattern) && regex_matches(pattern, name)
}

/// Whether a name matches a glob (see `glob_matches_spec`).
pub fn glob_matches(glob: &str, name: &str) -> (r: bool)
    ensures
        r == glob_matches_spec(glob@, name@),
{
    let inner = glob_to_regex(glob);
    let mut pattern = String::from_str("(?i)^");
    push_str(&mut pattern, inner.as_str());
    push_str(&mut pattern, "$");
    match compile_regex(pattern.as_str()) {
        Ok(re) => regex_is_match(&re, name),
        Err(_) => false,
    }
}


// ---------------------------------------------------------------------------
// Searching one file
// ---------------------------------------------------------------------------

/// What a search reports.
#[derive(Clone, Copy, Debug, PartialEq, Eq, Structural)]
pub enum SearchOutputMode {
    /// The paths of the files that match.
    FilesWithMatches,
    /// The number of matching lines per file.
    Count,
    /// The matching lines with their context.
    Content,
}

/// One reported line: its number, its text, and whether it is context
/// around a match rather than a match.
#[derive(Clone, Debug)]
pub struct MatchLine {
    pub line_number: usize,
    pub text: String,
    pub is_context: bool,
}

/// What one file contributed to a search.
#[derive(Clone, Debug)]
pub struct SearchResult {
    pub rel_path: String,
    pub matches: Vec<MatchLine>,
    pub match_count: usize,
}

/// A reported line as plain values.
pub type LineModel = (int, Seq<char>, bool);

/// The reported lines as plain values.
pub open spec fn line_models(m: Seq<MatchLine>) -> Seq<LineModel> {
    m.map_values(|x: MatchLine| (x.line_number as int, x.text@, x.is_context))
}

/// The lines held back as context before a possible match, as plain values.
pub open spec fn pending_models(p: Seq<(usize, String)>) -> Seq<(int, Seq<char>)> {
    p.map_values(|x: (usize, String)| (x.0 as int, x.1@))
}

/// Held-back lines reported as context (numbered from 1).
pub open spec fn context_lines(p: Seq<(int, Seq<char>)>) -> Seq<LineModel> {
    p.map_values(|x: (int, Seq<char>)| (x.0 + 1, x.1, true))
}

/// The context lines after a match at line index `a - 1`: the lines from
/// index `a` up to `end`, stopping at the next match or when `total`
/// reaches the line limit; and the total after them.
pub open spec fn after_scan(p: (bool, Seq<char>), ls: Seq<Seq<char>>, a: int, end: int, total: int) -> (Seq<LineModel>, int)
    decreases end - a,
{
    if a >= end || a < 0 || a >= ls.len() || total >= SEARCH_MAX_LINES || line_matches(p, ls[a]) {
        (Seq::empty(), total)
    } else {
        let r = after_scan(p, ls, a + 1, end, total + 1);
        (seq![(a + 1, ls[a], true)] + r.0, r.1)
    }
}

/// The state of a scan: the reported lines, the number of matches, the
/// held-back lines and the running total of reported lines.
pub type ScanState = (Seq<LineModel>, int, Seq<(int, Seq<char>)>, int);

/// One line of the scan. Once the total reached the limit nothing changes.
/// A match reports the held-back lines, itself and the context after it; a
/// line that does not match is held back, keeping the last `ctx`.
pub open spec fn scan_step(p: (bool, Seq<char>), ls: Seq<Seq<char>>, ctx: nat, st: ScanState, idx: int) -> ScanState {
    if st.3 >= SEARCH_MAX_LINES {
        st
    } else if line_matches(p, ls[idx]) {
        let t1 = st.3 + st.2.len() + 1;
        let before = st.0 + context_lines(st.2) + seq![(idx + 1, ls[idx], false)];
        if ctx > 0 {
            let end = if idx + 1 + ctx < ls.len() { idx + 1 + ctx } else { ls.len() as int };
            let a = after_scan(p, ls, idx + 1, end, t1);
            (before + a.0, st.1 + 1, Seq::empty(), a.1)
        } else {
            (before, st.1 + 1, Seq::empty(), t1)
        }
    } else if ctx > 0 {
        let pend = st.2.push((idx, ls[idx]));
        (st.0, st.1, if pend.len() > ctx { pend.drop_first() } else { pend }, st.3)
    } else {
        st
    }
}

/// The state after scanning the first `k` lines from the running total `t0`.
pub open spec fn scan_upto(p: (bool, Seq<char>), ls: Seq<Seq<char>>, ctx: nat, t0: int, k: int) -> ScanState
    decreases k,
{
    if k <= 0 {
        (Seq::empty(), 0, Seq::empty(), t0)
    } else {
        scan_step(p, ls, ctx, scan_upto(p, ls, ctx, t0, k - 1), k - 1)
    }
}

proof fn lemma_scan_stays(p: (bool, Seq<char>), ls: Seq<Seq<char>>, ctx: nat, t0: int, k: int, j: int)
    requires
        0 <= k <= j,
        scan_upto(p, ls, ctx, t0, k).3 >= SEARCH_MAX_LINES,
    ensures
        scan_upto(p, ls, ctx, t0, j) == scan_upto(p, ls, ctx, t0, k),
    decreases j - k,
{
    if j > k {
        lemma_scan_stays(p, ls, ctx, t0, k, j - 1);
    }
}

proof fn lemma_after_scan_total(p: (bool, Seq<char>), ls: Seq<Seq<char>>, a: int, end: int, total: int)
    ensures
        after_scan(p, ls, a, end, total).1 >= total,
        total < SEARCH_MAX_LINES ==> after_scan(p, ls, a, end, total).1 <= SEARCH_MAX_LINES,
        total >= SEARCH_MAX_LINES ==> after_scan(p, ls, a, end, total).1 == total,
    decreases end - a,
{
    if !(a >= end || a < 0 || a >= ls.len() || total >= SEARCH_MAX_LINES || line_matches(p, ls[a])) {
        lemma_after_scan_total(p, ls, a + 1, end, total + 1);
    }
}

/// The number of lines of `s` is at most its length.
pub proof fn lemma_lines_count(s: Seq<char>)
    ensures
        lines_of(s).len() <= s.len(),
    decreases s.len(),
{
    if s.len() > 0 {
        crate::text::lemma_index_of_char_bound(s, '\n');
        let e = crate::text::index_of_char(s, '\n');
        if e < s.len() {
            lemma_lines_count(s.skip((e + 1) as int));
        }
    }
}

/// How many lines match.
pub open spec fn matching_count(p: (bool, Seq<char>), ls: Seq<Seq<char>>) -> nat {
    ls.filter(|l: Seq<char>| line_matches(p, l)).len()
}

/// What a file contributes to a search in each mode, and the running total
/// of reported lines after it: a match in the file for the file list, the
/// number of matching lines for the count, the scanned lines for content.
pub open spec fn file_result_spec(
    p: (bool, Seq<char>),
    content: Seq<char>,
    ctx: nat,
    mode: SearchOutputMode,
    t0: int,
) -> (Option<(Seq<LineModel>, int)>, int) {
    let ls = lines_of(content);
    match mode {
        SearchOutputMode::FilesWithMatches => (
            if matching_count(p, ls) > 0 { Some((Seq::empty(), 1)) } else { None },
            t0,
        ),
        SearchOutputMode::Count => (
            if matching_count(p, ls) > 0 { Some((Seq::empty(), matching_count(p, ls) as int)) } else { None },
            t0,
        ),
        SearchOutputMode::Content => {
            let st = scan_upto(p, ls, ctx, t0, ls.len() as int);
            (if st.0.len() > 0 { Some((st.0, st.1)) } else { None }, st.3)
        },
    }
}

fn count_matching_lines(pattern: &SearchPattern, ls: &Vec<String>) -> (n: usize)
    ensures
        n == matching_count(pattern_view(*pattern), views(ls@)),
{
    let ghost pv = pattern_view(*pattern);
    let ghost l = views(ls@);
    let mut n: usize = 0;
    let mut i: usize = 0;
    while i < ls.len()
        invariant
            i <= ls@.len(),
            l == views(ls@),
            pv == pattern_view(*pattern),
            n == l.take(i as int).filter(|x: Seq<char>| line_matches(pv, x)).len(),
            n <= i,
        decreases ls.len() - i,
    {
        let hit = match_pattern(pattern, ls[i].as_str());
        proof {
            let f = |x: Seq<char>| line_matches(pv, x);
            assert(l.take(i + 1) =~= l.take(i as int).push(l[i as int]));
            l.take(i as int).lemma_filter_len_push(f, l[i as int]);
        }
        if hit {
            n = n + 1;
        }
        i = i + 1;
    }
    assert(l.take(ls@.len() as int) =~= l);
    n
}

/// What a file contributes to a search (see `file_result_spec`); the
/// running total of reported lines is advanced in content mode.
pub fn search_file_content(
    content: &str,
    rel_path: String,
    pattern: &SearchPattern,
    context_lines_count: u32,
    output_mode: SearchOutputMode,
    total_line_count: &mut usize,
) -> (r: Option<SearchResult>)
    requires
        content@.len() <= isize::MAX,
    ensures
        ({
            let spec = file_result_spec(pattern_view(*pattern), content@, context_lines_count as nat, output_mode,
                *old(total_line_count) as int);
            &&& *final(total_line_count) == spec.1
            &&& match r {
                None => spec.0 is None,
                Some(res) => spec.0 == Some((line_models(res.matches@), res.match_count as int)) && res.rel_path
                    == rel_path,
            }
        }),
{
    let ls = lines(content);
    let ghost l = views(ls@);
    let ghost pv = pattern_view(*pattern);
    proof {
        lemma_lines_count(content@);
    }
    match output_mode {
        SearchOutputMode::FilesWithMatches => {
            let n = count_matching_lines(pattern, &ls);
            if n > 0 {
                return Some(SearchResult { rel_path, matches: Vec::new(), match_count: 1 });
            }
            return None;
        },
        SearchOutputMode::Count => {
            let n = count_matching_lines(pattern, &ls);
            if n > 0 {
                return Some(SearchResult { rel_path, matches: Vec::new(), match_count: n });
            }
            return None;
        },
        SearchOutputMode::Content => {},
    }
    if *total_line_count >= SEARCH_MAX_LINES {
        proof {
            lemma_scan_stays(pv, l, context_lines_count as nat, *total_line_count as int, 0, l.len() as int);
        }
        return None;
    }
    let ctx = context_lines_count as usize;
    let ghost t0 = *total_line_count as int;
    let mut matches: Vec<MatchLine> = Vec::new();
    let mut match_count: usize = 0;
    let mut pending: Vec<(usize, String)> = Vec::new();
    let mut idx: usize = 0;
    while idx < ls.len()
        invariant_except_break
            idx <= ls@.len(),
            l == views(ls@),
            pv == pattern_view(*pattern),
            ls@.len() <= isize::MAX,
            ctx == context_lines_count,
            (line_models(matches@), match_count as int, pending_models(pending@), *total_line_count as int)
                == scan_upto(pv, l, ctx as nat, t0, idx as int),
            match_count <= idx,
            pending@.len() <= idx,
            pending@.len() <= ctx,
            forall|k: int| 0 <= k < pending@.len() ==> #[trigger] pending@[k].0 < idx,
            *total_line_count <= SEARCH_MAX_LINES + idx,
        ensures
            (line_models(matches@), match_count as int, *total_line_count as int) == ({
                let st = scan_upto(pv, l, ctx as nat, t0, ls@.len() as int);
                (st.0, st.1, st.3)
            }),
            l == views(ls@),
        decreases ls.len() - idx,
    {
        if *total_line_count >= SEARCH_MAX_LINES {
            proof {
                lemma_scan_stays(pv, l, ctx as nat, t0, idx as int, ls@.len() as int);
            }
            break;
        }
        let ghost st = scan_upto(pv, l, ctx as nat, t0, idx as int);
        assert(scan_upto(pv, l, ctx as nat, t0, idx + 1) == scan_step(pv, l, ctx as nat, st, idx as int));
        let is_match = match_pattern(pattern, ls[idx].as_str());
        if is_match {
            match_count = match_count + 1;
            let ghost m0 = line_models(matches@);
            let ghost t_start = *total_line_count as int;
            let mut j: usize = 0;
            while j < pending.len()
                invariant
                    j <= pending@.len(),
                    pending@.len() <= idx,
                    idx < ls@.len(),
                    ls@.len() <= isize::MAX,
                    t_start < SEARCH_MAX_LINES,
                    forall|k: int| 0 <= k < pending@.len() ==> #[trigger] pending@[k].0 < idx,
                    line_models(matches@) == m0 + context_lines(pending_models(pending@).take(j as int)),
                    *total_line_count == t_start + j,
                decreases pending.len() - j,
            {
                let ghost before = matches@;
                let n = pending[j].0 + 1;
                let text = pending[j].1.clone();
                matches.push(MatchLine { line_number: n, text, is_context: true });
                assert(line_models(matches@) =~= line_models(before).push((n as int, pending@[j as int].1@, true)));
                assert(context_lines(pending_models(pending@).take(j + 1)) =~= context_lines(pending_models(
                    pending@).take(j as int)).push((pending@[j as int].0 + 1, pending@[j as int].1@, true)));
                *total_line_count = *total_line_count + 1;
                j = j + 1;
            }
            assert(pending_models(pending@).take(pending@.len() as int) =~= pending_models(pending@));
            let ghost pend_before = pending@;
            pending = Vec::new();
            let ghost mb = line_models(matches@);
            let line = ls[idx].clone();
            matches.push(MatchLine { line_number: idx + 1, text: line, is_context: false });
            assert(line_models(matches@) =~= mb.push(((idx + 1) as int, l[idx as int], false)));
            *total_line_count = *total_line_count + 1;
            let ghost t1 = *total_line_count as int;
            assert(t1 == st.3 + st.2.len() + 1);
            let ghost before_all = line_models(matches@);
            assert(before_all =~= st.0 + context_lines(st.2) + seq![((idx + 1) as int, l[idx as int], false)]);
            if ctx > 0 {
                let after_end: usize = if ctx < ls.len() - idx - 1 { idx + 1 + ctx } else { ls.len() };
                assert(after_end as int == (if idx + 1 + ctx < ls@.len() { idx + 1 + ctx } else { ls@.len() as int }));
                let mut a: usize = idx + 1;
                let ghost mut acc: Seq<LineModel> = Seq::empty();
                proof {
                    lemma_after_scan_total(pv, l, a as int, after_end as int, t1);
                }
                while a < after_end
                    invariant_except_break
                        idx + 1 <= a <= after_end <= ls@.len(),
                        l == views(ls@),
                        pv == pattern_view(*pattern),
                        line_models(matches@) == before_all + acc,
                        after_scan(pv, l, (idx + 1) as int, after_end as int, t1) == (acc + after_scan(pv, l, a as int,
                            after_end as int, *total_line_count as int).0, after_scan(pv, l, a as int,
                            after_end as int, *total_line_count as int).1),
                        *total_line_count <= SEARCH_MAX_LINES + idx + 1,
                    ensures
                        line_models(matches@) == before_all + after_scan(pv, l, (idx + 1) as int, after_end as int, t1).0,
                        *total_line_count as int == after_scan(pv, l, (idx + 1) as int, after_end as int, t1).1,
                    decreases after_end - a,
                {
                    if *total_line_count >= SEARCH_MAX_LINES {
                        assert(acc + Seq::<LineModel>::empty() =~= acc);
                        break;
                    }
                    let hit = match_pattern(pattern, ls[a].as_str());
                    if hit {
                        assert(acc + Seq::<LineModel>::empty() =~= acc);
                        break;
                    }
                    let ghost r = after_scan(pv, l, a + 1, after_end as int, *total_line_count + 1);
                    let ghost mb2 = line_models(matches@);
                    let text = ls[a].clone();
                    matches.push(MatchLine { line_number: a + 1, text, is_context: true });
                    assert(line_models(matches@) =~= mb2.push(((a + 1) as int, l[a as int], true)));
                    proof {
                        acc = acc.push(((a + 1) as int, l[a as int], true));
                        assert(acc.drop_last() + (seq![((a + 1) as int, l[a as int], true)] + r.0) =~= acc + r.0);
                    }
                    *total_line_count = *total_line_count + 1;
                    a = a + 1;
                    assert(line_models(matches@) =~= before_all + acc);
                }
            }
            proof {
                assert(pending_models(pending@) =~= Seq::<(int, Seq<char>)>::empty());
            }
        } else if ctx > 0 {
            let ghost pb = pending@;
            let line = ls[idx].clone();
            pending.push((idx, line));
            assert(pending_models(pending@) =~= pending_models(pb).push((idx as int, l[idx as int])));
            if pending.len() > ctx {
                let _ = pending.remove(0);
                assert(pending_models(pending@) =~= pending_models(pb).push((idx as int, l[idx as int])).drop_first());
            }
        }
        idx = idx + 1;
    }
    if matches.len() == 0 {
        return None;
    }
    Some(SearchResult { rel_path, matches, match_count })
}

// ---------------------------------------------------------------------------
// Which files and folders a search visits
// ---------------------------------------------------------------------------

/// The folders that searches and directory trees skip.
pub open spec fn skip_dirs() -> Seq<Seq<char>> {
    seq![
        ".git"@, "target"@, "node_modules"@, "__pycache__"@, ".venv"@, "venv"@, ".idea"@, ".vscode"@,
        "dist"@, "build"@, ".next"@, ".nuxt"@, "vendor"@, ".cache"@,
    ]
}

/// The folder name numbered `i` that searches and trees skip.
fn skip_dir_name(i: usize) -> (r: &'static str)
    requires
        i < 14,
    ensures
        r@ == skip_dirs()[i as int],
{
    match i {
        0 => ".git",
        1 => "target",
        2 => "node_modules",
        3 => "__pycache__",
        4 => ".venv",
        5 => "venv",
        6 => ".idea",
        7 => ".vscode",
        8 => "dist",
        9 => "build",
        10 => ".next",
        11 => ".nuxt",
        12 => "vendor",
        _ => ".cache",
    }
}
/// The extensions of the files a search reads as text.
pub open spec fn text_extensions() -> Seq<Seq<char>> {
    seq![
        "rs"@, "go"@, "js"@, "ts"@, "jsx"@, "tsx"@, "py"@, "java"@, "kt"@, "swift"@, "c"@, "cpp"@, "cc"@,
        "cxx"@, "h"@, "hpp"@, "rb"@, "php"@, "cs"@, "scala"@, "toml"@, "yaml"@, "yml"@, "json"@, "xml"@,
        "csv"@, "ini"@, "cfg"@, "conf"@, "md"@, "txt"@, "rst"@, "tex"@, "html"@, "htm"@, "css"@, "scss"@,
        "less"@, "sql"@, "sh"@, "bash"@, "zsh"@, "ps1"@, "bat"@, "cmake"@, "make"@, "dockerfile"@, "proto"@,
        "graphql"@, "vue"@, "svelte"@, "astro"@, "elm"@, "ex"@, "exs"@, "erl"@, "hrl"@, "clj"@, "cljs"@,
        "edn"@, "lua"@, "r"@, "jl"@, "dart"@, "zig"@, "nim"@, "v"@, "fs"@, "fsx"@, "ml"@, "mli"@, "hs"@,
        "lhs"@, "pl"@, "pm"@, "tcl"@, "groovy"@, "gradle"@, "lock"@,
    ]
}

/// The text file extension numbered `i`.
fn text_extension(i: usize) -> (r: &'static str)
    requires
        i < 79,
    ensures
        r@ == text_extensions()[i as int],
{
    match i {
        0 => "rs",
        1 => "go",
        2 => "js",
        3 => "ts",
        4 => "jsx",
        5 => "tsx",
        6 => "py",
        7 => "java",
        8 => "kt",
        9 => "swift",
        10 => "c",
        11 => "cpp",
        12 => "cc",
        13 => "cxx",
        14 => "h",
        15 => "hpp",
        16 => "rb",
        17 => "php",
        18 => "cs",
        19 => "scala",
        20 => "toml",
        21 => "yaml",
        22 => "yml",
        23 => "json",
        24 => "xml",
        25 => "csv",
        26 => "ini",
        27 => "cfg",
        28 => "conf",
        29 => "md",
        30 => "txt",
        31 => "rst",
        32 => "tex",
        33 => "html",
        34 => "htm",
        35 => "css",
        36 => "scss",
        37 => "less",
        38 => "sql",
        39 => "sh",
        40 => "bash",
        41 => "zsh",
        42 => "ps1",
        43 => "bat",
        44 => "cmake",
        45 => "make",
        46 => "dockerfile",
        47 => "proto",
        48 => "graphql",
        49 => "vue",
        50 => "svelte",
        51 => "astro",
        52 => "elm",
        53 => "ex",
        54 => "exs",
        55 => "erl",
        56 => "hrl",
        57 => "clj",
        58 => "cljs",
        59 => "edn",
        60 => "lua",
        61 => "r",
        62 => "jl",
        63 => "dart",
        64 => "zig",
        65 => "nim",
        66 => "v",
        67 => "fs",
        68 => "fsx",
        69 => "ml",
        70 => "mli",
        71 => "hs",
        72 => "lhs",
        73 => "pl",
        74 => "pm",
        75 => "tcl",
        76 => "groovy",
        77 => "gradle",
        _ => "lock",
    }
}
/// The name equals one of the names, ignoring ASCII case.
pub open spec fn in_list_ignoring_case(name: Seq<char>, list: Seq<Seq<char>>) -> bool {
    exists|i: int| 0 <= i < list.len() && #[trigger] crate::text::ascii_lower(list[i]) == crate::text::ascii_lower(name)
}

fn eq_ignore_ascii_case(a: &str, b: &str) -> (r: bool)
    ensures
        r == (crate::text::ascii_lower(a@) == crate::text::ascii_lower(b@)),
{
    let x = crate::text::to_ascii_lower(a);
    let y = crate::text::to_ascii_lower(b);
    str_eq(x.as_str(), y.as_str())
}

/// Whether a folder is skipped by searches and directory trees.
pub fn is_skipped_dir(name: &str) -> (r: bool)
    ensures
        r == in_list_ignoring_case(name@, skip_dirs()),
{
    let mut i: usize = 0;
    while i < 14
        invariant
            i <= 14,
            skip_dirs().len() == 14,
            forall|j: int| 0 <= j < i ==> #[trigger] crate::text::ascii_lower(skip_dirs()[j]) != crate::text::ascii_lower(name@),
        decreases 14 - i,
    {
        if eq_ignore_ascii_case(skip_dir_name(i), name) {
            return true;
        }
        i = i + 1;
    }
    false
}

/// The last dot-separated part of a name (the whole name without a dot).
pub open spec fn last_segment(name: Seq<char>) -> Seq<char> {
    if crate::text::has_char(name, '.') {
        name.skip(crate::text::last_char_at(name, '.') + 1)
    } else {
        name
    }
}

/// A file a search reads as text: one whose lower-cased extension is the
/// whole name, or a known text extension.
pub open spec fn text_file_spec(name: Seq<char>) -> bool {
    let ext = lowercase_of(last_segment(name));
    ext == name || in_list_ignoring_case(ext, text_extensions())
}

/// Whether a search reads the file as text (see `text_file_spec`).
pub fn is_text_file(name: &str) -> (r: bool)
    ensures
        r == text_file_spec(name@),
{
    let seg = match crate::text::rsplit_once_char(name, '.') {
        Some((_, tail)) => tail,
        None => String::from_str(name),
    };
    let ext = to_lower(seg.as_str());
    if str_eq(ext.as_str(), name) {
        return true;
    }
    let mut i: usize = 0;
    while i < 79
        invariant
            i <= 79,
            text_extensions().len() == 79,
            ext@ == lowercase_of(last_segment(name@)),
            forall|j: int| 0 <= j < i ==> #[trigger] crate::text::ascii_lower(text_extensions()[j]) != crate::text::ascii_lower(ext@),
        decreases 79 - i,
    {
        if eq_ignore_ascii_case(text_extension(i), ext.as_str()) {
            return true;
        }
        i = i + 1;
    }
    false
}

/// Which files a search reads as text: a file whose lower-cased last
/// extension is one of the fixed source, configuration and document
/// extensions below is read, and so is a name without an extension; a file
/// whose extension is none of them, in any letter case, is skipped.
pub proof fn known_text_extensions_law(name: Seq<char>)
    ensures
        ({
            let ext = lowercase_of(last_segment(name));
            let known: Seq<Seq<char>> = seq![
                "rs"@, "go"@, "js"@, "ts"@, "jsx"@, "tsx"@, "py"@, "java"@, "kt"@, "swift"@, "c"@, "cpp"@,
                "cc"@, "cxx"@, "h"@, "hpp"@, "rb"@, "php"@, "cs"@, "scala"@, "toml"@, "yaml"@, "yml"@, "json"@,
                "xml"@, "csv"@, "ini"@, "cfg"@, "conf"@, "md"@, "txt"@, "rst"@, "tex"@, "html"@, "htm"@, "css"@,
                "scss"@, "less"@, "sql"@, "sh"@, "bash"@, "zsh"@, "ps1"@, "bat"@, "cmake"@, "make"@,
                "dockerfile"@, "proto"@, "graphql"@, "vue"@, "svelte"@, "astro"@, "elm"@, "ex"@, "exs"@, "erl"@,
                "hrl"@, "clj"@, "cljs"@, "edn"@, "lua"@, "r"@, "jl"@, "dart"@, "zig"@, "nim"@, "v"@, "fs"@,
                "fsx"@, "ml"@, "mli"@, "hs"@, "lhs"@, "pl"@, "pm"@, "tcl"@, "groovy"@, "gradle"@, "lock"@,
            ];
            &&& (exists|i: int| 0 <= i < known.len() && #[trigger] known[i] == ext) ==> text_file_spec(name)
            &&& ext == name ==> text_file_spec(name)
            &&& (ext != name && forall|i: int| 0 <= i < known.len() ==> crate::text::ascii_lower(#[trigger] known[i])
                != crate::text::ascii_lower(ext)) ==> !text_file_spec(name)
        }),
{
    let ext = lowercase_of(last_segment(name));
    let known: Seq<Seq<char>> = seq![
        "rs"@, "go"@, "js"@, "ts"@, "jsx"@, "tsx"@, "py"@, "java"@, "kt"@, "swift"@, "c"@, "cpp"@,
        "cc"@, "cxx"@, "h"@, "hpp"@, "rb"@, "php"@, "cs"@, "scala"@, "toml"@, "yaml"@, "yml"@, "json"@,
        "xml"@, "csv"@, "ini"@, "cfg"@, "conf"@, "md"@, "txt"@, "rst"@, "tex"@, "html"@, "htm"@, "css"@,
        "scss"@, "less"@, "sql"@, "sh"@, "bash"@, "zsh"@, "ps1"@, "bat"@, "cmake"@, "make"@,
        "dockerfile"@, "proto"@, "graphql"@, "vue"@, "svelte"@, "astro"@, "elm"@, "ex"@, "exs"@, "erl"@,
        "hrl"@, "clj"@, "cljs"@, "edn"@, "lua"@, "r"@, "jl"@, "dart"@, "zig"@, "nim"@, "v"@, "fs"@,
        "fsx"@, "ml"@, "mli"@, "hs"@, "lhs"@, "pl"@, "pm"@, "tcl"@, "groovy"@, "gradle"@, "lock"@,
    ];
    assert(text_extensions() =~= known);
    if exists|i: int| 0 <= i < known.len() && #[trigger] known[i] == ext {
        let i = choose|i: int| 0 <= i < known.len() && #[trigger] known[i] == ext;
        assert(crate::text::ascii_lower(text_extensions()[i]) == crate::text::ascii_lower(ext));
    }
}

/// The search has reported enough: the line limit in content mode, the
/// file limit otherwise.
pub open spec fn limit_hit_spec(mode: SearchOutputMode, total_line_count: nat, results: nat) -> bool {
    match mode {
        SearchOutputMode::Content => total_line_count >= SEARCH_MAX_LINES,
        _ => results >= SEARCH_MAX_FILES,
    }
}

/// Whether the search has reported enough (see `limit_hit_spec`).
pub fn search_limit_hit(mode: SearchOutputMode, total_line_count: usize, results: usize) -> (r: bool)
    ensures
        r == limit_hit_spec(mode, total_line_count as nat, results as nat),
{
    match mode {
        SearchOutputMode::Content => total_line_count >= SEARCH_MAX_LINES,
        _ => results >= SEARCH_MAX_FILES,
    }
}

/// Whether a file is searched: it passes the glob (when one is given), is a
/// text file, and is neither too large nor binary (as the host found).
pub open spec fn searched_file_spec(name: Seq<char>, glob: Option<Seq<char>>, large_or_binary: bool) -> bool {
    &&& match glob {
        Some(g) => glob_matches_spec(g, name),
        None => true,
    }
    &&& text_file_spec(name)
    &&& !large_or_binary
}

/// Whether a file is searched (see `searched_file_spec`).
pub fn is_searched_file(name: &str, glob: Option<&str>, large_or_binary: bool) -> (r: bool)
    ensures
        r == searched_file_spec(name@, match glob {
            Some(g) => Some(g@),
            None => None,
        }, large_or_binary),
{
    match glob {
        Some(g) => {
            if !glob_matches(g, name) {
                return false;
            }
        },
        None => {},
    }
    is_text_file(name) && !large_or_binary
}

/// Whether a file is too large for a search, by its size in bytes.
pub fn is_too_large(size: u64) -> (r: bool)
    ensures
        r == (size > SEARCH_MAX_FILE_SIZE),
{
    size > SEARCH_MAX_FILE_SIZE
}

// ---------------------------------------------------------------------------
// Reports
// ---------------------------------------------------------------------------

/// One reported line: a marker (`> ` for a match), its number, its text
/// without trailing white space.
pub open spec fn match_line_text(m: MatchLine) -> Seq<char> {
    (if m.is_context { "  "@ } else { "> "@ }) + dec(m.line_number as nat) + ": "@ + crate::text::trim_end(m.text@) + "\n"@
}

/// The block of one file: its path, then its reported lines.
pub open spec fn result_block(r: SearchResult) -> Seq<char> {
    r.rel_path@ + ":\n"@ + join(r.matches@.map_values(|m: MatchLine| match_line_text(m)), Seq::empty())
}

/// The block of one file (see `result_block`).
pub fn render_result_block(r: &SearchResult) -> (out: String)
    ensures
        out@ == result_block(*r),
{
    let mut out = r.rel_path.clone();
    push_str(&mut out, ":\n");
    let ghost head = out@;
    let ghost texts = r.matches@.map_values(|m: MatchLine| match_line_text(m));
    let mut i: usize = 0;
    while i < r.matches.len()
        invariant
            i <= r.matches@.len(),
            texts == r.matches@.map_values(|m: MatchLine| match_line_text(m)),
            out@ == head + join(texts.take(i as int), Seq::empty()),
        decreases r.matches.len() - i,
    {
        let m = &r.matches[i];
        let ghost before = out@;
        push_str(&mut out, if m.is_context { "  " } else { "> " });
        let n = usize_text(m.line_number);
        push_str(&mut out, n.as_str());
        push_str(&mut out, ": ");
        let t = crate::text::trimmed_end(m.text.as_str());
        push_str(&mut out, t.as_str());
        push_str(&mut out, "\n");
        proof {
            assert(texts.take(i + 1).drop_last() =~= texts.take(i as int));
            assert(texts[i as int] == match_line_text(r.matches@[i as int]));
            if i == 0 {
                assert(join(texts.take(0), Seq::empty()) =~= Seq::<char>::empty());
            }
            assert(out@ =~= head + join(texts.take(i + 1), Seq::empty()));
        }
        i = i + 1;
    }
    assert(texts.take(r.matches@.len() as int) =~= texts);
    out
}

/// The blocks of all files, separated by `---` lines.
pub open spec fn results_output(results: Seq<SearchResult>) -> Seq<char> {
    join(results.map_values(|r: SearchResult| result_block(r)), "\n---\n"@)
}

/// The reported text, cut at the character limit with a note.
pub open spec fn truncated_output(output: Seq<char>) -> Seq<char> {
    if output.len() > SEARCH_MAX_RESULT_CHARS {
        output.take(SEARCH_MAX_RESULT_CHARS as int) + "\n...[截断，达到输出上限]"@
    } else {
        output
    }
}

/// The blocks of all files (see `results_output`).
pub fn render_results(results: &[SearchResult]) -> (out: String)
    ensures
        out@ == results_output(results@),
{
    let mut blocks: Vec<String> = Vec::new();
    let mut i: usize = 0;
    while i < results.len()
        invariant
            i <= results@.len(),
            views(blocks@) == results@.take(i as int).map_values(|r: SearchResult| result_block(r)),
        decreases results.len() - i,
    {
        let b = render_result_block(&results[i]);
        let ghost before = blocks@;
        blocks.push(b);
        assert(views(blocks@) =~= views(before).push(result_block(results@[i as int])));
        assert(views(blocks@) =~= results@.take(i + 1).map_values(|r: SearchResult| result_block(r)));
        i = i + 1;
    }
    assert(results@.take(results@.len() as int) =~= results@);
    let out = join_strings(blocks.as_slice(), "\n---\n");
    assert(blocks@.map_values(|s: String| s@) =~= views(blocks@));
    out
}

fn search_action(resolved: &str) -> (r: String)
    ensures
        r@ == "搜索文件："@ + resolved@,
{
    let mut out = String::from_str("搜索文件：");
    push_str(&mut out, resolved);
    out
}

/// The execution of a content search.
pub open spec fn content_report_ok(
    e: ActionExecution,
    resolved: Seq<char>,
    query: Seq<char>,
    results: Seq<SearchResult>,
    total_match_count: nat,
    total_line_count: nat,
) -> bool {
    if results.len() == 0 {
        plain_execution(e, "搜索文件："@ + resolved, "未找到包含 \""@ + query + "\" 的文件。"@, "在 "@ + resolved
            + " 中搜索 \""@ + query + "\"：未找到匹配结果。"@, true, None, "递归搜索目标目录中文件内容，未发现匹配。"@,
            "bypass"@, crate::workspace::CACHE_SEARCH_REASON@)
    } else {
        plain_execution(
            e,
            "搜索文件："@ + resolved,
            "在 "@ + dec(results.len()) + " 个文件中找到 "@ + dec(total_match_count) + " 条匹配。"@,
            "搜索 \""@ + query + "\" 在 "@ + resolved + "（"@ + dec(results.len()) + " 个文件，"@ + dec(total_match_count)
                + " 条匹配，"@ + dec(total_line_count) + " 行输出）：\n"@ + summary_of(truncated_output(
                results_output(results))),
            true,
            None,
            "递归搜索目标目录，支持正则、glob 过滤、上下文行。"@,
            "bypass"@,
            crate::workspace::CACHE_SEARCH_REASON@,
        )
    }
}

/// The execution of a content search (see `content_report_ok`).
pub fn format_content_results(
    resolved: &str,
    query: &str,
    results: &[SearchResult],
    total_match_count: usize,
    total_line_count: usize,
) -> (e: ActionExecution)
    ensures
        content_report_ok(e, resolved@, query@, results@, total_match_count as nat, total_line_count as nat),
{
    if results.len() == 0 {
        let mut summary = String::from_str("未找到包含 \"");
        push_str(&mut summary, query);
        push_str(&mut summary, "\" 的文件。");
        let mut answer = String::from_str("在 ");
        push_str(&mut answer, resolved);
        push_str(&mut answer, " 中搜索 \"");
        push_str(&mut answer, query);
        push_str(&mut answer, "\"：未找到匹配结果。");
        return crate::workspace::ok_op(search_action(resolved), summary, answer,
            "递归搜索目标目录中文件内容，未发现匹配。", crate::workspace::CACHE_SEARCH_REASON);
    }
    let output = render_results(results);
    let truncated = if crate::text::char_count(output.as_str()) > SEARCH_MAX_RESULT_CHARS {
        let mut t = crate::text::take_chars(output.as_str(), SEARCH_MAX_RESULT_CHARS);
        push_str(&mut t, "\n...[截断，达到输出上限]");
        t
    } else {
        output
    };
    let fc = usize_text(results.len());
    let mc = usize_text(total_match_count);
    let lc = usize_text(total_line_count);
    let mut summary = String::from_str("在 ");
    push_str(&mut summary, fc.as_str());
    push_str(&mut summary, " 个文件中找到 ");
    push_str(&mut summary, mc.as_str());
    push_str(&mut summary, " 条匹配。");
    let mut answer = String::from_str("搜索 \"");
    push_str(&mut answer, query);
    push_str(&mut answer, "\" 在 ");
    push_str(&mut answer, resolved);
    push_str(&mut answer, "（");
    push_str(&mut answer, fc.as_str());
    push_str(&mut answer, " 个文件，");
    push_str(&mut answer, mc.as_str());
    push_str(&mut answer, " 条匹配，");
    push_str(&mut answer, lc.as_str());
    push_str(&mut answer, " 行输出）：\n");
    let s = crate::text::summarize_text(truncated.as_str());
    push_str(&mut answer, s.as_str());
    crate::workspace::ok_op(search_action(resolved), summary, answer, "递归搜索目标目录，支持正则、glob 过滤、上下文行。",
        crate::workspace::CACHE_SEARCH_REASON)
}

/// The paths of the files that matched.
pub open spec fn result_paths(results: Seq<SearchResult>) -> Seq<Seq<char>> {
    results.map_values(|r: SearchResult| r.rel_path@)
}

/// The per-file counts of a count search.
pub open spec fn count_lines(results: Seq<SearchResult>) -> Seq<Seq<char>> {
    results.map_values(|r: SearchResult| r.rel_path@ + ": "@ + dec(r.match_count as nat) + " matches"@)
}

/// The execution of a file list search: the matching paths, one per line,
/// or that nothing matched.
pub open spec fn files_report_ok(e: ActionExecution, resolved: Seq<char>, results: Seq<SearchResult>) -> bool {
    &&& results.len() == 0 ==> plain_execution(e, "搜索文件："@ + resolved, "未找到匹配的文件。"@, "在 "@ + resolved
        + " 中搜索：未找到匹配结果。"@, true, None, "递归搜索目标目录，未发现包含匹配内容的文件。"@, "bypass"@,
        crate::workspace::CACHE_SEARCH_REASON@)
    &&& results.len() > 0 ==> plain_execution(e, "搜索文件："@ + resolved, "找到 "@ + dec(results.len()) + " 个匹配的文件。"@,
        "在 "@ + resolved + " 中搜索，"@ + dec(results.len()) + " 个文件匹配：\n"@ + join(result_paths(results),
        "\n"@), true, None, "递归搜索目标目录，返回匹配文件路径列表。"@, "bypass"@, crate::workspace::CACHE_SEARCH_REASON@)
}

/// The execution of a file list search.
pub fn format_files_with_matches(resolved: &str, results: &[SearchResult]) -> (e: ActionExecution)
    ensures
        files_report_ok(e, resolved@, results@),
{
    if results.len() == 0 {
        let mut answer = String::from_str("在 ");
        push_str(&mut answer, resolved);
        push_str(&mut answer, " 中搜索：未找到匹配结果。");
        return crate::workspace::ok_op(search_action(resolved), String::from_str("未找到匹配的文件。"), answer,
            "递归搜索目标目录，未发现包含匹配内容的文件。", crate::workspace::CACHE_SEARCH_REASON);
    }
    let mut paths: Vec<String> = Vec::new();
    let mut i: usize = 0;
    while i < results.len()
        invariant
            i <= results@.len(),
            views(paths@) == result_paths(results@.take(i as int)),
        decreases results.len() - i,
    {
        let ghost before = paths@;
        paths.push(results[i].rel_path.clone());
        assert(views(paths@) =~= views(before).push(results@[i as int].rel_path@));
        assert(views(paths@) =~= result_paths(results@.take(i + 1)));
        i = i + 1;
    }
    assert(results@.take(results@.len() as int) =~= results@);
    let n = usize_text(results.len());
    let mut summary = String::from_str("找到 ");
    push_str(&mut summary, n.as_str());
    push_str(&mut summary, " 个匹配的文件。");
    let mut answer = String::from_str("在 ");
    push_str(&mut answer, resolved);
    push_str(&mut answer, " 中搜索，");
    push_str(&mut answer, n.as_str());
    push_str(&mut answer, " 个文件匹配：\n");
    let joined = join_strings(paths.as_slice(), "\n");
    assert(paths@.map_values(|s: String| s@) =~= views(paths@));
    push_str(&mut answer, joined.as_str());
    crate::workspace::ok_op(search_action(resolved), summary, answer, "递归搜索目标目录，返回匹配文件路径列表。",
        crate::workspace::CACHE_SEARCH_REASON)
}

/// The execution of a count search: each matching file with its count,
/// one per line, or that nothing matched.
pub open spec fn count_report_ok(e: ActionExecution, resolved: Seq<char>, results: Seq<SearchResult>, total: nat) -> bool {
    &&& results.len() == 0 ==> plain_execution(e, "搜索文件："@ + resolved, "未找到匹配项。"@, "在 "@ + resolved
        + " 中搜索：未找到匹配结果。"@, true, None, "递归搜索目标目录，未发现匹配项。"@, "bypass"@,
        crate::workspace::CACHE_SEARCH_REASON@)
    &&& results.len() > 0 ==> plain_execution(e, "搜索文件："@ + resolved, "在 "@ + dec(results.len()) + " 个文件中找到 "@
        + dec(total) + " 条匹配。"@, "在 "@ + resolved + " 中搜索，按文件统计匹配数（"@ + dec(
        results.len()) + " 个文件，"@ + dec(total) + " 条匹配）：\n"@ + join(count_lines(results),
        "\n"@), true, None, "递归搜索目标目录，返回匹配计数。"@, "bypass"@, crate::workspace::CACHE_SEARCH_REASON@)
}

/// The execution of a count search.
pub fn format_count_results(resolved: &str, results: &[SearchResult], total_match_count: usize) -> (e: ActionExecution)
    ensures
        count_report_ok(e, resolved@, results@, total_match_count as nat),
{
    if results.len() == 0 {
        let mut answer = String::from_str("在 ");
        push_str(&mut answer, resolved);
        push_str(&mut answer, " 中搜索：未找到匹配结果。");
        return crate::workspace::ok_op(search_action(resolved), String::from_str("未找到匹配项。"), answer,
            "递归搜索目标目录，未发现匹配项。", crate::workspace::CACHE_SEARCH_REASON);
    }
    let mut lines_out: Vec<String> = Vec::new();
    let mut i: usize = 0;
    while i < results.len()
        invariant
            i <= results@.len(),
            views(lines_out@) == count_lines(results@.take(i as int)),
        decreases results.len() - i,
    {
        let mut line = results[i].rel_path.clone();
        push_str(&mut line, ": ");
        let n = usize_text(results[i].match_count);
        push_str(&mut line, n.as_str());
        push_str(&mut line, " matches");
        let ghost before = lines_out@;
        lines_out.push(line);
        assert(views(lines_out@) =~= views(before).push(results@[i as int].rel_path@ + ": "@ + dec(
            results@[i as int].match_count as nat) + " matches"@));
        assert(views(lines_out@) =~= count_lines(results@.take(i + 1)));
        i = i + 1;
    }
    assert(results@.take(results@.len() as int) =~= results@);
    let fc = usize_text(results.len());
    let mc = usize_text(total_match_count);
    let mut summary = String::from_str("在 ");
    push_str(&mut summary, fc.as_str());
    push_str(&mut summary, " 个文件中找到 ");
    push_str(&mut summary, mc.as_str());
    push_str(&mut summary, " 条匹配。");
    let mut answer = String::from_str("在 ");
    push_str(&mut answer, resolved);
    push_str(&mut answer, " 中搜索，按文件统计匹配数（");
    push_str(&mut answer, fc.as_str());
    push_str(&mut answer, " 个文件，");
    push_str(&mut answer, mc.as_str());
    push_str(&mut answer, " 条匹配）：\n");
    let joined = join_strings(lines_out.as_slice(), "\n");
    assert(lines_out@.map_values(|s: String| s@) =~= views(lines_out@));
    push_str(&mut answer, joined.as_str());
    crate::workspace::ok_op(search_action(resolved), summary, answer, "递归搜索目标目录，返回匹配计数。",
        crate::workspace::CACHE_SEARCH_REASON)
}

/// The execution of a search whose folder does not exist.
pub fn missing_search_path(resolved: &str) -> (e: ActionExecution)
    ensures
        plain_execution(e, "搜索文件："@ + resolved@, "目标路径不存在。"@, "目标路径不存在，请检查路径后重试。"@, false, None,
            "目标路径不存在，按错误直接返回。"@, "bypass"@, crate::workspace::CACHE_SEARCH_REASON@),
{
    crate::workspace::fail_op(search_action(resolved), String::from_str("目标路径不存在。"),
        String::from_str("目标路径不存在，请检查路径后重试。"), "目标路径不存在，按错误直接返回。",
        crate::workspace::CACHE_SEARCH_REASON)
}

/// The execution of a finished search in its output mode.
pub fn format_search_results(
    resolved: &str,
    query: &str,
    mode: SearchOutputMode,
    results: &[SearchResult],
    total_match_count: usize,
    total_line_count: usize,
) -> (e: ActionExecution)
    ensures
        match mode {
            SearchOutputMode::FilesWithMatches => files_report_ok(e, resolved@, results@),
            SearchOutputMode::Count => count_report_ok(e, resolved@, results@, total_match_count as nat),
            SearchOutputMode::Content => content_report_ok(e, resolved@, query@, results@, total_match_count as nat,
                total_line_count as nat),
        },
{
    match mode {
        SearchOutputMode::FilesWithMatches => format_files_with_matches(resolved, results),
        SearchOutputMode::Count => format_count_results(resolved, results, total_match_count),
        SearchOutputMode::Content => format_content_results(resolved, query, results, total_match_count, total_line_count),
    }
}
} // verus!
