//! Cleaning a model's answer text: tool markup and angle-bracket tags are
//! removed, lines that only announce an action are dropped, and an answer
//! with nothing usable left is replaced by a fallback.
use vstd::prelude::*;
use crate::text::{
    chars_of, contains, has_sub, index_of_char, join, join_strings, lines, lines_of, lowercase_of,
    replace, replace_all, string_of, to_lower, trim, trimmed, views,
};

verus! {

/// The text with the tool-call markers removed, in the fixed order.
pub open spec fn without_markers(s: Seq<char>) -> Seq<char> {
    replace_all(
        replace_all(
            replace_all(
                replace_all(replace_all(s, "minimax:tool_call"@, Seq::empty()), "tool_call"@, Seq::empty()),
                "workspace_read"@,
                Seq::empty(),
            ),
            "workspace_write"@,
            Seq::empty(),
        ),
        "workspace_list"@,
        Seq::empty(),
    )
}

pub proof fn lemma_angle_gap(t: Seq<char>, start: int)
    requires
        0 <= start < t.len(),
        start == index_of_char(t, '<'),
    ensures
        t[start] == '<',
        index_of_char(t.skip(start), '>') >= 1,
{
    crate::text::lemma_index_of_char_bound(t, '<');
    assert(t.skip(start)[0] == '<');
}

/// The text with every `<` ... `>` span, from the first `<` to the first `>`
/// after it, replaced by one space, until no such span is left.
pub open spec fn without_tags(t: Seq<char>) -> Seq<char>
    decreases t.len(),
{
    let start = index_of_char(t, '<');
    if start >= t.len() {
        t
    } else {
        let e = index_of_char(t.skip(start as int), '>');
        if start + e >= t.len() {
            t
        } else {
            proof {
                lemma_angle_gap(t, start as int);
            }
            without_tags(t.take(start as int) + seq![' '] + t.skip((start + e + 1) as int))
        }
    }
}

/// The answer without tool markers and tags.
pub open spec fn strip_markup_spec(s: Seq<char>) -> Seq<char> {
    without_tags(without_markers(s))
}

/// The line only announces that the model is about to look or call something.
pub open spec fn fake_action_spec(line: Seq<char>) -> bool {
    let l = lowercase_of(line);
    ||| has_sub(l, "xml"@)
    ||| has_sub(l, "html"@)
    ||| has_sub(l, "markdown"@)
    ||| has_sub(l, "workspace_"@)
    ||| has_sub(l, "tool_call"@)
    ||| has_sub(line, "我先查看"@)
    ||| has_sub(line, "我先读取"@)
    ||| has_sub(line, "先查看项目"@)
    ||| has_sub(line, "先读取文件"@)
    ||| has_sub(line, "调用工具"@)
    ||| has_sub(line, "我来查看"@)
    ||| has_sub(line, "我来读取"@)
    ||| has_sub(line, "我来分析"@)
    ||| has_sub(line, "我先阅读"@)
}

/// The trimmed lines that say something and announce nothing.
pub open spec fn kept_lines(list: Seq<Seq<char>>) -> Seq<Seq<char>>
    decreases list.len(),
{
    if list.len() == 0 {
        seq![]
    } else {
        let rest = kept_lines(list.drop_last());
        let t = trim(list.last());
        if t.len() > 0 && !fake_action_spec(t) {
            rest.push(t)
        } else {
            rest
        }
    }
}

/// The answer's kept lines, joined by line breaks.
pub open spec fn normalize_spec(s: Seq<char>) -> Seq<char> {
    join(kept_lines(lines_of(s)), "\n"@)
}

proof fn lemma_kept_lines_say_something(list: Seq<Seq<char>>)
    ensures
        forall|i: int| 0 <= i < kept_lines(list).len() ==> (#[trigger] kept_lines(list)[i]).len() > 0
            && !fake_action_spec(kept_lines(list)[i]),
    decreases list.len(),
{
    if list.len() > 0 {
        lemma_kept_lines_say_something(list.drop_last());
        let rest = kept_lines(list.drop_last());
        assert forall|i: int| 0 <= i < kept_lines(list).len() implies (#[trigger] kept_lines(list)[i]).len() > 0
            && !fake_action_spec(kept_lines(list)[i]) by {
            if i < rest.len() {
                assert(kept_lines(list)[i] == rest[i]);
            }
        }
    }
}

/// A sanitized answer announces no action: it is the fallback, or lines
/// joined by line breaks of which none is empty, none holds `xml`, `html`,
/// `markdown`, `workspace_` or `tool_call` in any letter case, and none
/// holds 我先查看, 我先读取, 先查看项目, 先读取文件, 调用工具, 我来查看,
/// 我来读取, 我来分析 or 我先阅读.
pub proof fn sanitized_answer_announces_nothing_law(content: Seq<char>, fallback: Seq<char>)
    ensures
        sanitize_spec(content, fallback) == fallback || exists|ls: Seq<Seq<char>>|
            #[trigger] join(ls, "\n"@) == sanitize_spec(content, fallback) && forall|i: int| 0 <= i < ls.len() ==> {
                let line = #[trigger] ls[i];
                let lower = lowercase_of(line);
                &&& line.len() > 0
                &&& !has_sub(lower, "xml"@) && !has_sub(lower, "html"@) && !has_sub(lower, "markdown"@)
                &&& !has_sub(lower, "workspace_"@) && !has_sub(lower, "tool_call"@)
                &&& !has_sub(line, "我先查看"@) && !has_sub(line, "我先读取"@) && !has_sub(line, "先查看项目"@)
                &&& !has_sub(line, "先读取文件"@) && !has_sub(line, "调用工具"@) && !has_sub(line, "我来查看"@)
                &&& !has_sub(line, "我来读取"@) && !has_sub(line, "我来分析"@) && !has_sub(line, "我先阅读"@)
            },
{
    let kept = kept_lines(lines_of(strip_markup_spec(content)));
    lemma_kept_lines_say_something(lines_of(strip_markup_spec(content)));
    if sanitize_spec(content, fallback) != fallback {
        assert(join(kept, "\n"@) == sanitize_spec(content, fallback));
    }
}

/// Lines that all say something and announce nothing are all kept, in
/// order, trimmed: normalizing drops no other line.
pub proof fn clean_lines_are_kept_law(list: Seq<Seq<char>>)
    requires
        forall|i: int| 0 <= i < list.len() ==> {
            let line = trim(#[trigger] list[i]);
            let lower = lowercase_of(line);
            &&& line.len() > 0
            &&& !has_sub(lower, "xml"@) && !has_sub(lower, "html"@) && !has_sub(lower, "markdown"@)
            &&& !has_sub(lower, "workspace_"@) && !has_sub(lower, "tool_call"@)
            &&& !has_sub(line, "我先查看"@) && !has_sub(line, "我先读取"@) && !has_sub(line, "先查看项目"@)
            &&& !has_sub(line, "先读取文件"@) && !has_sub(line, "调用工具"@) && !has_sub(line, "我来查看"@)
            &&& !has_sub(line, "我来读取"@) && !has_sub(line, "我来分析"@) && !has_sub(line, "我先阅读"@)
        },
    ensures
        kept_lines(list) == list.map_values(|l: Seq<char>| trim(l)),
    decreases list.len(),
{
    if list.len() > 0 {
        assert forall|i: int| 0 <= i < list.drop_last().len() implies {
            let line = trim(#[trigger] list.drop_last()[i]);
            let lower = lowercase_of(line);
            &&& line.len() > 0
            &&& !has_sub(lower, "xml"@) && !has_sub(lower, "html"@) && !has_sub(lower, "markdown"@)
            &&& !has_sub(lower, "workspace_"@) && !has_sub(lower, "tool_call"@)
            &&& !has_sub(line, "我先查看"@) && !has_sub(line, "我先读取"@) && !has_sub(line, "先查看项目"@)
            &&& !has_sub(line, "先读取文件"@) && !has_sub(line, "调用工具"@) && !has_sub(line, "我来查看"@)
            &&& !has_sub(line, "我来读取"@) && !has_sub(line, "我来分析"@) && !has_sub(line, "我先阅读"@)
        } by {
            assert(list.drop_last()[i] == list[i]);
        }
        clean_lines_are_kept_law(list.drop_last());
        assert(list[list.len() - 1] == list.last());
        assert(list.map_values(|l: Seq<char>| trim(l)) =~= list.drop_last().map_values(|l: Seq<char>| trim(l)).push(
            trim(list.last())));
    } else {
        assert(list.map_values(|l: Seq<char>| trim(l)) =~= Seq::<Seq<char>>::empty());
    }
}

/// The answer is not empty and holds no angle bracket.
pub open spec fn usable_spec(s: Seq<char>) -> bool {
    s.len() > 0 && !s.contains('<') && !s.contains('>')
}

/// The cleaned answer, or the fallback when nothing usable is left.
pub open spec fn sanitize_spec(content: Seq<char>, fallback: Seq<char>) -> Seq<char> {
    let n = normalize_spec(strip_markup_spec(content));
    if usable_spec(n) {
        n
    } else {
        fallback
    }
}

/// The span of the first tag: the first `<` and the first `>` after it.
pub fn angle_bracket_range(text: &[char]) -> (r: Option<(usize, usize)>)
    ensures
        ({
            let t = text@;
            let start = index_of_char(t, '<');
            let e = index_of_char(t.skip(start as int), '>');
            match r {
                Some((a, b)) => start < t.len() && start + e < t.len() && a == start && b == start + e,
                None => start >= t.len() || start + e >= t.len(),
            }
        }),
{
    let n = text.len();
    let mut a: usize = 0;
    while a < n && text[a] != '<'
        invariant
            a <= n == text@.len(),
            forall|k: int| 0 <= k < a ==> text@[k] != '<',
        decreases n - a,
    {
        a = a + 1;
    }
    proof { crate::text::lemma_index_of_char_is(text@, '<', a as int); }
    if a >= n {
        return None;
    }
    let mut b: usize = a;
    while b < n && text[b] != '>'
        invariant
            a <= b <= n == text@.len(),
            forall|k: int| a <= k < b ==> text@[k] != '>',
        decreases n - b,
    {
        b = b + 1;
    }
    proof {
        let t = text@.skip(a as int);
        assert forall|k: int| 0 <= k < b - a implies t[k] != '>' by {
            assert(t[k] == text@[a + k]);
        }
        if b < n {
            assert(t[b - a] == text@[b as int]);
        }
        crate::text::lemma_index_of_char_is(t, '>', b - a);
    }
    if b >= n {
        return None;
    }
    Some((a, b))
}

/// The text without tool markers and tags (see `strip_markup_spec`).
pub fn strip_forbidden_markup(content: &str) -> (r: String)
    ensures
        r@ == strip_markup_spec(content@),
{
    proof {
        reveal_strlit("minimax:tool_call");
        reveal_strlit("tool_call");
        reveal_strlit("workspace_read");
        reveal_strlit("workspace_write");
        reveal_strlit("workspace_list");
        reveal_strlit("");
    }
    let a = replace(content, "minimax:tool_call", "");
    let b = replace(a.as_str(), "tool_call", "");
    let c = replace(b.as_str(), "workspace_read", "");
    let d = replace(c.as_str(), "workspace_write", "");
    let e = replace(d.as_str(), "workspace_list", "");
    assert(""@ =~= Seq::<char>::empty());
    let mut text = chars_of(e.as_str());
    loop
        invariant
            without_tags(text@) == strip_markup_spec(content@),
        decreases text@.len(),
    {
        match angle_bracket_range(text.as_slice()) {
            None => {
                return string_of(text.as_slice(), 0, text.len());
            },
            Some((start, end)) => {
                let ghost t = text@;
                proof { lemma_angle_gap(t, start as int); }
                let mut next: Vec<char> = Vec::new();
                let mut i: usize = 0;
                while i < start
                    invariant
                        i <= start < text@.len(),
                        next@ == text@.take(i as int),
                    decreases start - i,
                {
                    next.push(text[i]);
                    i = i + 1;
                    assert(next@ =~= text@.take(i as int));
                }
                next.push(' ');
                let mut j: usize = end + 1;
                assert(next@ =~= t.take(start as int) + seq![' '] + t.skip(end + 1).take(0));
                while j < text.len()
                    invariant
                        end + 1 <= j <= text@.len(),
                        t == text@,
                        next@ == t.take(start as int) + seq![' '] + t.skip(end + 1).take(j - end - 1),
                    decreases text.len() - j,
                {
                    next.push(text[j]);
                    j = j + 1;
                    assert(next@ =~= t.take(start as int) + seq![' '] + t.skip(end + 1).take(j - end - 1));
                }
                assert(t.skip(end + 1).take(j - end - 1) =~= t.skip(end + 1));
                text = next;
            },
        }
    }
}

/// Whether the line only announces an action (see `fake_action_spec`).
pub fn looks_like_fake_action(line: &str) -> (r: bool)
    ensures
        r == fake_action_spec(line@),
{
    let lowered = to_lower(line);
    let l = lowered.as_str();
    contains(l, "xml") || contains(l, "html") || contains(l, "markdown") || contains(l, "workspace_")
        || contains(l, "tool_call") || contains(line, "我先查看") || contains(line, "我先读取")
        || contains(line, "先查看项目") || contains(line, "先读取文件") || contains(line, "调用工具")
        || contains(line, "我来查看") || contains(line, "我来读取") || contains(line, "我来分析")
        || contains(line, "我先阅读")
}

/// The kept lines of the answer joined by line breaks (see `normalize_spec`).
pub fn normalize_answer_text(content: &str) -> (r: String)
    ensures
        r@ == normalize_spec(content@),
{
    let all = lines(content);
    let ghost l = views(all@);
    let mut kept: Vec<String> = Vec::new();
    let mut i: usize = 0;
    while i < all.len()
        invariant
            i <= all@.len(),
            l == views(all@),
            l == lines_of(content@),
            views(kept@) == kept_lines(l.take(i as int)),
        decreases all.len() - i,
    {
        proof {
            assert(l.take(i + 1).drop_last() =~= l.take(i as int));
            assert(l.take(i + 1).last() == all@[i as int]@);
        }
        let t = trimmed(all[i].as_str());
        let ghost before = kept@;
        if !t.as_str().is_empty() && !looks_like_fake_action(t.as_str()) {
            kept.push(t);
            assert(views(kept@) =~= views(before).push(t@));
        }
        i = i + 1;
    }
    assert(l.take(all@.len() as int) =~= l);
    proof { reveal_strlit("\n"); }
    let r = join_strings(kept.as_slice(), "\n");
    assert(kept@.map_values(|s: String| s@) =~= views(kept@));
    r
}

/// Whether the answer is usable (see `usable_spec`).
pub fn is_answer_usable(content: &str) -> (r: bool)
    ensures
        r == usable_spec(content@),
{
    let v = chars_of(content);
    if v.len() == 0 {
        return false;
    }
    let mut i: usize = 0;
    while i < v.len()
        invariant
            i <= v@.len(),
            v@ == content@,
            forall|k: int| 0 <= k < i ==> v@[k] != '<' && v@[k] != '>',
        decreases v.len() - i,
    {
        if v[i] == '<' || v[i] == '>' {
            assert(content@[i as int] == v@[i as int]);
            return false;
        }
        i = i + 1;
    }
    true
}

/// The cleaned answer, or the fallback (see `sanitize_spec`).
pub fn sanitize_answer(content: &str, fallback: &str) -> (r: String)
    ensures
        r@ == sanitize_spec(content@, fallback@),
{
    let cleaned = strip_forbidden_markup(content);
    let normalized = normalize_answer_text(cleaned.as_str());
    if is_answer_usable(normalized.as_str()) {
        normalized
    } else {
        String::from_str(fallback)
    }
}

} // verus!
