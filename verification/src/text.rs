//! Text primitives over the character sequence of a string.
//!
//! Every string of the library is modelled by its view, a `Seq<char>`; the
//! spec functions here say what each operation yields in those terms.
use vstd::prelude::*;

verus! {

broadcast use vstd::string::group_string_axioms;

// ---------------------------------------------------------------------------
// Specifications
// ---------------------------------------------------------------------------

/// `p` occurs in `s` starting at position `i`.
pub open spec fn occurs_at(s: Seq<char>, p: Seq<char>, i: int) -> bool {
    0 <= i && i + p.len() <= s.len() && s.subrange(i, i + p.len()) == p
}

/// `p` occurs somewhere in `s` (the empty pattern occurs in every string).
pub open spec fn has_sub(s: Seq<char>, p: Seq<char>) -> bool {
    exists|i: int| occurs_at(s, p, i)
}

/// `s` begins with `p`.
pub open spec fn has_prefix(s: Seq<char>, p: Seq<char>) -> bool {
    p.len() <= s.len() && s.subrange(0, p.len() as int) == p
}

/// `s` ends with `p`.
pub open spec fn has_suffix(s: Seq<char>, p: Seq<char>) -> bool {
    p.len() <= s.len() && s.subrange(s.len() - p.len(), s.len() as int) == p
}

/// Some pattern of `pats` occurs in `s`.
pub open spec fn has_any(s: Seq<char>, pats: Seq<Seq<char>>) -> bool {
    exists|k: int| 0 <= k < pats.len() && has_sub(s, #[trigger] pats[k])
}

/// The Unicode `White_Space` characters, which is what `char::is_whitespace` tests.
pub open spec fn is_ws(c: char) -> bool {
    ||| ('\u{9}' <= c && c <= '\u{d}')
    ||| c == ' '
    ||| c == '\u{85}'
    ||| c == '\u{a0}'
    ||| c == '\u{1680}'
    ||| ('\u{2000}' <= c && c <= '\u{200a}')
    ||| c == '\u{2028}'
    ||| c == '\u{2029}'
    ||| c == '\u{202f}'
    ||| c == '\u{205f}'
    ||| c == '\u{3000}'
}

/// `s` without its leading white space.
pub open spec fn trim_start(s: Seq<char>) -> Seq<char>
    decreases s.len(),
{
    if s.len() > 0 && is_ws(s[0]) {
        trim_start(s.drop_first())
    } else {
        s
    }
}

/// `s` without its trailing white space.
pub open spec fn trim_end(s: Seq<char>) -> Seq<char>
    decreases s.len(),
{
    if s.len() > 0 && is_ws(s.last()) {
        trim_end(s.drop_last())
    } else {
        s
    }
}

/// `s` without leading and trailing white space, as `str::trim` gives it.
pub open spec fn trim(s: Seq<char>) -> Seq<char> {
    trim_end(trim_start(s))
}

/// `s` is empty or white space only.
pub open spec fn is_blank(s: Seq<char>) -> bool {
    trim(s).len() == 0
}

/// `s` with every character that is white space removed.
pub open spec fn strip_ws(s: Seq<char>) -> Seq<char> {
    s.filter(|c: char| !is_ws(c))
}

/// ASCII lower-casing of one character.
pub open spec fn ascii_lower_char(c: char) -> char {
    if 'A' <= c && c <= 'Z' {
        ((c as u32) + 32) as char
    } else {
        c
    }
}

/// ASCII lower-casing of a string, as `str::to_ascii_lowercase` gives it.
pub open spec fn ascii_lower(s: Seq<char>) -> Seq<char> {
    s.map_values(|c: char| ascii_lower_char(c))
}

/// The decimal digit for `d < 10`.
pub open spec fn digit_char(d: nat) -> char {
    (('0' as u32) + d) as char
}

/// The decimal notation of `n`, without leading zeros.
pub open spec fn dec(n: nat) -> Seq<char>
    decreases n,
{
    if n < 10 {
        seq![digit_char(n)]
    } else {
        dec(n / 10).push(digit_char(n % 10))
    }
}

/// The decimal notation of a signed integer.
pub open spec fn dec_int(n: int) -> Seq<char> {
    if n < 0 {
        seq!['-'] + dec((-n) as nat)
    } else {
        dec(n as nat)
    }
}

/// Every occurrence of `from` replaced by `to`, scanning left to right, as
/// `str::replace` does for a non-empty pattern.
pub open spec fn replace_all(s: Seq<char>, from: Seq<char>, to: Seq<char>) -> Seq<char>
    recommends
        from.len() > 0,
    decreases s.len(),
{
    if from.len() == 0 || s.len() < from.len() {
        s
    } else if s.subrange(0, from.len() as int) == from {
        to + replace_all(s.subrange(from.len() as int, s.len() as int), from, to)
    } else {
        seq![s[0]] + replace_all(s.drop_first(), from, to)
    }
}

/// The position of the first `c` in `s`, or the length of `s` when there is none.
pub open spec fn index_of_char(s: Seq<char>, c: char) -> nat
    decreases s.len(),
{
    if s.len() == 0 {
        0
    } else if s[0] == c {
        0
    } else {
        1 + index_of_char(s.drop_first(), c)
    }
}

/// The pieces of `s` between the separators `c`, as `str::split` with a char gives them.
pub open spec fn split_char(s: Seq<char>, c: char) -> Seq<Seq<char>>
    decreases s.len(),
{
    let e = index_of_char(s, c);
    if e >= s.len() {
        seq![s]
    } else {
        seq![s.take(e as int)] + split_char(s.skip((e + 1) as int), c)
    }
}

/// A line without the `'\r'` that a `"\r\n"` ending leaves on it.
pub open spec fn strip_cr(s: Seq<char>) -> Seq<char> {
    if s.len() > 0 && s.last() == '\r' {
        s.drop_last()
    } else {
        s
    }
}

/// The lines of `s`, as `str::lines` gives them.
pub open spec fn lines_of(s: Seq<char>) -> Seq<Seq<char>>
    decreases s.len(),
{
    if s.len() == 0 {
        seq![]
    } else {
        let e = index_of_char(s, '\n');
        if e >= s.len() {
            seq![strip_cr(s)]
        } else {
            seq![strip_cr(s.take(e as int))] + lines_of(s.skip((e + 1) as int))
        }
    }
}

/// The pieces of `list` joined with `sep` between each two.
pub open spec fn join(list: Seq<Seq<char>>, sep: Seq<char>) -> Seq<char>
    decreases list.len(),
{
    if list.len() == 0 {
        seq![]
    } else if list.len() == 1 {
        list[0]
    } else {
        join(list.drop_last(), sep) + sep + list.last()
    }
}

/// The position of the first occurrence of `p` in `s` (meaningful when `has_sub(s, p)`).
pub open spec fn first_at(s: Seq<char>, p: Seq<char>) -> int {
    choose|i: int| occurs_at(s, p, i) && forall|j: int| 0 <= j < i ==> !occurs_at(s, p, j)
}

/// The pieces of `s` between the occurrences of the non-empty separator `p`,
/// as `str::split` with a string pattern gives them.
#[verifier::opaque]
pub open spec fn split_str(s: Seq<char>, p: Seq<char>) -> Seq<Seq<char>>
    decreases s.len(),
{
    if p.len() > 0 && has_sub(s, p) {
        let i = first_at(s, p);
        if 0 <= i && i + p.len() <= s.len() {
            seq![s.take(i)] + split_str(s.skip(i + p.len()), p)
        } else {
            seq![s]
        }
    } else {
        seq![s]
    }
}

/// The piece at `k` of a list, or the empty text past its end.
pub open spec fn nth_or_empty(list: Seq<Seq<char>>, k: int) -> Seq<char> {
    if 0 <= k < list.len() {
        list[k]
    } else {
        Seq::empty()
    }
}

/// The trimmed pieces of `list` that are not empty, in order.
pub open spec fn trimmed_nonblank(list: Seq<Seq<char>>) -> Seq<Seq<char>>
    decreases list.len(),
{
    if list.len() == 0 {
        seq![]
    } else {
        let rest = trimmed_nonblank(list.drop_last());
        let t = trim(list.last());
        if t.len() > 0 {
            rest.push(t)
        } else {
            rest
        }
    }
}

/// The text with every trailing `c` removed (`str::trim_end_matches` with a char).
pub open spec fn trim_end_char(s: Seq<char>, c: char) -> Seq<char>
    decreases s.len(),
{
    if s.len() > 0 && s.last() == c {
        trim_end_char(s.drop_last(), c)
    } else {
        s
    }
}

/// The views of a sequence of strings.
pub open spec fn views(list: Seq<String>) -> Seq<Seq<char>> {
    list.map_values(|s: String| s@)
}

// ---------------------------------------------------------------------------
// Lemmas
// ---------------------------------------------------------------------------

pub proof fn lemma_index_of_char_bound(s: Seq<char>, c: char)
    ensures
        index_of_char(s, c) <= s.len(),
        index_of_char(s, c) < s.len() ==> s[index_of_char(s, c) as int] == c,
        forall|k: int| 0 <= k < index_of_char(s, c) ==> s[k] != c,
    decreases s.len(),
{
    if s.len() > 0 && s[0] != c {
        lemma_index_of_char_bound(s.drop_first(), c);
        assert forall|k: int| 0 <= k < index_of_char(s, c) implies s[k] != c by {
            if k > 0 {
                assert(s[k] == s.drop_first()[k - 1]);
            }
        }
    }
}

pub proof fn lemma_index_of_char_is(s: Seq<char>, c: char, i: int)
    requires
        0 <= i <= s.len(),
        i < s.len() ==> s[i] == c,
        forall|k: int| 0 <= k < i ==> s[k] != c,
    ensures
        index_of_char(s, c) == i,
    decreases s.len(),
{
    if s.len() > 0 && i > 0 {
        lemma_index_of_char_is(s.drop_first(), c, i - 1);
    }
}

/// A first occurrence is what `first_at` names.
pub proof fn lemma_first_at(s: Seq<char>, p: Seq<char>, i: int)
    requires
        occurs_at(s, p, i),
        forall|j: int| 0 <= j < i ==> !occurs_at(s, p, j),
    ensures
        first_at(s, p) == i,
        has_sub(s, p),
{
    let c = first_at(s, p);
    assert(occurs_at(s, p, c) && forall|j: int| 0 <= j < c ==> !occurs_at(s, p, j));
    if c < i {
        assert(!occurs_at(s, p, c));
    }
    if i < c {
        assert(!occurs_at(s, p, i));
    }
}

/// One step of `split_str` at the first occurrence `i`.
proof fn lemma_split_step(t: Seq<char>, p: Seq<char>, i: int)
    requires
        p.len() > 0,
        occurs_at(t, p, i),
        forall|j: int| 0 <= j < i ==> !occurs_at(t, p, j),
    ensures
        split_str(t, p) == seq![t.take(i)] + split_str(t.skip(i + p.len()), p),
{
    lemma_first_at(t, p, i);
    reveal_with_fuel(split_str, 1);
}

/// `split_str` of a text without the separator is the text alone.
proof fn lemma_split_none(t: Seq<char>, p: Seq<char>)
    requires
        !has_sub(t, p),
    ensures
        split_str(t, p) == seq![t],
{
    reveal_with_fuel(split_str, 1);
}

/// Occurrences in a suffix are occurrences in the whole, shifted.
proof fn lemma_occurs_skip(s: Seq<char>, p: Seq<char>, start: int, k: int)
    requires
        0 <= start <= s.len(),
        0 <= k,
    ensures
        occurs_at(s.skip(start), p, k) == occurs_at(s, p, start + k),
{
    if k + p.len() <= s.len() - start {
        assert(s.skip(start).subrange(k, k + p.len()) =~= s.subrange(start + k, start + k + p.len()));
    }
}

proof fn lemma_trim_start_skip(s: Seq<char>, i: int)
    requires
        0 <= i <= s.len(),
        forall|k: int| 0 <= k < i ==> is_ws(s[k]),
    ensures
        trim_start(s) == trim_start(s.subrange(i, s.len() as int)),
    decreases i,
{
    if i > 0 {
        assert(s.drop_first() == s.subrange(1, s.len() as int));
        lemma_trim_start_skip(s.drop_first(), i - 1);
        assert(s.drop_first().subrange(i - 1, s.drop_first().len() as int) =~= s.subrange(i, s.len() as int));
    } else {
        assert(s.subrange(0, s.len() as int) =~= s);
    }
}

proof fn lemma_trim_end_take(s: Seq<char>, j: int)
    requires
        0 <= j <= s.len(),
        forall|k: int| j <= k < s.len() ==> is_ws(s[k]),
    ensures
        trim_end(s) == trim_end(s.subrange(0, j)),
    decreases s.len() - j,
{
    if j < s.len() {
        assert(s.drop_last() =~= s.subrange(0, s.len() - 1));
        lemma_trim_end_take(s.drop_last(), j);
        assert(s.drop_last().subrange(0, j) =~= s.subrange(0, j));
    } else {
        assert(s.subrange(0, s.len() as int) =~= s);
    }
}

proof fn lemma_trim_start_shape(s: Seq<char>)
    ensures
        trim_start(s).len() == 0 || !is_ws(trim_start(s)[0]),
        trim_start(s).len() <= s.len(),
    decreases s.len(),
{
    if s.len() > 0 && is_ws(s[0]) {
        lemma_trim_start_shape(s.drop_first());
    }
}

proof fn lemma_trim_end_shape(s: Seq<char>)
    ensures
        trim_end(s).len() <= s.len(),
        trim_end(s) == s.take(trim_end(s).len() as int),
        trim_end(s).len() == 0 || !is_ws(trim_end(s).last()),
    decreases s.len(),
{
    if s.len() > 0 && is_ws(s.last()) {
        lemma_trim_end_shape(s.drop_last());
        assert(s.drop_last().take(trim_end(s).len() as int) =~= s.take(trim_end(s).len() as int));
    } else {
        assert(s.take(s.len() as int) =~= s);
    }
}

/// A text that neither starts nor ends with white space is its own trim.
pub proof fn lemma_trim_of_plain(s: Seq<char>)
    requires
        s.len() > 0,
        !is_ws(s[0]),
        !is_ws(s.last()),
    ensures
        trim(s) == s,
{
}

/// Trimming twice is trimming once.
pub proof fn lemma_trim_idempotent(s: Seq<char>)
    ensures
        trim(trim(s)) == trim(s),
{
    let a = trim_start(s);
    let b = trim_end(a);
    lemma_trim_start_shape(s);
    lemma_trim_end_shape(a);
    if b.len() > 0 {
        assert(b[0] == a[0]);
    }
    assert(trim_start(b) == b);
    assert(trim_end(b) == b);
}

// ---------------------------------------------------------------------------
// Conversions
// ---------------------------------------------------------------------------

/// The characters of `s`, in order.
pub fn chars_of(s: &str) -> (out: Vec<char>)
    ensures
        out@ == s@,
{
    let mut out: Vec<char> = Vec::new();
    for c in it: s.chars()
        invariant
            out@ == it.seq().take(it.index() as int),
            it.seq() == s@,
    {
        out.push(c);
    }
    out
}

/// Appends one character to a string (`String::push`).
#[verifier::external_body]
pub fn push_char(s: &mut String, c: char)
    ensures
        final(s)@ == old(s)@.push(c),
{
    s.push(c);
}

/// Appends the characters `chars[from..to]` to `out`.
pub fn push_chars(out: &mut String, chars: &[char], from: usize, to: usize)
    requires
        from <= to <= chars@.len(),
    ensures
        final(out)@ == old(out)@ + chars@.subrange(from as int, to as int),
{
    let mut i = from;
    while i < to
        invariant
            from <= i <= to <= chars@.len(),
            out@ == old(out)@ + chars@.subrange(from as int, i as int),
        decreases to - i,
    {
        push_char(out, chars[i]);
        i = i + 1;
        assert(out@ =~= old(out)@ + chars@.subrange(from as int, i as int));
    }
}

/// The string whose characters are `chars[from..to]`.
pub fn string_of(chars: &[char], from: usize, to: usize) -> (out: String)
    requires
        from <= to <= chars@.len(),
    ensures
        out@ == chars@.subrange(from as int, to as int),
{
    let mut out = String::new();
    push_chars(&mut out, chars, from, to);
    assert(out@ =~= chars@.subrange(from as int, to as int));
    out
}

/// An owned copy of `s`.
pub fn owned(s: &str) -> (out: String)
    ensures
        out@ == s@,
{
    s.to_owned()
}

/// `a` followed by `b`.
pub fn cat(a: &str, b: &str) -> (out: String)
    ensures
        out@ == a@ + b@,
{
    let mut out = a.to_owned();
    out.append(b);
    out
}

/// `a`, `b`, `c` one after the other.
pub fn cat3(a: &str, b: &str, c: &str) -> (out: String)
    ensures
        out@ == a@ + b@ + c@,
{
    let mut out = a.to_owned();
    out.append(b);
    out.append(c);
    out
}

/// Equality of two strings by their characters.
pub fn str_eq(a: &str, b: &str) -> (res: bool)
    ensures
        res == (a@ == b@),
{
    let x = a.to_owned();
    let y = b.to_owned();
    x == y
}

/// The number of characters of `s`.
pub fn char_count(s: &str) -> (n: usize)
    ensures
        n == s@.len(),
{
    let v = chars_of(s);
    v.len()
}

// ---------------------------------------------------------------------------
// Searching
// ---------------------------------------------------------------------------

/// Whether `p` occurs in `s` at position `i`.
pub fn matches_at(s: &[char], p: &[char], i: usize) -> (res: bool)
    ensures
        res == occurs_at(s@, p@, i as int),
{
    if i > s.len() || p.len() > s.len() - i {
        return false;
    }
    let mut k: usize = 0;
    while k < p.len()
        invariant
            i + p@.len() <= s@.len(),
            i + p.len() <= s.len(),
            k <= p@.len(),
            forall|j: int| 0 <= j < k ==> s@[i + j] == p@[j],
        decreases p.len() - k,
    {
        if s[i + k] != p[k] {
            assert(s@.subrange(i as int, i + p@.len())[k as int] != p@[k as int]);
            return false;
        }
        k = k + 1;
    }
    assert(s@.subrange(i as int, i + p@.len()) =~= p@);
    true
}

/// The first position at or after `start` where `p` occurs in `s`.
pub fn find_from(s: &[char], p: &[char], start: usize) -> (res: Option<usize>)
    ensures
        match res {
            Some(i) => start <= i && occurs_at(s@, p@, i as int) && forall|j: int|
                start <= j < i ==> !occurs_at(s@, p@, j),
            None => forall|j: int| start <= j ==> !occurs_at(s@, p@, j),
        },
{
    if start > s.len() {
        return None;
    }
    let mut i = start;
    while i < s.len()
        invariant
            start <= i <= s@.len(),
            forall|j: int| start <= j < i ==> !occurs_at(s@, p@, j),
        decreases s.len() - i,
    {
        if matches_at(s, p, i) {
            return Some(i);
        }
        i = i + 1;
    }
    if matches_at(s, p, i) {
        return Some(i);
    }
    None
}

/// Whether `p` occurs in the characters `s`.
pub fn chars_contain(s: &[char], p: &[char]) -> (res: bool)
    ensures
        res == has_sub(s@, p@),
{
    match find_from(s, p, 0) {
        Some(i) => true,
        None => false,
    }
}

/// Whether `p` occurs in `s` (`str::contains`).
pub fn contains(s: &str, p: &str) -> (res: bool)
    ensures
        res == has_sub(s@, p@),
{
    let sv = chars_of(s);
    let pv = chars_of(p);
    chars_contain(sv.as_slice(), pv.as_slice())
}

/// Whether one of `pats` occurs in `s`.
pub fn contains_any(s: &str, pats: &[&str]) -> (res: bool)
    ensures
        res == has_any(s@, pats@.map_values(|p: &str| p@)),
{
    let sv = chars_of(s);
    let ghost ps = pats@.map_values(|p: &str| p@);
    let mut k: usize = 0;
    while k < pats.len()
        invariant
            k <= pats@.len(),
            sv@ == s@,
            ps == pats@.map_values(|p: &str| p@),
            forall|j: int| 0 <= j < k ==> !has_sub(s@, #[trigger] ps[j]),
        decreases pats.len() - k,
    {
        let pv = chars_of(pats[k]);
        if chars_contain(sv.as_slice(), pv.as_slice()) {
            assert(has_sub(s@, ps[k as int]));
            return true;
        }
        k = k + 1;
    }
    false
}

/// The first position where `p` occurs in `s`, counted in characters.
pub fn find(s: &str, p: &str) -> (res: Option<usize>)
    ensures
        match res {
            Some(i) => occurs_at(s@, p@, i as int) && forall|j: int|
                0 <= j < i ==> !occurs_at(s@, p@, j),
            None => !has_sub(s@, p@),
        },
{
    let sv = chars_of(s);
    let pv = chars_of(p);
    find_from(sv.as_slice(), pv.as_slice(), 0)
}

/// Whether `s` begins with `p` (`str::starts_with`).
pub fn starts_with(s: &str, p: &str) -> (res: bool)
    ensures
        res == has_prefix(s@, p@),
{
    let sv = chars_of(s);
    let pv = chars_of(p);
    let r = matches_at(sv.as_slice(), pv.as_slice(), 0);
    proof {
        if r {
            assert(sv@.subrange(0, pv@.len() as int) == pv@);
        }
    }
    r
}

/// Whether `s` ends with `p` (`str::ends_with`).
pub fn ends_with(s: &str, p: &str) -> (res: bool)
    ensures
        res == has_suffix(s@, p@),
{
    let sv = chars_of(s);
    let pv = chars_of(p);
    if pv.len() > sv.len() {
        return false;
    }
    matches_at(sv.as_slice(), pv.as_slice(), sv.len() - pv.len())
}

/// The rest of `s` after the prefix `p`, when `s` begins with it (`str::strip_prefix`).
pub fn strip_prefix(s: &str, p: &str) -> (res: Option<String>)
    ensures
        match res {
            Some(rest) => has_prefix(s@, p@) && rest@ == s@.skip(p@.len() as int),
            None => !has_prefix(s@, p@),
        },
{
    let sv = chars_of(s);
    let pv = chars_of(p);
    if matches_at(sv.as_slice(), pv.as_slice(), 0) {
        assert(sv@.subrange(0, pv@.len() as int) == pv@);
        let rest = string_of(sv.as_slice(), pv.len(), sv.len());
        assert(rest@ =~= s@.skip(pv@.len() as int));
        Some(rest)
    } else {
        None
    }
}

/// The parts before and after the first occurrence of `sep` (`str::split_once`).
pub fn split_once(s: &str, sep: &str) -> (res: Option<(String, String)>)
    ensures
        match res {
            Some((a, b)) => has_sub(s@, sep@) && 0 <= first_at(s@, sep@) && first_at(s@, sep@) + sep@.len() <= s@.len()
                && a@ == s@.take(first_at(s@, sep@)) && b@ == s@.skip(first_at(s@, sep@) + sep@.len()),
            None => !has_sub(s@, sep@),
        },
{
    let sv = chars_of(s);
    let pv = chars_of(sep);
    match find_from(sv.as_slice(), pv.as_slice(), 0) {
        Some(i) => {
            proof { lemma_first_at(s@, sep@, i as int); }
            let n = sv.len();
            let m = pv.len();
            let a = string_of(sv.as_slice(), 0, i);
            let b = string_of(sv.as_slice(), i + m, n);
            assert(a@ =~= s@.take(i as int));
            assert(b@ =~= s@.skip(i + sep@.len()));
            Some((a, b))
        },
        None => None,
    }
}

/// The pieces of `s` between the occurrences of `sep` (`str::split`, non-empty pattern).
pub fn split_pieces(s: &str, sep: &str) -> (out: Vec<String>)
    requires
        sep@.len() > 0,
    ensures
        views(out@) == split_str(s@, sep@),
{
    let sv = chars_of(s);
    let pv = chars_of(sep);
    let mut out: Vec<String> = Vec::new();
    let mut start: usize = 0;
    assert(s@.skip(0) =~= s@);
    assert(views(out@) + split_str(s@, sep@) =~= split_str(s@, sep@));
    loop
        invariant
            start <= sv@.len(),
            sv@ == s@,
            pv@ == sep@,
            pv@.len() > 0,
            views(out@) + split_str(s@.skip(start as int), sep@) == split_str(s@, sep@),
        decreases sv.len() - start,
    {
        let ghost t = s@.skip(start as int);
        match find_from(sv.as_slice(), pv.as_slice(), start) {
            Some(j) => {
                proof {
                    assert forall|k: int| 0 <= k < j - start implies !occurs_at(t, sep@, k) by {
                        lemma_occurs_skip(s@, sep@, start as int, k);
                    }
                    lemma_occurs_skip(s@, sep@, start as int, j - start);
                    lemma_split_step(t, sep@, j - start);
                    assert(t.skip(j - start + sep@.len()) =~= s@.skip(j + sep@.len()));
                }
                let piece = string_of(sv.as_slice(), start, j);
                let ghost before = out@;
                out.push(piece);
                proof {
                    assert(piece@ =~= t.take(j - start));
                    assert(views(out@) =~= views(before).push(piece@));
                    assert(views(out@) + split_str(s@.skip(j + sep@.len()), sep@) =~= views(before) + split_str(t, sep@));
                }
                start = j + pv.len();
            },
            None => {
                proof {
                    assert forall|k: int| !occurs_at(t, sep@, k) by {
                        if k >= 0 {
                            lemma_occurs_skip(s@, sep@, start as int, k);
                        }
                    }
                    lemma_split_none(t, sep@);
                }
                let piece = string_of(sv.as_slice(), start, sv.len());
                let ghost before = out@;
                out.push(piece);
                proof {
                    assert(piece@ =~= t);
                    assert(views(out@) =~= views(before).push(piece@));
                    assert(views(out@) =~= views(before) + split_str(t, sep@));
                }
                return out;
            },
        }
    }
}

/// The lines of `s` (`str::lines`).
pub fn lines(s: &str) -> (out: Vec<String>)
    ensures
        views(out@) == lines_of(s@),
{
    let sv = chars_of(s);
    let mut out: Vec<String> = Vec::new();
    let mut start: usize = 0;
    assert(s@.skip(0) =~= s@);
    assert(views(out@) + lines_of(s@) =~= lines_of(s@));
    while start < sv.len()
        invariant
            start <= sv@.len(),
            sv@ == s@,
            views(out@) + lines_of(s@.skip(start as int)) == lines_of(s@),
        decreases sv.len() - start,
    {
        let ghost t = s@.skip(start as int);
        let mut e: usize = start;
        while e < sv.len() && sv[e] != '\n'
            invariant
                start <= e <= sv@.len(),
                sv@ == s@,
                forall|k: int| start <= k < e ==> sv@[k] != '\n',
            decreases sv.len() - e,
        {
            e = e + 1;
        }
        proof {
            assert forall|k: int| 0 <= k < e - start implies t[k] != '\n' by {
                assert(t[k] == sv@[start + k]);
            }
            lemma_index_of_char_is(t, '\n', e - start);
        }
        let end = if e > start && sv[e - 1] == '\r' { e - 1 } else { e };
        let piece = string_of(sv.as_slice(), start, end);
        let ghost before = out@;
        out.push(piece);
        proof {
            if e < sv.len() {
                assert(piece@ =~= strip_cr(t.take(e - start)));
                assert(t.skip(e - start + 1) =~= s@.skip(e + 1));
            } else {
                assert(t.take(e - start) =~= t);
                assert(piece@ =~= strip_cr(t));
            }
            assert(views(out@) =~= views(before).push(piece@));
        }
        if e < sv.len() {
            start = e + 1;
            assert(views(out@) + lines_of(s@.skip(start as int)) =~= views(before) + lines_of(t));
        } else {
            start = sv.len();
            assert(s@.skip(start as int) =~= Seq::<char>::empty());
            assert(views(out@) + lines_of(s@.skip(start as int)) =~= views(before) + lines_of(t));
        }
    }
    assert(s@.skip(start as int) =~= Seq::<char>::empty());
    assert(views(out@) + Seq::<Seq<char>>::empty() =~= views(out@));
    out
}

/// The trimmed, non-empty lines of `s`.
pub fn nonblank_lines(s: &str) -> (out: Vec<String>)
    ensures
        views(out@) == trimmed_nonblank(lines_of(s@)),
{
    let all = lines(s);
    let ghost l = views(all@);
    let mut out: Vec<String> = Vec::new();
    let mut i: usize = 0;
    while i < all.len()
        invariant
            i <= all@.len(),
            l == views(all@),
            l == lines_of(s@),
            views(out@) == trimmed_nonblank(l.take(i as int)),
        decreases all.len() - i,
    {
        proof {
            assert(l.take(i + 1).drop_last() =~= l.take(i as int));
            assert(l.take(i + 1).last() == all@[i as int]@);
        }
        let t = trimmed(all[i].as_str());
        let ghost before = out@;
        if !t.as_str().is_empty() {
            out.push(t);
            assert(views(out@) =~= views(before).push(t@));
        }
        i = i + 1;
    }
    assert(l.take(all@.len() as int) =~= l);
    out
}

// ---------------------------------------------------------------------------
// White space
// ---------------------------------------------------------------------------

/// Whether `c` is white space (`char::is_whitespace`).
pub fn is_whitespace(c: char) -> (res: bool)
    ensures
        res == is_ws(c),
{
    ('\u{9}' <= c && c <= '\u{d}') || c == ' ' || c == '\u{85}' || c == '\u{a0}' || c == '\u{1680}'
        || ('\u{2000}' <= c && c <= '\u{200a}') || c == '\u{2028}' || c == '\u{2029}' || c
        == '\u{202f}' || c == '\u{205f}' || c == '\u{3000}'
}

/// The bounds of `s` without its leading and trailing white space.
pub fn trim_bounds(s: &[char]) -> (res: (usize, usize))
    ensures
        res.0 <= res.1 <= s@.len(),
        trim(s@) == s@.subrange(res.0 as int, res.1 as int),
{
    let n = s.len();
    let mut a: usize = 0;
    while a < n && is_whitespace(s[a])
        invariant
            a <= n == s@.len(),
            forall|k: int| 0 <= k < a ==> is_ws(s@[k]),
        decreases n - a,
    {
        a = a + 1;
    }
    let ghost rest = s@.subrange(a as int, n as int);
    proof {
        lemma_trim_start_skip(s@, a as int);
        if rest.len() > 0 {
            assert(!is_ws(rest[0]));
        }
    }
    let mut b: usize = n;
    while b > a && is_whitespace(s[b - 1])
        invariant
            a <= b <= n == s@.len(),
            forall|k: int| b <= k < n ==> is_ws(s@[k]),
        decreases b - a,
    {
        b = b - 1;
    }
    proof {
        assert(trim_start(s@) == rest);
        assert forall|k: int| (b - a) <= k < rest.len() implies is_ws(rest[k]) by {
            assert(rest[k] == s@[a + k]);
        }
        lemma_trim_end_take(rest, (b - a) as int);
        let t = rest.subrange(0, (b - a) as int);
        assert(t =~= s@.subrange(a as int, b as int));
        if t.len() > 0 {
            assert(t.last() == s@[b - 1]);
            assert(!is_ws(t.last()));
        }
    }
    (a, b)
}

/// `s` without leading and trailing white space (`str::trim`).
pub fn trimmed(s: &str) -> (out: String)
    ensures
        out@ == trim(s@),
{
    let v = chars_of(s);
    let (a, b) = trim_bounds(v.as_slice());
    string_of(v.as_slice(), a, b)
}

/// Whether `s` is empty or white space only (`s.trim().is_empty()`).
pub fn blank(s: &str) -> (res: bool)
    ensures
        res == is_blank(s@),
{
    let v = chars_of(s);
    let (a, b) = trim_bounds(v.as_slice());
    a == b
}

/// `s` with all white space removed (`s.split_whitespace().collect::<String>()`).
pub fn without_ws(s: &str) -> (out: String)
    ensures
        out@ == strip_ws(s@),
{
    let v = chars_of(s);
    let mut out = String::new();
    let mut i: usize = 0;
    while i < v.len()
        invariant
            i <= v@.len(),
            v@ == s@,
            out@ == strip_ws(v@.take(i as int)),
        decreases v.len() - i,
    {
        let c = v[i];
        proof {
            assert(v@.take(i + 1).drop_last() =~= v@.take(i as int));
            reveal(Seq::filter);
        }
        if !is_whitespace(c) {
            push_char(&mut out, c);
        }
        i = i + 1;
    }
    assert(v@.take(v@.len() as int) =~= v@);
    out
}

// ---------------------------------------------------------------------------
// Case
// ---------------------------------------------------------------------------

/// ASCII lower-casing (`str::to_ascii_lowercase`).
pub fn to_ascii_lower(s: &str) -> (out: String)
    ensures
        out@ == ascii_lower(s@),
{
    let v = chars_of(s);
    let mut out = String::new();
    let mut i: usize = 0;
    while i < v.len()
        invariant
            i <= v@.len(),
            v@ == s@,
            out@ == ascii_lower(v@.take(i as int)),
        decreases v.len() - i,
    {
        let c = v[i];
        let l = if 'A' <= c && c <= 'Z' {
            ((c as u8) + 32) as char
        } else {
            c
        };
        push_char(&mut out, l);
        i = i + 1;
        assert(out@ =~= ascii_lower(v@.take(i as int)));
    }
    assert(v@.take(v@.len() as int) =~= v@);
    out
}

/// What `str::to_lowercase` gives for a string: Unicode lower-casing, which
/// depends on the characters alone.
pub uninterp spec fn lowercase_of(s: Seq<char>) -> Seq<char>;

/// Unicode lower-casing, by `str::to_lowercase` of std. Its contract names the
/// result and claims no more: the Unicode case tables are not restated here.
#[verifier::external_body]
pub fn to_lower(s: &str) -> (out: String)
    ensures
        out@ == lowercase_of(s@),
{
    s.to_lowercase()
}

// ---------------------------------------------------------------------------
// Numbers
// ---------------------------------------------------------------------------

proof fn lemma_dec_nonempty(n: nat)
    ensures
        dec(n).len() >= 1,
    decreases n,
{
    if n >= 10 {
        lemma_dec_nonempty(n / 10);
    }
}

/// The decimal notation of `n` (`u64::to_string`).
pub fn u64_text(n: u64) -> (out: String)
    ensures
        out@ == dec(n as nat),
    decreases n,
{
    if n < 10 {
        let mut out = String::new();
        let c = (48u8 + (n as u8)) as char;
        push_char(&mut out, c);
        assert(out@ =~= dec(n as nat));
        out
    } else {
        let mut out = u64_text(n / 10);
        let c = (48u8 + ((n % 10) as u8)) as char;
        push_char(&mut out, c);
        out
    }
}

/// The decimal notation of `n` (`usize::to_string`).
pub fn usize_text(n: usize) -> (out: String)
    ensures
        out@ == dec(n as nat),
{
    u64_text(n as u64)
}

/// The decimal notation of `n` (`i32::to_string`).
pub fn i32_text(n: i32) -> (out: String)
    ensures
        out@ == dec_int(n as int),
{
    if n < 0 {
        let m: u64 = (-(n as i64)) as u64;
        let digits = u64_text(m);
        let mut out = String::new();
        push_char(&mut out, '-');
        out.append(digits.as_str());
        assert(out@ =~= seq!['-'] + dec((-n) as nat));
        out
    } else {
        u64_text(n as u64)
    }
}

/// The value of a run of decimal digits.
pub open spec fn digits_value(s: Seq<char>) -> nat
    decreases s.len(),
{
    if s.len() == 0 {
        0
    } else {
        digits_value(s.drop_last()) * 10 + ((s.last() as u32) - ('0' as u32)) as nat
    }
}

/// Every character is a decimal digit.
pub open spec fn all_digits(s: Seq<char>) -> bool {
    forall|k: int| 0 <= k < s.len() ==> '0' <= #[trigger] s[k] <= '9'
}

/// What `str::parse::<usize>` gives: an optional `+` and at least one digit,
/// whose value fits in a `usize`.
pub open spec fn parse_usize_spec(s: Seq<char>) -> Option<nat> {
    let body = if s.len() > 0 && s[0] == '+' { s.drop_first() } else { s };
    if body.len() > 0 && all_digits(body) && digits_value(body) <= usize::MAX {
        Some(digits_value(body))
    } else {
        None
    }
}

proof fn lemma_digits_value_grows(s: Seq<char>, t: Seq<char>)
    requires
        all_digits(s + t),
    ensures
        digits_value(s) <= digits_value(s + t),
    decreases t.len(),
{
    if t.len() > 0 {
        assert((s + t).drop_last() =~= s + t.drop_last());
        assert forall|k: int| 0 <= k < (s + t.drop_last()).len() implies '0' <= #[trigger] (s + t.drop_last())[k] <= '9' by {
            assert((s + t.drop_last())[k] == (s + t)[k]);
        }
        lemma_digits_value_grows(s, t.drop_last());
    } else {
        assert(s + t =~= s);
    }
}

/// The value of `s` as `str::parse::<usize>` reads it (see `parse_usize_spec`).
pub fn parse_usize(s: &str) -> (res: Option<usize>)
    ensures
        match res {
            Some(n) => parse_usize_spec(s@) == Some(n as nat),
            None => parse_usize_spec(s@) is None,
        },
{
    let v = chars_of(s);
    let start: usize = if v.len() > 0 && v[0] == '+' { 1 } else { 0 };
    let ghost body = if s@.len() > 0 && s@[0] == '+' { s@.drop_first() } else { s@ };
    assert(body =~= v@.skip(start as int));
    if v.len() == start {
        return None;
    }
    let mut acc: usize = 0;
    let mut i: usize = start;
    while i < v.len()
        invariant
            start <= i <= v@.len(),
            v@ == s@,
            body == v@.skip(start as int),
            body == (if s@.len() > 0 && s@[0] == '+' { s@.drop_first() } else { s@ }),
            body.len() > 0,
            all_digits(v@.subrange(start as int, i as int)),
            acc as nat == digits_value(v@.subrange(start as int, i as int)),
        decreases v.len() - i,
    {
        let c = v[i];
        if !('0' <= c && c <= '9') {
            assert(body[i - start] == c);
            assert(!all_digits(body));
            return None;
        }
        let d = ((c as u32) - ('0' as u32)) as usize;
        assert(v@.subrange(start as int, i + 1).drop_last() =~= v@.subrange(start as int, i as int));
        assert forall|k: int| 0 <= k < v@.subrange(start as int, i + 1).len() implies '0' <= #[trigger] v@.subrange(start as int, i + 1)[k] <= '9' by {
            if k < i - start {
                assert(v@.subrange(start as int, i + 1)[k] == v@.subrange(start as int, i as int)[k]);
            }
        }
        let ghost next = v@.subrange(start as int, i + 1);
        assert(next.last() == c);
        assert(digits_value(next) == digits_value(next.drop_last()) * 10 + d);
        if acc > (usize::MAX - d) / 10 {
            proof {
                assert(v@.subrange(start as int, i + 1) + v@.skip(i + 1) =~= body);
                if all_digits(body) {
                    lemma_digits_value_grows(v@.subrange(start as int, i + 1), v@.skip(i + 1));
                }
                assert(digits_value(v@.subrange(start as int, i + 1)) == acc * 10 + d);
                assert(acc * 10 + d > usize::MAX) by (nonlinear_arith)
                    requires acc > (usize::MAX - d) / 10, d <= 9;
                if all_digits(body) {
                    assert(digits_value(body) > usize::MAX);
                }
            }
            return None;
        }
        assert(acc * 10 + d <= usize::MAX) by (nonlinear_arith)
            requires acc <= (usize::MAX - d) / 10, d <= 9;
        acc = acc * 10 + d;
        i = i + 1;
    }
    assert(v@.subrange(start as int, i as int) =~= body);
    Some(acc)
}

// ---------------------------------------------------------------------------
// Rewriting
// ---------------------------------------------------------------------------

proof fn lemma_replace_step(s: Seq<char>, from: Seq<char>, to: Seq<char>, i: int)
    requires
        from.len() > 0,
        0 <= i <= s.len(),
    ensures
        i + from.len() <= s.len() && s.subrange(i, i + from.len()) == from ==> replace_all(
            s.skip(i),
            from,
            to,
        ) == to + replace_all(s.skip(i + from.len()), from, to),
        !(i + from.len() <= s.len() && s.subrange(i, i + from.len()) == from) && i < s.len()
            ==> replace_all(s.skip(i), from, to) == seq![s[i]] + replace_all(
            s.skip(i + 1),
            from,
            to,
        ),
{
    let t = s.skip(i);
    if i + from.len() <= s.len() {
        assert(t.subrange(0, from.len() as int) =~= s.subrange(i, i + from.len()));
        assert(t.subrange(from.len() as int, t.len() as int) =~= s.skip(i + from.len()));
    }
    if i < s.len() {
        assert(t.drop_first() =~= s.skip(i + 1));
    }
}

/// Every occurrence of `from` replaced by `to` (`str::replace`, non-empty pattern).
pub fn replace(s: &str, from: &str, to: &str) -> (out: String)
    requires
        from@.len() > 0,
    ensures
        out@ == replace_all(s@, from@, to@),
{
    let sv = chars_of(s);
    let fv = chars_of(from);
    let mut out = String::new();
    let mut i: usize = 0;
    assert(sv@.skip(0) =~= sv@);
    assert(out@ + replace_all(sv@, fv@, to@) =~= replace_all(sv@, fv@, to@));
    while i < sv.len()
        invariant
            i <= sv@.len(),
            sv@ == s@,
            fv@ == from@,
            fv@.len() > 0,
            out@ + replace_all(sv@.skip(i as int), fv@, to@) == replace_all(s@, from@, to@),
        decreases sv.len() - i,
    {
        proof {
            lemma_replace_step(sv@, fv@, to@, i as int);
        }
        if matches_at(sv.as_slice(), fv.as_slice(), i) {
            let ghost before = out@;
            out.append(to);
            assert(before + (to@ + replace_all(sv@.skip(i + fv@.len()), fv@, to@)) =~= out@
                + replace_all(sv@.skip(i + fv@.len()), fv@, to@));
            i = i + fv.len();
        } else {
            let ghost before = out@;
            push_char(&mut out, sv[i]);
            assert(before + (seq![sv@[i as int]] + replace_all(sv@.skip(i + 1), fv@, to@))
                =~= out@ + replace_all(sv@.skip(i + 1), fv@, to@));
            i = i + 1;
        }
    }
    assert(sv@.skip(i as int) =~= Seq::<char>::empty());
    assert(out@ + Seq::<char>::empty() =~= out@);
    out
}


// ---------------------------------------------------------------------------
// Summaries and pieces
// ---------------------------------------------------------------------------

/// How many characters a summary keeps.
pub const SUMMARY_CHARS: usize = 120;

/// A one-glance summary of a text: the trimmed text, cut after
/// `SUMMARY_CHARS` characters with `...` marking the cut.
pub open spec fn summary_of(s: Seq<char>) -> Seq<char> {
    let t = trim(s);
    if t.len() <= SUMMARY_CHARS {
        t
    } else {
        t.take(SUMMARY_CHARS as int) + "..."@
    }
}

/// A one-glance summary of a text (see `summary_of`).
pub fn summarize_text(s: &str) -> (out: String)
    ensures
        out@ == summary_of(s@),
{
    let v = chars_of(s);
    let (a, b) = trim_bounds(v.as_slice());
    if b - a <= SUMMARY_CHARS {
        string_of(v.as_slice(), a, b)
    } else {
        let mut out = string_of(v.as_slice(), a, a + SUMMARY_CHARS);
        out.append("...");
        assert(v@.subrange(a as int, a + SUMMARY_CHARS) =~= v@.subrange(a as int, b as int).take(SUMMARY_CHARS as int));
        out
    }
}

/// The first `n` characters of `s` (`s.chars().take(n).collect()`).
pub fn take_chars(s: &str, n: usize) -> (out: String)
    ensures
        out@ == s@.take(if n <= s@.len() { n as int } else { s@.len() as int }),
{
    let v = chars_of(s);
    let m = if n <= v.len() { n } else { v.len() };
    string_of(v.as_slice(), 0, m)
}

/// Appends `b` to the string `a` in place.
pub fn push_str(a: &mut String, b: &str)
    ensures
        final(a)@ == old(a)@ + b@,
{
    a.append(b);
}

/// `list` joined with `sep` between each two (`[String]::join`).
pub fn join_strings(list: &[String], sep: &str) -> (out: String)
    ensures
        out@ == join(list@.map_values(|s: String| s@), sep@),
{
    let ghost l = list@.map_values(|s: String| s@);
    let mut out = String::new();
    let mut i: usize = 0;
    while i < list.len()
        invariant
            i <= list@.len(),
            l == list@.map_values(|s: String| s@),
            out@ == join(l.take(i as int), sep@),
        decreases list.len() - i,
    {
        proof {
            assert(l.take(i + 1).drop_last() =~= l.take(i as int));
            assert(l.take(i + 1).last() == list@[i as int]@);
        }
        if i > 0 {
            out.append(sep);
        }
        out.append(list[i].as_str());
        i = i + 1;
        proof {
            if i == 1 {
                assert(l.take(1) =~= seq![l[0]]);
            }
        }
    }
    assert(l.take(list@.len() as int) =~= l);
    out
}

/// `list` joined with `sep` between each two, for string slices.
pub fn join_strs(list: &[&str], sep: &str) -> (out: String)
    ensures
        out@ == join(list@.map_values(|s: &str| s@), sep@),
{
    let ghost l = list@.map_values(|s: &str| s@);
    let mut out = String::new();
    let mut i: usize = 0;
    while i < list.len()
        invariant
            i <= list@.len(),
            l == list@.map_values(|s: &str| s@),
            out@ == join(l.take(i as int), sep@),
        decreases list.len() - i,
    {
        proof {
            assert(l.take(i + 1).drop_last() =~= l.take(i as int));
            assert(l.take(i + 1).last() == list@[i as int]@);
        }
        if i > 0 {
            out.append(sep);
        }
        out.append(list[i]);
        i = i + 1;
        proof {
            if i == 1 {
                assert(l.take(1) =~= seq![l[0]]);
            }
        }
    }
    assert(l.take(list@.len() as int) =~= l);
    out
}

/// The text with every trailing `c` removed.
pub fn trim_end_matches_char(s: &str, c: char) -> (r: String)
    ensures
        r@ == trim_end_char(s@, c),
{
    let v = chars_of(s);
    let mut n: usize = v.len();
    assert(v@.take(n as int) =~= v@);
    while n > 0 && v[n - 1] == c
        invariant
            n <= v@.len(),
            v@ == s@,
            trim_end_char(s@, c) == trim_end_char(v@.take(n as int), c),
        decreases n,
    {
        assert(v@.take(n as int).drop_last() =~= v@.take(n - 1));
        n = n - 1;
    }
    string_of(v.as_slice(), 0, n)
}

/// The pieces of `s` between the separators `c` (`str::split` with a char).
pub fn split_on_char(s: &str, c: char) -> (out: Vec<String>)
    ensures
        views(out@) == split_char(s@, c),
{
    let sv = chars_of(s);
    let mut out: Vec<String> = Vec::new();
    let mut start: usize = 0;
    assert(s@.skip(0) =~= s@);
    assert(views(out@) + split_char(s@, c) =~= split_char(s@, c));
    loop
        invariant
            start <= sv@.len(),
            sv@ == s@,
            views(out@) + split_char(s@.skip(start as int), c) == split_char(s@, c),
        decreases sv.len() - start,
    {
        let ghost t = s@.skip(start as int);
        let mut e: usize = start;
        while e < sv.len() && sv[e] != c
            invariant
                start <= e <= sv@.len(),
                sv@ == s@,
                forall|k: int| start <= k < e ==> sv@[k] != c,
            decreases sv.len() - e,
        {
            e = e + 1;
        }
        proof {
            assert forall|k: int| 0 <= k < e - start implies t[k] != c by {
                assert(t[k] == sv@[start + k]);
            }
            lemma_index_of_char_is(t, c, e - start);
        }
        let piece = string_of(sv.as_slice(), start, e);
        let ghost before = out@;
        out.push(piece);
        assert(views(out@) =~= views(before).push(piece@));
        if e < sv.len() {
            assert(piece@ =~= t.take(e - start));
            assert(t.skip(e - start + 1) =~= s@.skip(e + 1));
            start = e + 1;
            assert(views(out@) + split_char(s@.skip(start as int), c) =~= views(before) + split_char(t, c));
        } else {
            assert(piece@ =~= t);
            assert(views(out@) =~= views(before) + split_char(t, c));
            return out;
        }
    }
}

/// The trimmed, non-empty pieces of `s` between commas.
pub fn split_csv(value: &str) -> (out: Vec<String>)
    ensures
        views(out@) == trimmed_nonblank(split_char(value@, ',')),
{
    let all = split_on_char(value, ',');
    let ghost l = views(all@);
    let mut out: Vec<String> = Vec::new();
    let mut i: usize = 0;
    while i < all.len()
        invariant
            i <= all@.len(),
            l == views(all@),
            l == split_char(value@, ','),
            views(out@) == trimmed_nonblank(l.take(i as int)),
        decreases all.len() - i,
    {
        proof {
            assert(l.take(i + 1).drop_last() =~= l.take(i as int));
            assert(l.take(i + 1).last() == all@[i as int]@);
        }
        let t = trimmed(all[i].as_str());
        let ghost before = out@;
        if !t.as_str().is_empty() {
            out.push(t);
            assert(views(out@) =~= views(before).push(t@));
        }
        i = i + 1;
    }
    assert(l.take(all@.len() as int) =~= l);
    out
}


// ---------------------------------------------------------------------------
// Trailing white space and the last occurrence of a character
// ---------------------------------------------------------------------------

/// `s` without trailing white space (`str::trim_end`).
pub fn trimmed_end(s: &str) -> (out: String)
    ensures
        out@ == trim_end(s@),
{
    let v = chars_of(s);
    let mut b: usize = v.len();
    assert(v@.take(b as int) =~= s@);
    while b > 0 && is_whitespace(v[b - 1])
        invariant
            b <= v@.len(),
            v@ == s@,
            trim_end(s@) == trim_end(v@.take(b as int)),
        decreases b,
    {
        assert(v@.take(b as int).drop_last() =~= v@.take(b - 1));
        b = b - 1;
    }
    assert(v@.take(b as int) =~= v@.subrange(0, b as int));
    string_of(v.as_slice(), 0, b)
}

/// `c` occurs in `s`.
pub open spec fn has_char(s: Seq<char>, c: char) -> bool {
    exists|k: int| 0 <= k < s.len() && s[k] == c
}

/// The position of the last `c` in `s` (meaningful when `has_char(s, c)`).
pub open spec fn last_char_at(s: Seq<char>, c: char) -> int {
    choose|i: int| 0 <= i < s.len() && s[i] == c && forall|j: int| i < j < s.len() ==> s[j] != c
}

/// The text before and after the last `c` (`str::rsplit_once` with a character).
pub fn rsplit_once_char(s: &str, c: char) -> (res: Option<(String, String)>)
    ensures
        match res {
            Some((a, b)) => has_char(s@, c) && 0 <= last_char_at(s@, c) < s@.len()
                && a@ == s@.take(last_char_at(s@, c)) && b@ == s@.skip(last_char_at(s@, c) + 1),
            None => !has_char(s@, c),
        },
{
    let v = chars_of(s);
    let mut i: usize = v.len();
    while i > 0
        invariant
            i <= v@.len(),
            v@ == s@,
            forall|j: int| i <= j < v@.len() ==> v@[j] != c,
        decreases i,
    {
        if v[i - 1] == c {
            let k = i - 1;
            proof {
                let w = last_char_at(s@, c);
                assert(0 <= k < s@.len() && s@[k as int] == c && forall|j: int| k < j < s@.len() ==> s@[j] != c);
                assert(0 <= w < s@.len() && s@[w] == c && forall|j: int| w < j < s@.len() ==> s@[j] != c);
                if w < k {
                    assert(s@[k as int] != c);
                }
                if k < w {
                    assert(s@[w] != c);
                }
                assert(w == k);
            }
            let a = string_of(v.as_slice(), 0, k);
            let b = string_of(v.as_slice(), k + 1, v.len());
            assert(a@ =~= s@.take(k as int));
            assert(b@ =~= s@.skip(k + 1));
            return Some((a, b));
        }
        i = i - 1;
    }
    None
}

} // verus!
