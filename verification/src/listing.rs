//! Listing a folder: which entries are shown, in which order (folders
//! first, then by lower-cased name), the compact listing, the lines of a
//! directory tree and the execution records. The host reads the folders
//! and formats each file's size.
use vstd::prelude::*;
use crate::execution::{ActionExecution, plain_execution};
use crate::memory::{lemma_text_lt_irrefl, lemma_text_lt_total, lemma_text_lt_trans, text_less, text_lt};
use crate::search::{glob_matches, glob_matches_spec, in_list_ignoring_case, is_skipped_dir, skip_dirs};
use crate::text::{dec, join, join_strings, lowercase_of, push_str, to_lower, usize_text, views};
use crate::workspace::CACHE_LIST_REASON;

verus! {

/// How many entries the compact listing shows.
pub const LIST_MAX_ENTRIES: usize = 60;

/// The deepest level a directory tree descends to.
pub const TREE_MAX_DEPTH: u32 = 4;

/// One entry of a folder: its name, whether it is a folder, and its size
/// as the listing shows it (empty for a folder).
#[derive(Clone, Debug)]
pub struct DirEntry {
    pub name: String,
    pub is_dir: bool,
    pub size_label: String,
}

/// `a` is listed before `b`: folders first, then by lower-cased name.
pub open spec fn entry_before(a: DirEntry, b: DirEntry) -> bool {
    (a.is_dir && !b.is_dir) || (a.is_dir == b.is_dir && text_lt(lowercase_of(a.name@), lowercase_of(b.name@)))
}

fn lists_before(a: &DirEntry, b: &DirEntry) -> (r: bool)
    ensures
        r == entry_before(*a, *b),
{
    if a.is_dir != b.is_dir {
        return a.is_dir;
    }
    let x = to_lower(a.name.as_str());
    let y = to_lower(b.name.as_str());
    text_less(x.as_str(), y.as_str())
}

/// No entry is listed before an earlier one.
pub open spec fn listed_in_order(s: Seq<DirEntry>) -> bool {
    forall|i: int, j: int| 0 <= i < j < s.len() ==> !entry_before(#[trigger] s[j], #[trigger] s[i])
}

proof fn lemma_entry_before_asym(a: DirEntry, b: DirEntry)
    requires
        entry_before(a, b),
    ensures
        !entry_before(b, a),
{
    if a.is_dir == b.is_dir && text_lt(lowercase_of(b.name@), lowercase_of(a.name@)) {
        lemma_text_lt_trans(lowercase_of(a.name@), lowercase_of(b.name@), lowercase_of(a.name@));
        lemma_text_lt_irrefl(lowercase_of(a.name@));
    }
}

proof fn lemma_entry_order_trans(a: DirEntry, b: DirEntry, c: DirEntry)
    requires
        !entry_before(b, a),
        !entry_before(c, b),
    ensures
        !entry_before(c, a),
{
    let la = lowercase_of(a.name@);
    let lb = lowercase_of(b.name@);
    let lc = lowercase_of(c.name@);
    if a.is_dir == b.is_dir && b.is_dir == c.is_dir {
        lemma_text_lt_total(la, lb);
        lemma_text_lt_total(lb, lc);
        if text_lt(lc, la) {
            if text_lt(la, lb) {
                lemma_text_lt_trans(lc, la, lb);
            }
            if text_lt(lb, lc) {
                lemma_text_lt_trans(lb, lc, la);
            }
        }
    }
}

/// `s` holds the entries of `orig`, each once: `idx[i]` is where `s[i]` stood in `orig`.
pub open spec fn is_arrangement(s: Seq<DirEntry>, orig: Seq<DirEntry>, idx: Seq<int>) -> bool {
    &&& idx.len() == s.len()
    &&& forall|i: int| 0 <= i < s.len() ==> 0 <= #[trigger] idx[i] < orig.len() && s[i] == orig[idx[i]]
    &&& forall|i: int, j: int| 0 <= i < j < s.len() ==> #[trigger] idx[i] != #[trigger] idx[j]
}

/// Entries that list at the same rank keep the order they had.
pub open spec fn ties_in_order(s: Seq<DirEntry>, idx: Seq<int>) -> bool {
    forall|i: int, j: int| 0 <= i < j < s.len() && !entry_before(#[trigger] s[i], #[trigger] s[j]) && !entry_before(s[j], s[i])
        ==> idx[i] < idx[j]
}

/// The entries in listing order: a stable insertion sort by `entry_before`.
pub fn sort_dir_entries(entries: Vec<DirEntry>) -> (r: Vec<DirEntry>)
    ensures
        listed_in_order(r@),
        r@.to_multiset() == entries@.to_multiset(),
        r@.len() == entries@.len(),
        exists|idx: Seq<int>| is_arrangement(r@, entries@, idx) && ties_in_order(r@, idx),
{
    let mut out: Vec<DirEntry> = Vec::new();
    let mut rest = entries;
    let ghost all = rest@;
    let ghost n = all.len();
    let mut reversed: Vec<DirEntry> = Vec::new();
    while rest.len() > 0
        invariant
            reversed@ + rest@.reverse() == all.reverse(),
        decreases rest.len(),
    {
        let ghost before = rest@;
        let x = rest.pop().unwrap();
        assert(before.reverse() =~= seq![x] + rest@.reverse());
        reversed.push(x);
        assert(reversed@ + rest@.reverse() =~= all.reverse());
    }
    assert(reversed@ =~= all.reverse());
    assert(all.skip(0) =~= all);
    let ghost mut idx: Seq<int> = Seq::empty();
    proof {
        broadcast use vstd::seq_lib::group_to_multiset_ensures, vstd::multiset::group_multiset_axioms;
        all.lemma_reverse_to_multiset();
        assert(out@.to_multiset() =~= vstd::multiset::Multiset::empty());
        assert(out@.to_multiset().add(reversed@.to_multiset()) =~= all.to_multiset());
    }
    while reversed.len() > 0
        invariant
            n == all.len(),
            reversed@.len() <= n,
            reversed@ == all.skip(n - reversed@.len()).reverse(),
            listed_in_order(out@),
            out@.to_multiset().add(reversed@.to_multiset()) == all.to_multiset(),
            out@.len() + reversed@.len() == n,
            idx.len() == out@.len(),
            forall|i: int| 0 <= i < out@.len() ==> 0 <= #[trigger] idx[i] < out@.len() && out@[i] == all[idx[i]],
            forall|i: int, j: int| 0 <= i < j < out@.len() ==> #[trigger] idx[i] != #[trigger] idx[j],
            ties_in_order(out@, idx),
        decreases reversed.len(),
    {
        let ghost before = reversed@;
        let ghost k: int = n - before.len();
        let x = reversed.pop().unwrap();
        assert(before =~= reversed@.push(x));
        proof {
            let tail = all.skip(k);
            assert(x == before.last());
            assert(before.last() == tail[0]);
            assert(x == all[k]);
            assert(reversed@ =~= all.skip(k + 1).reverse());
            broadcast use vstd::seq_lib::group_to_multiset_ensures;
            assert(before.to_multiset() =~= reversed@.to_multiset().insert(x));
        }
        let mut p: usize = out.len();
        while p > 0 && lists_before(&x, &out[p - 1])
            invariant
                p <= out@.len(),
                forall|q: int| p <= q < out@.len() ==> entry_before(x, #[trigger] out@[q]),
            decreases p,
        {
            p = p - 1;
        }
        let ghost old_out = out@;
        let ghost old_idx = idx;
        out.insert(p, x);
        proof {
            idx = old_idx.take(p as int).push(k) + old_idx.skip(p as int);
            assert(out@ =~= old_out.take(p as int).push(x) + old_out.skip(p as int));
            assert forall|i: int, j: int| 0 <= i < j < out@.len() implies !entry_before(#[trigger] out@[j], #[trigger] out@[i]) by {
                if j < p {
                    assert(out@[i] == old_out[i] && out@[j] == old_out[j]);
                } else if j == p {
                    assert(out@[i] == old_out[i]);
                    if p > 0 {
                        assert(!entry_before(x, old_out[p - 1]));
                        if i < p - 1 {
                            assert(!entry_before(old_out[p - 1], old_out[i]));
                            lemma_entry_order_trans(old_out[i], old_out[p - 1], x);
                        }
                    }
                } else if i > p {
                    assert(out@[i] == old_out[i - 1] && out@[j] == old_out[j - 1]);
                } else if i == p {
                    assert(out@[j] == old_out[j - 1]);
                    assert(entry_before(x, old_out[j - 1]));
                    lemma_entry_before_asym(x, old_out[j - 1]);
                } else {
                    assert(out@[i] == old_out[i] && out@[j] == old_out[j - 1]);
                }
            }
            assert forall|i: int| 0 <= i < out@.len() implies 0 <= #[trigger] idx[i] < out@.len() && out@[i] == all[idx[i]] by {
                if i < p {
                    assert(idx[i] == old_idx[i] && out@[i] == old_out[i]);
                } else if i == p {
                    assert(idx[i] == k && out@[i] == x);
                } else {
                    assert(idx[i] == old_idx[i - 1] && out@[i] == old_out[i - 1]);
                }
            }
            assert forall|i: int, j: int| 0 <= i < j < out@.len() implies #[trigger] idx[i] != #[trigger] idx[j] by {
                if j < p {
                    assert(idx[i] == old_idx[i] && idx[j] == old_idx[j]);
                } else if j == p {
                    assert(idx[i] == old_idx[i] && old_idx[i] < k);
                } else if i > p {
                    assert(idx[i] == old_idx[i - 1] && idx[j] == old_idx[j - 1]);
                } else if i == p {
                    assert(idx[j] == old_idx[j - 1] && old_idx[j - 1] < k);
                } else {
                    assert(idx[i] == old_idx[i] && idx[j] == old_idx[j - 1]);
                }
            }
            assert forall|i: int, j: int| 0 <= i < j < out@.len() && !entry_before(#[trigger] out@[i], #[trigger] out@[j])
                && !entry_before(out@[j], out@[i]) implies idx[i] < idx[j] by {
                if j < p {
                    assert(idx[i] == old_idx[i] && idx[j] == old_idx[j]);
                    assert(out@[i] == old_out[i] && out@[j] == old_out[j]);
                } else if j == p {
                    assert(idx[i] == old_idx[i] && old_idx[i] < k && idx[j] == k);
                } else if i > p {
                    assert(idx[i] == old_idx[i - 1] && idx[j] == old_idx[j - 1]);
                    assert(out@[i] == old_out[i - 1] && out@[j] == old_out[j - 1]);
                } else if i == p {
                    assert(out@[j] == old_out[j - 1] && entry_before(x, old_out[j - 1]));
                } else {
                    assert(idx[i] == old_idx[i] && idx[j] == old_idx[j - 1]);
                    assert(out@[i] == old_out[i] && out@[j] == old_out[j - 1]);
                }
            }
            broadcast use vstd::seq_lib::group_to_multiset_ensures, vstd::multiset::group_multiset_axioms;
            vstd::seq_lib::lemma_multiset_commutative(old_out.take(p as int).push(x), old_out.skip(p as int));
            vstd::seq_lib::lemma_multiset_commutative(old_out.take(p as int), old_out.skip(p as int));
            assert(old_out.take(p as int) + old_out.skip(p as int) =~= old_out);
            assert(out@.to_multiset() =~= old_out.to_multiset().insert(x));
            assert(out@.to_multiset().add(reversed@.to_multiset()) =~= all.to_multiset());
        }
    }
    proof {
        broadcast use vstd::multiset::group_multiset_axioms;
        assert(out@.to_multiset().add(reversed@.to_multiset()) =~= out@.to_multiset());
    }
    assert(is_arrangement(out@, all, idx) && ties_in_order(out@, idx));
    out
}

/// An entry passes the listing's glob: folders always, files when no glob
/// is given or the name matches it.
pub open spec fn passes_glob(e: DirEntry, glob: Option<Seq<char>>) -> bool {
    e.is_dir || match glob {
        Some(g) => glob_matches_spec(g, e.name@),
        None => true,
    }
}

/// The view of an optional text.
pub open spec fn opt_str(o: Option<&str>) -> Option<Seq<char>> {
    match o {
        Some(s) => Some(s@),
        None => None,
    }
}

/// The entries that pass the glob, in their order.
pub fn keep_listed(entries: Vec<DirEntry>, glob: Option<&str>) -> (r: Vec<DirEntry>)
    ensures
        r@ == entries@.filter(|e: DirEntry| passes_glob(e, opt_str(glob))),
{
    let ghost f = |e: DirEntry| passes_glob(e, opt_str(glob));
    let mut out: Vec<DirEntry> = Vec::new();
    let mut i: usize = 0;
    let n = entries.len();
    let mut rest = entries;
    let ghost all = rest@;
    let mut front: Vec<DirEntry> = Vec::new();
    while rest.len() > 0
        invariant
            front@ + rest@.reverse() == all.reverse(),
        decreases rest.len(),
    {
        let ghost before = rest@;
        let x = rest.pop().unwrap();
        assert(before.reverse() =~= seq![x] + rest@.reverse());
        front.push(x);
        assert(front@ + rest@.reverse() =~= all.reverse());
    }
    assert(front@ =~= all.reverse());
    while front.len() > 0
        invariant
            i <= n,
            front@.len() + i == all.len(),
            front@ == all.skip(i as int).reverse(),
            out@ == all.take(i as int).filter(f),
            f == (|e: DirEntry| passes_glob(e, opt_str(glob))),
            n == all.len(),
        decreases front.len(),
    {
        let x = front.pop().unwrap();
        proof {
            assert(all.skip(i as int).reverse() =~= all.skip(i + 1).reverse().push(all[i as int]));
            assert(all.take(i + 1) =~= all.take(i as int).push(all[i as int]));
            all.take(i as int).lemma_filter_push(all[i as int], f);
        }
        let keep = x.is_dir || match glob {
            Some(g) => glob_matches(g, x.name.as_str()),
            None => true,
        };
        if keep {
            out.push(x);
        }
        i = i + 1;
    }
    assert(all.take(n as int) =~= all);
    out
}

/// One entry of the compact listing: a folder with a slash, a file with its size.
pub open spec fn compact_line(e: DirEntry) -> Seq<char> {
    if e.is_dir {
        e.name@ + "/"@
    } else {
        e.name@ + " ("@ + e.size_label@ + ")"@
    }
}

/// The compact listing: the first sixty entries, a note of the rest, or a
/// note that the folder is empty.
pub open spec fn compact_listing(items: Seq<DirEntry>) -> Seq<char> {
    let shown = items.take(if items.len() <= LIST_MAX_ENTRIES { items.len() as int } else { LIST_MAX_ENTRIES as int });
    let parts = shown.map_values(|e: DirEntry| compact_line(e));
    let all = if items.len() > LIST_MAX_ENTRIES {
        parts.push("... 及其他 "@ + dec((items.len() - LIST_MAX_ENTRIES) as nat) + " 个条目"@)
    } else {
        parts
    };
    if all.len() == 0 {
        "目录为空。"@
    } else {
        join(all, "\n"@)
    }
}

/// The compact listing (see `compact_listing`).
pub fn format_entries_compact(items: &[DirEntry]) -> (r: String)
    ensures
        r@ == compact_listing(items@),
{
    let limit: usize = if items.len() <= LIST_MAX_ENTRIES { items.len() } else { LIST_MAX_ENTRIES };
    let ghost shown = items@.take(limit as int);
    let mut parts: Vec<String> = Vec::new();
    let mut i: usize = 0;
    while i < limit
        invariant
            i <= limit <= items@.len(),
            shown == items@.take(limit as int),
            views(parts@) == shown.take(i as int).map_values(|e: DirEntry| compact_line(e)),
        decreases limit - i,
    {
        let e = &items[i];
        let mut line = e.name.clone();
        if e.is_dir {
            push_str(&mut line, "/");
        } else {
            push_str(&mut line, " (");
            push_str(&mut line, e.size_label.as_str());
            push_str(&mut line, ")");
        }
        let ghost before = parts@;
        parts.push(line);
        assert(views(parts@) =~= views(before).push(compact_line(shown[i as int])));
        assert(views(parts@) =~= shown.take(i + 1).map_values(|e: DirEntry| compact_line(e)));
        i = i + 1;
    }
    assert(shown.take(limit as int) =~= shown);
    if items.len() > LIST_MAX_ENTRIES {
        let mut more = String::from_str("... 及其他 ");
        let n = usize_text(items.len() - LIST_MAX_ENTRIES);
        push_str(&mut more, n.as_str());
        push_str(&mut more, " 个条目");
        let ghost before = parts@;
        parts.push(more);
        assert(views(parts@) =~= views(before).push(more@));
    }
    if parts.len() == 0 {
        return String::from_str("目录为空。");
    }
    let r = join_strings(parts.as_slice(), "\n");
    assert(parts@.map_values(|s: String| s@) =~= views(parts@));
    r
}

/// The execution of a flat listing of a folder's entries (already filtered
/// and ordered).
pub fn ok_list_flat(resolved: &str, items: &[DirEntry]) -> (e: ActionExecution)
    ensures
        plain_execution(e, "列出目录："@ + resolved@, "目录列举成功，共 "@ + dec(items@.len()) + " 个条目。"@, "目录内容："@
            + resolved@ + "\n"@ + compact_listing(items@), true, None, "读取目标目录条目，按类型分组、大小标注。"@, "bypass"@,
            CACHE_LIST_REASON@),
{
    let output = format_entries_compact(items);
    let mut action = String::from_str("列出目录：");
    push_str(&mut action, resolved);
    let n = usize_text(items.len());
    let mut summary = String::from_str("目录列举成功，共 ");
    push_str(&mut summary, n.as_str());
    push_str(&mut summary, " 个条目。");
    let mut answer = String::from_str("目录内容：");
    push_str(&mut answer, resolved);
    push_str(&mut answer, "\n");
    push_str(&mut answer, output.as_str());
    crate::workspace::ok_op(action, summary, answer, "读取目标目录条目，按类型分组、大小标注。", CACHE_LIST_REASON)
}

/// The execution of a directory tree of `count` entries.
pub fn ok_list_tree(resolved: &str, output: &str, count: usize) -> (e: ActionExecution)
    ensures
        plain_execution(e, "递归列出目录："@ + resolved@, "目录树列举成功，共 "@ + dec(count as nat) + " 个条目。"@, "目录树："@
            + resolved@ + "\n"@ + output@, true, None, "递归遍历目录树，显示层级结构与文件大小。"@, "bypass"@,
            CACHE_LIST_REASON@),
{
    let mut action = String::from_str("递归列出目录：");
    push_str(&mut action, resolved);
    let n = usize_text(count);
    let mut summary = String::from_str("目录树列举成功，共 ");
    push_str(&mut summary, n.as_str());
    push_str(&mut summary, " 个条目。");
    let mut answer = String::from_str("目录树：");
    push_str(&mut answer, resolved);
    push_str(&mut answer, "\n");
    push_str(&mut answer, output);
    crate::workspace::ok_op(action, summary, answer, "递归遍历目录树，显示层级结构与文件大小。", CACHE_LIST_REASON)
}

/// A tree shows an entry: not a skipped folder, and a file only when it
/// passes the glob.
pub open spec fn tree_shows_spec(e: DirEntry, glob: Option<Seq<char>>) -> bool {
    if e.is_dir {
        !in_list_ignoring_case(e.name@, skip_dirs())
    } else {
        match glob {
            Some(g) => glob_matches_spec(g, e.name@),
            None => true,
        }
    }
}

/// Whether a tree shows an entry (see `tree_shows_spec`).
pub fn tree_shows(e: &DirEntry, glob: Option<&str>) -> (r: bool)
    ensures
        r == tree_shows_spec(*e, opt_str(glob)),
{
    if e.is_dir {
        return !is_skipped_dir(e.name.as_str());
    }
    match glob {
        Some(g) => glob_matches(g, e.name.as_str()),
        None => true,
    }
}

/// The line of an entry in a tree: the prefix, the branch, the name, a
/// slash for a folder or the size for a file.
pub open spec fn tree_line_spec(prefix: Seq<char>, is_last: bool, e: DirEntry) -> Seq<char> {
    prefix + (if is_last { "└── "@ } else { "├── "@ }) + e.name@ + (if e.is_dir { "/"@ } else { Seq::empty() }) + (if e.is_dir {
        Seq::empty()
    } else {
        " ("@ + e.size_label@ + ")"@
    }) + "\n"@
}

/// The line of an entry in a tree (see `tree_line_spec`).
pub fn tree_line(prefix: &str, is_last: bool, e: &DirEntry) -> (r: String)
    ensures
        r@ == tree_line_spec(prefix@, is_last, *e),
{
    let mut out = String::from_str(prefix);
    push_str(&mut out, if is_last { "└── " } else { "├── " });
    push_str(&mut out, e.name.as_str());
    if e.is_dir {
        push_str(&mut out, "/");
    } else {
        push_str(&mut out, " (");
        push_str(&mut out, e.size_label.as_str());
        push_str(&mut out, ")");
    }
    push_str(&mut out, "\n");
    out
}

/// The prefix of the lines below an entry of a tree.
pub fn tree_child_prefix(prefix: &str, is_last: bool) -> (r: String)
    ensures
        r@ == prefix@ + if is_last { "    "@ } else { "│   "@ },
{
    let mut out = String::from_str(prefix);
    push_str(&mut out, if is_last { "    " } else { "│   " });
    out
}

} // verus!
