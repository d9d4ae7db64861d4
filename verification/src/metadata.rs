//! A string-keyed map of string values, the shape of every metadata and hint
//! table of the runtime. Keys are unique and kept in increasing order; the view is a `Map` of character
//! sequences.
use vstd::prelude::*;
use crate::text::{chars_of, owned, str_eq};

verus! {

/// The value stored under `k` in a list of entries, searching from the front.
pub open spec fn lookup(e: Seq<(String, String)>, k: Seq<char>) -> Option<Seq<char>>
    decreases e.len(),
{
    if e.len() == 0 {
        None
    } else if e[0].0@ == k {
        Some(e[0].1@)
    } else {
        lookup(e.drop_first(), k)
    }
}

/// `a` comes before `b` in the order of `String`: lexicographic by
/// character code point, a proper prefix first.
pub open spec fn key_lt(a: Seq<char>, b: Seq<char>) -> bool
    decreases a.len(),
{
    if a.len() == 0 {
        b.len() > 0
    } else if b.len() == 0 {
        false
    } else if a[0] != b[0] {
        (a[0] as int) < (b[0] as int)
    } else {
        key_lt(a.drop_first(), b.drop_first())
    }
}

/// No key comes before itself.
pub proof fn lemma_key_lt_irreflexive(a: Seq<char>)
    ensures
        !key_lt(a, a),
    decreases a.len(),
{
    if a.len() > 0 {
        lemma_key_lt_irreflexive(a.drop_first());
    }
}

/// Of two different keys, one comes before the other, and not both ways.
pub proof fn lemma_key_lt_total(a: Seq<char>, b: Seq<char>)
    ensures
        a != b ==> (key_lt(a, b) || key_lt(b, a)),
        !(key_lt(a, b) && key_lt(b, a)),
    decreases a.len(),
{
    if a.len() > 0 && b.len() > 0 {
        if a[0] == b[0] {
            lemma_key_lt_total(a.drop_first(), b.drop_first());
            if a.drop_first() == b.drop_first() {
                assert(a =~= seq![a[0]] + a.drop_first());
                assert(b =~= seq![b[0]] + b.drop_first());
            }
        } else {
        }
    } else if a.len() == 0 && b.len() == 0 {
        assert(a =~= b);
    }
}

/// The order of keys is transitive.
pub proof fn lemma_key_lt_transitive(a: Seq<char>, b: Seq<char>, c: Seq<char>)
    requires
        key_lt(a, b),
        key_lt(b, c),
    ensures
        key_lt(a, c),
    decreases a.len(),
{
    if a.len() > 0 && b.len() > 0 && c.len() > 0 && a[0] == b[0] && b[0] == c[0] {
        lemma_key_lt_transitive(a.drop_first(), b.drop_first(), c.drop_first());
    }
}

/// The entries are in increasing key order.
pub open spec fn sorted_keys(e: Seq<(String, String)>) -> bool {
    forall|i: int, j: int| 0 <= i < j < e.len() ==> key_lt(#[trigger] e[i].0@, #[trigger] e[j].0@)
}

/// Whether `a` comes before `b` in the order of keys (`String`'s `<`).
pub fn key_less(a: &str, b: &str) -> (r: bool)
    ensures
        r == key_lt(a@, b@),
{
    let x = chars_of(a);
    let y = chars_of(b);
    let mut i: usize = 0;
    assert(x@.skip(0) =~= x@);
    assert(y@.skip(0) =~= y@);
    while i < x.len() && i < y.len()
        invariant
            i <= x@.len(),
            i <= y@.len(),
            x@ == a@,
            y@ == b@,
            key_lt(a@, b@) == key_lt(x@.skip(i as int), y@.skip(i as int)),
        decreases x.len() - i,
    {
        let c = x[i];
        let d = y[i];
        if c != d {
            return c < d;
        }
        assert(x@.skip(i as int).drop_first() =~= x@.skip(i + 1));
        assert(y@.skip(i as int).drop_first() =~= y@.skip(i + 1));
        i = i + 1;
    }
    i == x.len() && i < y.len()
}

/// No key occurs twice in the entries.
pub open spec fn unique_keys(e: Seq<(String, String)>) -> bool {
    forall|i: int, j: int| 0 <= i < j < e.len() ==> #[trigger] e[i].0@ != #[trigger] e[j].0@
}

/// A map from strings to strings.
#[derive(Debug)]
pub struct Metadata {
    entries: Vec<(String, String)>,
}

proof fn lemma_lookup_none(e: Seq<(String, String)>, k: Seq<char>)
    requires
        forall|i: int| 0 <= i < e.len() ==> #[trigger] e[i].0@ != k,
    ensures
        lookup(e, k) is None,
    decreases e.len(),
{
    if e.len() > 0 {
        assert forall|i: int| 0 <= i < e.drop_first().len() implies #[trigger] e.drop_first()[i].0@ != k by {
            assert(e.drop_first()[i] == e[i + 1]);
        }
        lemma_lookup_none(e.drop_first(), k);
    }
}

proof fn lemma_lookup_at(e: Seq<(String, String)>, k: Seq<char>, i: int)
    requires
        0 <= i < e.len(),
        e[i].0@ == k,
        forall|j: int| 0 <= j < i ==> #[trigger] e[j].0@ != k,
    ensures
        lookup(e, k) == Some(e[i].1@),
    decreases i,
{
    if i > 0 {
        assert forall|j: int| 0 <= j < i - 1 implies #[trigger] e.drop_first()[j].0@ != k by {
            assert(e.drop_first()[j] == e[j + 1]);
        }
        lemma_lookup_at(e.drop_first(), k, i - 1);
    }
}

proof fn lemma_lookup_some(e: Seq<(String, String)>, k: Seq<char>)
    requires
        lookup(e, k) is Some,
    ensures
        exists|i: int| 0 <= i < e.len() && #[trigger] e[i].0@ == k && lookup(e, k) == Some(e[i].1@),
    decreases e.len(),
{
    if e[0].0@ != k {
        lemma_lookup_some(e.drop_first(), k);
        let i = choose|i: int| 0 <= i < e.drop_first().len() && #[trigger] e.drop_first()[i].0@ == k
            && lookup(e.drop_first(), k) == Some(e.drop_first()[i].1@);
        assert(e[i + 1] == e.drop_first()[i]);
    }
}

/// With unique keys, the value under `k` is the one of the entry whose key is `k`.
proof fn lemma_lookup_unique(e: Seq<(String, String)>, k: Seq<char>, i: int)
    requires
        unique_keys(e),
        0 <= i < e.len(),
        e[i].0@ == k,
    ensures
        lookup(e, k) == Some(e[i].1@),
{
    assert forall|j: int| 0 <= j < i implies #[trigger] e[j].0@ != k by {
        assert(e[j].0@ != e[i].0@);
    }
    lemma_lookup_at(e, k, i);
}

impl View for Metadata {
    type V = Map<Seq<char>, Seq<char>>;

    closed spec fn view(&self) -> Map<Seq<char>, Seq<char>> {
        Map::new(|k: Seq<char>| lookup(self.entries@, k) is Some, |k: Seq<char>| lookup(self.entries@, k)->0)
    }
}

impl Metadata {
    /// The entries, in increasing key order.
    pub closed spec fn entry_seq(self) -> Seq<(String, String)> {
        self.entries@
    }

    #[verifier::type_invariant]
    spec fn inv(self) -> bool {
        unique_keys(self.entries@) && sorted_keys(self.entries@)
    }

    /// The value under `k`, if any.
    pub open spec fn value(self, k: Seq<char>) -> Option<Seq<char>> {
        if self@.contains_key(k) {
            Some(self@[k])
        } else {
            None
        }
    }

    /// The value under `k`, or the empty string (`get(k).cloned().unwrap_or_default()`).
    pub open spec fn text(self, k: Seq<char>) -> Seq<char> {
        if self@.contains_key(k) {
            self@[k]
        } else {
            Seq::empty()
        }
    }

    /// The value under `k` is the text `"true"`.
    pub open spec fn flag(self, k: Seq<char>) -> bool {
        self@.contains_key(k) && self@[k] == "true"@
    }

    /// An empty map.
    pub fn new() -> (m: Self)
        ensures
            m@ == Map::<Seq<char>, Seq<char>>::empty(),
    {
        let m = Metadata { entries: Vec::new() };
        assert(m@ =~= Map::<Seq<char>, Seq<char>>::empty());
        m
    }

    /// The position of the entry with key `key`, if any.
    fn position(&self, key: &str) -> (res: Option<usize>)
        ensures
            match res {
                Some(i) => i < self.entries@.len() && self.entries@[i as int].0@ == key@,
                None => forall|i: int| 0 <= i < self.entries@.len() ==> #[trigger] self.entries@[i].0@ != key@,
            },
    {
        let mut i: usize = 0;
        while i < self.entries.len()
            invariant
                i <= self.entries@.len(),
                forall|j: int| 0 <= j < i ==> #[trigger] self.entries@[j].0@ != key@,
            decreases self.entries.len() - i,
        {
            if str_eq(self.entries[i].0.as_str(), key) {
                return Some(i);
            }
            i = i + 1;
        }
        None
    }

    /// The value under `key`, cloned (`BTreeMap::get(..).cloned()`).
    pub fn get(&self, key: &str) -> (res: Option<String>)
        ensures
            match res {
                Some(v) => self@.contains_key(key@) && v@ == self@[key@],
                None => !self@.contains_key(key@),
            },
    {
        proof { use_type_invariant(self); }
        match self.position(key) {
            Some(i) => {
                proof { lemma_lookup_unique(self.entries@, key@, i as int); }
                Some(self.entries[i].1.clone())
            },
            None => {
                proof { lemma_lookup_none(self.entries@, key@); }
                None
            },
        }
    }

    /// Whether some value is stored under `key`.
    pub fn contains_key(&self, key: &str) -> (res: bool)
        ensures
            res == self@.contains_key(key@),
    {
        self.get(key).is_some()
    }

    /// The value under `key`, or the empty string.
    pub fn text_of(&self, key: &str) -> (res: String)
        ensures
            res@ == self.text(key@),
    {
        match self.get(key) {
            Some(v) => v,
            None => String::new(),
        }
    }

    /// Whether the value under `key` is `"true"`.
    pub fn flag_of(&self, key: &str) -> (res: bool)
        ensures
            res == self.flag(key@),
    {
        match self.get(key) {
            Some(v) => str_eq(v.as_str(), "true"),
            None => false,
        }
    }

    /// The first position whose key does not come before `key`: every
    /// earlier key comes before it.
    fn lower_bound(&self, key: &str) -> (p: usize)
        ensures
            p <= self.entries@.len(),
            forall|j: int| 0 <= j < p ==> key_lt(#[trigger] self.entries@[j].0@, key@),
            p < self.entries@.len() ==> !key_lt(self.entries@[p as int].0@, key@),
    {
        let mut p: usize = 0;
        while p < self.entries.len()
            invariant
                p <= self.entries@.len(),
                forall|j: int| 0 <= j < p ==> key_lt(#[trigger] self.entries@[j].0@, key@),
            decreases self.entries.len() - p,
        {
            if !key_less(self.entries[p].0.as_str(), key) {
                return p;
            }
            p = p + 1;
        }
        p
    }

    /// Stores `value` under `key`, replacing what was there (`BTreeMap::insert`);
    /// the entries stay in key order.
    pub fn insert(&mut self, key: String, value: String)
        ensures
            final(self)@ == old(self)@.insert(key@, value@),
    {
        proof { use_type_invariant(&*self); }
        let ghost old_e = self.entries@;
        let ghost k = key@;
        let ghost v = value@;
        let p = self.lower_bound(key.as_str());
        let found = p < self.entries.len() && str_eq(self.entries[p].0.as_str(), key.as_str());
        if found {
            let mut entries: Vec<(String, String)> = Vec::new();
            std::mem::swap(&mut entries, &mut self.entries);
            entries.set(p, (key, value));
            let ghost new_e = entries@;
            proof {
                assert forall|a: int| 0 <= a < new_e.len() implies #[trigger] new_e[a].0@ == old_e[a].0@ by {
                    if a != p {
                        assert(new_e[a] == old_e[a]);
                    }
                }
                assert forall|a: int, b: int| 0 <= a < b < new_e.len() implies
                    #[trigger] new_e[a].0@ != #[trigger] new_e[b].0@ by {
                    assert(old_e[a].0@ != old_e[b].0@);
                    assert(new_e[a].0@ == old_e[a].0@);
                    assert(new_e[b].0@ == old_e[b].0@);
                }
                assert forall|a: int, b: int| 0 <= a < b < new_e.len() implies
                    key_lt(#[trigger] new_e[a].0@, #[trigger] new_e[b].0@) by {
                    assert(key_lt(old_e[a].0@, old_e[b].0@));
                    assert(new_e[a].0@ == old_e[a].0@);
                    assert(new_e[b].0@ == old_e[b].0@);
                }
                assert forall|q: Seq<char>| #![auto] lookup(new_e, q) == (if q == k { Some(v) } else { lookup(old_e, q) }) by {
                    if q == k {
                        lemma_lookup_unique(new_e, q, p as int);
                    } else {
                        match lookup(old_e, q) {
                            Some(_) => {
                                lemma_lookup_some(old_e, q);
                                let j = choose|j: int| 0 <= j < old_e.len() && #[trigger] old_e[j].0@ == q && lookup(old_e, q) == Some(old_e[j].1@);
                                assert(new_e[j] == old_e[j]);
                                lemma_lookup_unique(new_e, q, j);
                            },
                            None => {
                                assert forall|j: int| 0 <= j < new_e.len() implies #[trigger] new_e[j].0@ != q by {
                                    if j != p {
                                        assert(new_e[j] == old_e[j]);
                                        if old_e[j].0@ == q {
                                            lemma_lookup_unique(old_e, q, j);
                                        }
                                    }
                                }
                                lemma_lookup_none(new_e, q);
                            },
                        }
                    }
                }
            }
            self.entries = entries;
            proof {
                assert(self@ =~= old(self)@.insert(k, v));
            }
        } else {
            proof {
                lemma_key_lt_irreflexive(k);
                if p < old_e.len() {
                    lemma_key_lt_total(old_e[p as int].0@, k);
                }
                assert forall|j: int| p <= j < old_e.len() implies key_lt(k, #[trigger] old_e[j].0@) by {
                    if j > p {
                        assert(key_lt(old_e[p as int].0@, old_e[j].0@));
                        lemma_key_lt_transitive(k, old_e[p as int].0@, old_e[j].0@);
                    }
                }
                assert forall|j: int| 0 <= j < old_e.len() implies #[trigger] old_e[j].0@ != k by {
                    if j < p {
                        assert(key_lt(old_e[j].0@, k));
                    } else {
                        assert(key_lt(k, old_e[j].0@));
                    }
                }
            }
            let mut entries: Vec<(String, String)> = Vec::new();
            std::mem::swap(&mut entries, &mut self.entries);
            entries.insert(p, (key, value));
            let ghost new_e = entries@;
            proof {
                assert forall|a: int| 0 <= a < new_e.len() implies #[trigger] new_e[a]
                    == (if a < p { old_e[a] } else if a == p { new_e[a] } else { old_e[a - 1] }) by {}
                assert(new_e[p as int].0@ == k && new_e[p as int].1@ == v);
                assert forall|a: int, b: int| 0 <= a < b < new_e.len() implies
                    key_lt(#[trigger] new_e[a].0@, #[trigger] new_e[b].0@) by {
                    if b < p {
                        assert(key_lt(old_e[a].0@, old_e[b].0@));
                    } else if b == p {
                        assert(key_lt(old_e[a].0@, k));
                    } else if a < p {
                        assert(key_lt(old_e[a].0@, k));
                        assert(key_lt(k, old_e[b - 1].0@));
                        lemma_key_lt_transitive(old_e[a].0@, k, old_e[b - 1].0@);
                    } else if a == p {
                        assert(key_lt(k, old_e[b - 1].0@));
                    } else {
                        assert(key_lt(old_e[a - 1].0@, old_e[b - 1].0@));
                    }
                }
                assert forall|a: int, b: int| 0 <= a < b < new_e.len() implies
                    #[trigger] new_e[a].0@ != #[trigger] new_e[b].0@ by {
                    assert(key_lt(new_e[a].0@, new_e[b].0@));
                    lemma_key_lt_irreflexive(new_e[a].0@);
                }
                assert forall|q: Seq<char>| #![auto] lookup(new_e, q) == (if q == k { Some(v) } else { lookup(old_e, q) }) by {
                    if q == k {
                        lemma_lookup_unique(new_e, q, p as int);
                    } else {
                        match lookup(old_e, q) {
                            Some(_) => {
                                lemma_lookup_some(old_e, q);
                                let j = choose|j: int| 0 <= j < old_e.len() && #[trigger] old_e[j].0@ == q && lookup(old_e, q) == Some(old_e[j].1@);
                                if j < p {
                                    assert(new_e[j] == old_e[j]);
                                    lemma_lookup_unique(new_e, q, j);
                                } else {
                                    assert(new_e[j + 1] == old_e[j]);
                                    lemma_lookup_unique(new_e, q, j + 1);
                                }
                            },
                            None => {
                                assert forall|j: int| 0 <= j < new_e.len() implies #[trigger] new_e[j].0@ != q by {
                                    if j < p {
                                        assert(new_e[j] == old_e[j]);
                                        if old_e[j].0@ == q {
                                            lemma_lookup_unique(old_e, q, j);
                                        }
                                    } else if j > p {
                                        assert(new_e[j] == old_e[j - 1]);
                                        if old_e[j - 1].0@ == q {
                                            lemma_lookup_unique(old_e, q, j - 1);
                                        }
                                    }
                                }
                                lemma_lookup_none(new_e, q);
                            },
                        }
                    }
                }
            }
            self.entries = entries;
            proof {
                assert(self@ =~= old(self)@.insert(k, v));
            }
        }
    }

    /// Stores a copy of `value` under a copy of `key`.
    pub fn set(&mut self, key: &str, value: &str)
        ensures
            final(self)@ == old(self)@.insert(key@, value@),
    {
        self.insert(owned(key), owned(value));
    }

    /// Stores `value` under `key` only when `value` is not empty.
    pub fn set_if_present(&mut self, key: &str, value: &str)
        ensures
            value@.len() > 0 ==> final(self)@ == old(self)@.insert(key@, value@),
            value@.len() == 0 ==> final(self)@ == old(self)@,
    {
        if !value.is_empty() {
            self.set(key, value);
        }
    }

    /// The number of entries.
    pub fn len(&self) -> (n: usize)
        ensures
            n == self.entry_seq().len(),
    {
        self.entries.len()
    }

    /// The entries, as copies of their keys and values, in increasing key
    /// order (the order in which a `BTreeMap` walks them).
    pub fn pairs(&self) -> (res: Vec<(String, String)>)
        ensures
            res@.len() == self.entry_seq().len(),
            forall|i: int, j: int| 0 <= i < j < res@.len() ==> key_lt(#[trigger] res@[i].0@, #[trigger] res@[j].0@),
            forall|i: int| 0 <= i < res@.len() ==> #[trigger] res@[i].0@ == self.entry_seq()[i].0@
                && res@[i].1@ == self.entry_seq()[i].1@ && self@.contains_key(res@[i].0@) && self@[res@[i].0@] == res@[i].1@,
    {
        proof { use_type_invariant(self); }
        let mut res: Vec<(String, String)> = Vec::new();
        let mut i: usize = 0;
        while i < self.entries.len()
            invariant
                i <= self.entries@.len(),
                unique_keys(self.entries@),
                sorted_keys(self.entries@),
                res@.len() == i,
                forall|j: int| 0 <= j < i ==> #[trigger] res@[j].0@ == self.entries@[j].0@
                    && res@[j].1@ == self.entries@[j].1@ && self@.contains_key(res@[j].0@) && self@[res@[j].0@] == res@[j].1@,
            decreases self.entries.len() - i,
        {
            proof { lemma_lookup_unique(self.entries@, self.entries@[i as int].0@, i as int); }
            res.push((self.entries[i].0.clone(), self.entries[i].1.clone()));
            i = i + 1;
        }
        res
    }

    /// A copy of this map.
    pub fn duplicate(&self) -> (m: Self)
        ensures
            m@ == self@,
    {
        proof { use_type_invariant(self); }
        let mut entries: Vec<(String, String)> = Vec::new();
        let mut i: usize = 0;
        while i < self.entries.len()
            invariant
                i <= self.entries@.len(),
                entries@.len() == i,
                forall|j: int| 0 <= j < i ==> #[trigger] entries@[j].0@ == self.entries@[j].0@
                    && entries@[j].1@ == self.entries@[j].1@,
            decreases self.entries.len() - i,
        {
            entries.push((self.entries[i].0.clone(), self.entries[i].1.clone()));
            i = i + 1;
        }
        proof {
            assert forall|a: int, b: int| 0 <= a < b < entries@.len() implies
                #[trigger] entries@[a].0@ != #[trigger] entries@[b].0@ by {
                assert(self.entries@[a].0@ != self.entries@[b].0@);
            }
            assert forall|q: Seq<char>| #![auto] lookup(entries@, q) == lookup(self.entries@, q) by {
                lemma_same_lookup(entries@, self.entries@, q);
            }
        }
        let m = Metadata { entries };
        assert(m@ =~= self@);
        m
    }

    /// Every entry of `other` stored into this map, replacing what was under
    /// the same keys (`BTreeMap::extend`).
    pub fn extend(&mut self, other: &Metadata)
        ensures
            final(self)@ == old(self)@.union_prefer_right(other@),
    {
        let pairs = other.pairs();
        proof { use_type_invariant(other); }
        let mut i: usize = 0;
        while i < pairs.len()
            invariant
                i <= pairs@.len(),
                pairs@.len() == other.entries@.len(),
                unique_keys(other.entries@),
                forall|j: int| 0 <= j < pairs@.len() ==> #[trigger] pairs@[j].0@ == other.entries@[j].0@
                    && pairs@[j].1@ == other.entries@[j].1@ && other@.contains_key(pairs@[j].0@) && other@[pairs@[j].0@] == pairs@[j].1@,
                self@ == old(self)@.union_prefer_right(other@.restrict(
                    Set::new(|q: Seq<char>| exists|j: int| 0 <= j < i && #[trigger] pairs@[j].0@ == q))),
            decreases pairs.len() - i,
        {
            let ghost before = self@;
            self.insert(pairs[i].0.clone(), pairs[i].1.clone());
            i = i + 1;
            proof {
                let s_old = Set::new(|q: Seq<char>| exists|j: int| 0 <= j < i - 1 && #[trigger] pairs@[j].0@ == q);
                let s_new = Set::new(|q: Seq<char>| exists|j: int| 0 <= j < i && #[trigger] pairs@[j].0@ == q);
                assert forall|q: Seq<char>| s_new.contains(q) <==> (s_old.contains(q) || q == pairs@[i - 1].0@) by {
                    if s_new.contains(q) && q != pairs@[i - 1].0@ {
                        let j = choose|j: int| 0 <= j < i && #[trigger] pairs@[j].0@ == q;
                        assert(j < i - 1);
                    }
                }
                assert(self@ =~= old(self)@.union_prefer_right(other@.restrict(s_new)));
            }
        }
        proof {
            let s_all = Set::new(|q: Seq<char>| exists|j: int| 0 <= j < i && #[trigger] pairs@[j].0@ == q);
            assert forall|q: Seq<char>| other@.contains_key(q) implies s_all.contains(q) by {
                lemma_lookup_some(other.entries@, q);
                let j = choose|j: int| 0 <= j < other.entries@.len() && #[trigger] other.entries@[j].0@ == q
                    && lookup(other.entries@, q) == Some(other.entries@[j].1@);
                assert(pairs@[j].0@ == q);
            }
            assert(other@.restrict(s_all) =~= other@);
        }
    }
}

impl Clone for Metadata {
    fn clone(&self) -> (m: Self)
        ensures
            m@ == self@,
    {
        self.duplicate()
    }
}

proof fn lemma_same_lookup(a: Seq<(String, String)>, b: Seq<(String, String)>, q: Seq<char>)
    requires
        a.len() == b.len(),
        forall|j: int| 0 <= j < a.len() ==> #[trigger] a[j].0@ == b[j].0@ && a[j].1@ == b[j].1@,
    ensures
        lookup(a, q) == lookup(b, q),
    decreases a.len(),
{
    if a.len() > 0 {
        assert forall|j: int| 0 <= j < a.drop_first().len() implies #[trigger] a.drop_first()[j].0@
            == b.drop_first()[j].0@ && a.drop_first()[j].1@ == b.drop_first()[j].1@ by {
            assert(a.drop_first()[j] == a[j + 1]);
            assert(b.drop_first()[j] == b[j + 1]);
        }
        lemma_same_lookup(a.drop_first(), b.drop_first(), q);
    }
}

} // verus!
