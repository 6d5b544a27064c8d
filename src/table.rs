//! Tables that keep their keys in order of first insertion; inserting an
//! existing key replaces its value in place.

use vstd::prelude::*;

verus! {

/// Position of the entry with key `k` in `s`, or -1.
pub open spec fn index_of<K, V>(s: Seq<(K, V)>, k: K) -> int
    decreases s.len(),
{
    if s.len() == 0 {
        -1
    } else if s.last().0 == k {
        s.len() - 1
    } else {
        index_of(s.drop_last(), k)
    }
}

/// `s` after inserting `v` under `k`: in place where `k` is present, else at the end.
pub open spec fn inserted<K, V>(s: Seq<(K, V)>, k: K, v: V) -> Seq<(K, V)> {
    let i = index_of(s, k);
    if i >= 0 {
        s.update(i, (k, v))
    } else {
        s.push((k, v))
    }
}

/// Position of the first occurrence of `k` in `keys`, or -1.
pub open spec fn first_index<K>(keys: Seq<K>, k: K) -> int
    decreases keys.len(),
{
    if keys.len() == 0 {
        -1
    } else if first_index(keys.drop_last(), k) >= 0 {
        first_index(keys.drop_last(), k)
    } else if keys.last() == k {
        keys.len() - 1
    } else {
        -1
    }
}

/// Position of the last occurrence of `k` in `keys`, or -1.
pub open spec fn last_index<K>(keys: Seq<K>, k: K) -> int
    decreases keys.len(),
{
    if keys.len() == 0 {
        -1
    } else if keys.last() == k {
        keys.len() - 1
    } else {
        last_index(keys.drop_last(), k)
    }
}

/// `table` is what inserting, in order, the j-th item under `keys[j]` gives,
/// where `made(j, v)` says that `v` is the value the j-th item makes: one
/// entry per distinct key, holding the value of the key's last item, with the
/// keys in order of their first occurrence.
pub open spec fn built_from<K, V>(
    table: Seq<(K, V)>,
    keys: Seq<K>,
    made: spec_fn(int, V) -> bool,
) -> bool {
    &&& forall|i: int|
        0 <= i < table.len() ==> last_index(keys, #[trigger] table[i].0) >= 0 && made(
            last_index(keys, table[i].0),
            table[i].1,
        )
    &&& forall|j: int| 0 <= j < keys.len() ==> index_of(table, #[trigger] keys[j]) >= 0
    &&& forall|i1: int, i2: int|
        0 <= i1 < i2 < table.len() ==> first_index(keys, #[trigger] table[i1].0) < first_index(
            keys,
            #[trigger] table[i2].0,
        )
}

pub proof fn lemma_index_of<K, V>(s: Seq<(K, V)>, k: K)
    ensures
        -1 <= index_of(s, k) < s.len(),
        index_of(s, k) >= 0 ==> s[index_of(s, k)].0 == k,
        index_of(s, k) == -1 <==> forall|i: int| 0 <= i < s.len() ==> s[i].0 != k,
    decreases s.len(),
{
    if s.len() > 0 {
        lemma_index_of(s.drop_last(), k);
        if s.last().0 != k {
            assert forall|i: int| 0 <= i < s.len() && index_of(s, k) == -1 implies s[i].0 != k by {
                if i < s.len() - 1 {
                    assert(s[i] == s.drop_last()[i]);
                }
            }
        }
    }
}

pub proof fn lemma_first_index<K>(keys: Seq<K>, k: K)
    ensures
        -1 <= first_index(keys, k) < keys.len(),
        first_index(keys, k) >= 0 ==> keys[first_index(keys, k)] == k,
        first_index(keys, k) == -1 <==> forall|j: int| 0 <= j < keys.len() ==> keys[j] != k,
    decreases keys.len(),
{
    if keys.len() > 0 {
        lemma_first_index(keys.drop_last(), k);
        assert forall|j: int| 0 <= j < keys.len() - 1 implies keys[j] == keys.drop_last()[j] by {}
    }
}

pub proof fn lemma_last_index<K>(keys: Seq<K>, k: K)
    ensures
        -1 <= last_index(keys, k) < keys.len(),
        last_index(keys, k) >= 0 ==> keys[last_index(keys, k)] == k,
        last_index(keys, k) == -1 <==> forall|j: int| 0 <= j < keys.len() ==> keys[j] != k,
        forall|j: int| last_index(keys, k) < j < keys.len() ==> keys[j] != k,
    decreases keys.len(),
{
    if keys.len() > 0 {
        lemma_last_index(keys.drop_last(), k);
        assert forall|j: int| 0 <= j < keys.len() - 1 implies keys[j] == keys.drop_last()[j] by {}
    }
}

/// In a table built from items, the key of every item has exactly one
/// entry, and that entry holds what the last item with the key makes.
pub proof fn lemma_built_from_entry<K, V>(
    table: Seq<(K, V)>,
    keys: Seq<K>,
    made: spec_fn(int, V) -> bool,
    j: int,
)
    requires
        built_from(table, keys, made),
        0 <= j < keys.len(),
    ensures
        0 <= index_of(table, keys[j]) < table.len(),
        table[index_of(table, keys[j])].0 == keys[j],
        forall|i: int| 0 <= i < table.len() && table[i].0 == keys[j] ==> i == index_of(table, keys[j]),
        j <= last_index(keys, keys[j]) < keys.len(),
        keys[last_index(keys, keys[j])] == keys[j],
        forall|j2: int| last_index(keys, keys[j]) < j2 < keys.len() ==> keys[j2] != keys[j],
        made(last_index(keys, keys[j]), table[index_of(table, keys[j])].1),
{
    let k = keys[j];
    lemma_index_of(table, k);
    lemma_last_index(keys, k);
    let p = index_of(table, k);
    assert(table[p].0 == k);
    assert forall|i: int| 0 <= i < table.len() && table[i].0 == k implies i == p by {
        if i < p {
            assert(first_index(keys, table[i].0) < first_index(keys, table[p].0));
        } else if i > p {
            assert(first_index(keys, table[p].0) < first_index(keys, table[i].0));
        }
    }
}

/// Inserting the value of one more item keeps the table built from the items.
pub proof fn lemma_built_from_insert<K, V>(
    table: Seq<(K, V)>,
    keys: Seq<K>,
    made: spec_fn(int, V) -> bool,
    k: K,
    v: V,
)
    requires
        built_from(table, keys, made),
        made(keys.len() as int, v),
    ensures
        built_from(inserted(table, k, v), keys.push(k), made),
{
    let nk = keys.push(k);
    let nt = inserted(table, k, v);
    assert(nk.drop_last() =~= keys);
    lemma_index_of(table, k);
    // keys of the table are pairwise distinct
    assert forall|i1: int, i2: int| 0 <= i1 < table.len() && 0 <= i2 < table.len() && i1 != i2 implies table[i1].0
        != table[i2].0 by {
        if i1 < i2 {
            assert(first_index(keys, table[i1].0) < first_index(keys, table[i2].0));
        } else {
            assert(first_index(keys, table[i2].0) < first_index(keys, table[i1].0));
        }
    }
    assert forall|x: K| x != k implies last_index(nk, x) == last_index(keys, x) by {}
    assert(last_index(nk, k) == keys.len());
    assert forall|x: K| first_index(keys, x) >= 0 implies first_index(nk, x) == first_index(keys, x) by {}
    assert forall|i: int| 0 <= i < table.len() implies first_index(keys, #[trigger] table[i].0) >= 0 by {
        lemma_last_index(keys, table[i].0);
        lemma_first_index(keys, table[i].0);
    }
    let i0 = index_of(table, k);
    if i0 >= 0 {
        assert(nt == table.update(i0, (k, v)));
        assert forall|i: int| 0 <= i < nt.len() implies last_index(nk, #[trigger] nt[i].0) >= 0 && made(
            last_index(nk, nt[i].0),
            nt[i].1,
        ) by {
            if i != i0 {
                assert(nt[i] == table[i]);
            }
        }
        assert forall|j: int| 0 <= j < nk.len() implies index_of(nt, #[trigger] nk[j]) >= 0 by {
            let x = nk[j];
            if j < keys.len() {
                assert(x == keys[j]);
                assert(index_of(table, keys[j]) >= 0);
                lemma_index_of(table, x);
                let p = index_of(table, x);
                lemma_index_of(nt, x);
                if p == i0 {
                    assert(nt[p].0 == x);
                } else {
                    assert(nt[p] == table[p]);
                }
            } else {
                lemma_index_of(nt, k);
                assert(nt[i0].0 == k);
            }
        }
        assert forall|i1: int, i2: int| 0 <= i1 < i2 < nt.len() implies first_index(nk, #[trigger] nt[i1].0)
            < first_index(nk, #[trigger] nt[i2].0) by {
            assert(nt[i1].0 == table[i1].0);
            assert(nt[i2].0 == table[i2].0);
            assert(first_index(keys, table[i1].0) < first_index(keys, table[i2].0));
        }
    } else {
        assert(nt == table.push((k, v)));
        // k is not among the keys seen so far
        assert forall|j: int| 0 <= j < keys.len() implies keys[j] != k by {
            assert(index_of(table, keys[j]) >= 0);
            lemma_index_of(table, keys[j]);
        }
        lemma_first_index(keys, k);
        assert(first_index(nk, k) == keys.len());
        assert forall|i: int| 0 <= i < nt.len() implies last_index(nk, #[trigger] nt[i].0) >= 0 && made(
            last_index(nk, nt[i].0),
            nt[i].1,
        ) by {
            if i < table.len() {
                assert(nt[i] == table[i]);
                assert(table[i].0 != k);
            }
        }
        assert forall|j: int| 0 <= j < nk.len() implies index_of(nt, #[trigger] nk[j]) >= 0 by {
            let x = nk[j];
            lemma_index_of(nt, x);
            if j < keys.len() {
                assert(x == keys[j]);
                assert(index_of(table, keys[j]) >= 0);
                lemma_index_of(table, x);
                let p = index_of(table, x);
                assert(nt[p] == table[p]);
            } else {
                assert(nt[table.len() as int].0 == k);
            }
        }
        assert forall|i1: int, i2: int| 0 <= i1 < i2 < nt.len() implies first_index(nk, #[trigger] nt[i1].0)
            < first_index(nk, #[trigger] nt[i2].0) by {
            assert(nt[i1] == table[i1]);
            lemma_first_index(keys, table[i1].0);
            if i2 < table.len() {
                assert(nt[i2] == table[i2]);
            } else {
                assert(nt[i2].0 == k);
            }
        }
    }
}

/// Only what `made` says of the items so far matters.
pub proof fn lemma_built_from_made<K, V>(
    table: Seq<(K, V)>,
    keys: Seq<K>,
    made: spec_fn(int, V) -> bool,
    other: spec_fn(int, V) -> bool,
)
    requires
        built_from(table, keys, made),
        forall|j: int, v: V| 0 <= j < keys.len() ==> #[trigger] made(j, v) == other(j, v),
    ensures
        built_from(table, keys, other),
{
    assert forall|i: int| 0 <= i < table.len() implies last_index(keys, #[trigger] table[i].0) >= 0 && other(
        last_index(keys, table[i].0),
        table[i].1,
    ) by {
        lemma_last_index(keys, table[i].0);
    }
}

/// A table of values keyed by numeric ID, in order of first insertion.
#[derive(Debug, Clone, PartialEq)]
pub struct IdTable<V> {
    entries: Vec<(u32, V)>,
}

impl<V> View for IdTable<V> {
    type V = Seq<(u32, V)>;

    closed spec fn view(&self) -> Seq<(u32, V)> {
        self.entries@
    }
}

impl<V> IdTable<V> {
    pub fn new() -> (r: IdTable<V>)
        ensures
            r@ == Seq::<(u32, V)>::empty(),
    {
        IdTable { entries: Vec::new() }
    }

    pub fn len(&self) -> (r: usize)
        ensures
            r == self@.len(),
    {
        self.entries.len()
    }

    /// Inserts `value` under `key`, replacing the value already there.
    pub fn insert(&mut self, key: u32, value: V)
        ensures
            final(self)@ == inserted(old(self)@, key, value),
    {
        let n = self.entries.len();
        let mut i: usize = n;
        assert(self.entries@.subrange(0, n as int) =~= self.entries@);
        while i > 0
            invariant
                i <= n,
                n == self.entries@.len(),
                self.entries@ == old(self).entries@,
                index_of(self.entries@, key) == index_of(self.entries@.subrange(0, i as int), key),
            decreases i,
        {
            assert(self.entries@.subrange(0, i as int).drop_last() =~= self.entries@.subrange(0, i - 1));
            if self.entries[i - 1].0 == key {
                self.entries.set(i - 1, (key, value));
                return;
            }
            i = i - 1;
        }
        self.entries.push((key, value));
    }

    /// The value under `key`.
    pub fn get(&self, key: u32) -> (r: Option<&V>)
        ensures
            r is None <==> index_of(self@, key) == -1,
            r matches Some(v) ==> *v == self@[index_of(self@, key)].1,
    {
        let n = self.entries.len();
        let mut i: usize = n;
        assert(self.entries@.subrange(0, n as int) =~= self.entries@);
        while i > 0
            invariant
                i <= n,
                n == self.entries@.len(),
                index_of(self.entries@, key) == index_of(self.entries@.subrange(0, i as int), key),
            decreases i,
        {
            assert(self.entries@.subrange(0, i as int).drop_last() =~= self.entries@.subrange(0, i - 1));
            if self.entries[i - 1].0 == key {
                return Some(&self.entries[i - 1].1);
            }
            i = i - 1;
        }
        None
    }

    /// The entries, in order of first insertion.
    pub fn entries(&self) -> (r: &Vec<(u32, V)>)
        ensures
            r@ == self@,
    {
        &self.entries
    }
}

/// A table of values keyed by text, in order of first insertion.
#[derive(Debug, Clone, PartialEq)]
pub struct TextTable<V> {
    entries: Vec<(String, V)>,
}

pub open spec fn text_entries<V>(s: Seq<(String, V)>) -> Seq<(Seq<char>, V)> {
    s.map_values(|e: (String, V)| (e.0@, e.1))
}

impl<V> View for TextTable<V> {
    type V = Seq<(Seq<char>, V)>;

    closed spec fn view(&self) -> Seq<(Seq<char>, V)> {
        text_entries(self.entries@)
    }
}

impl<V> TextTable<V> {
    pub fn new() -> (r: TextTable<V>)
        ensures
            r@ == Seq::<(Seq<char>, V)>::empty(),
    {
        let r = TextTable { entries: Vec::new() };
        assert(r@ =~= Seq::<(Seq<char>, V)>::empty());
        r
    }

    pub fn len(&self) -> (r: usize)
        ensures
            r == self@.len(),
    {
        self.entries.len()
    }

    /// Inserts `value` under `key`, replacing the value already there.
    pub fn insert(&mut self, key: String, value: V)
        ensures
            final(self)@ == inserted(old(self)@, key@, value),
    {
        let n = self.entries.len();
        let ghost old_view = self@;
        let mut i: usize = n;
        assert(old_view.subrange(0, n as int) =~= old_view);
        while i > 0
            invariant
                i <= n,
                n == self.entries@.len(),
                self.entries@ == old(self).entries@,
                old_view == self@,
                old_view.len() == n,
                index_of(old_view, key@) == index_of(old_view.subrange(0, i as int), key@),
            decreases i,
        {
            assert(old_view.subrange(0, i as int).drop_last() =~= old_view.subrange(0, i - 1));
            if self.entries[i - 1].0 == key {
                let ghost k = key@;
                self.entries.set(i - 1, (key, value));
                assert(self@ =~= old_view.update(i - 1, (k, value)));
                return;
            }
            i = i - 1;
        }
        let ghost k = key@;
        self.entries.push((key, value));
        assert(self@ =~= old_view.push((k, value)));
    }

    /// The value under `key`.
    pub fn get(&self, key: &String) -> (r: Option<&V>)
        ensures
            r is None <==> index_of(self@, key@) == -1,
            r matches Some(v) ==> *v == self@[index_of(self@, key@)].1,
    {
        let n = self.entries.len();
        let mut i: usize = n;
        assert(self@.subrange(0, n as int) =~= self@);
        while i > 0
            invariant
                i <= n,
                n == self@.len(),
                n == self.entries@.len(),
                index_of(self@, key@) == index_of(self@.subrange(0, i as int), key@),
            decreases i,
        {
            assert(self@.subrange(0, i as int).drop_last() =~= self@.subrange(0, i - 1));
            if self.entries[i - 1].0 == *key {
                return Some(&self.entries[i - 1].1);
            }
            i = i - 1;
        }
        None
    }

    /// The entries, in order of first insertion.
    pub fn entries(&self) -> (r: &Vec<(String, V)>)
        ensures
            text_entries(r@) == self@,
    {
        &self.entries
    }
}

} // verus!
