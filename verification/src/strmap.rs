//! A small map keyed by strings, kept as an ordered list of entries.
//!
//! It serves for the tables keyed by strings of the monitor: the
//! entries are unique by key, and the order in which keys were first
//! inserted is kept, so that every walk over the table is deterministic.
use vstd::prelude::*;

verus! {

/// Values that can be duplicated into an equal value.
pub trait Dup: Sized {
    fn dup(&self) -> (r: Self)
        ensures
            r == *self,
    ;
}

impl Dup for String {
    fn dup(&self) -> (r: Self) {
        self.clone()
    }
}

impl Dup for u32 {
    fn dup(&self) -> (r: Self) {
        *self
    }
}

impl Dup for i32 {
    fn dup(&self) -> (r: Self) {
        *self
    }
}

impl Dup for u64 {
    fn dup(&self) -> (r: Self) {
        *self
    }
}

impl Dup for bool {
    fn dup(&self) -> (r: Self) {
        *self
    }
}

/// Values that can be duplicated into a value with the same view.
pub trait DupView: View + Sized {
    fn dup_view(&self) -> (r: Self)
        ensures
            r@ == self@,
    ;
}

impl DupView for Vec<u64> {
    fn dup_view(&self) -> (r: Self) {
        let r = self.clone();
        assert(r@ =~= self@);
        r
    }
}

/// Values that can be duplicated into a value alike all the way down:
/// `deep` is what a value holds, as plain values.
pub trait DeepDup: Sized {
    type D;

    spec fn deep(&self) -> Self::D;

    fn deep_dup(&self) -> (r: Self)
        ensures
            r.deep() == self.deep(),
    ;
}

impl DeepDup for String {
    type D = Seq<char>;

    open spec fn deep(&self) -> Seq<char> {
        self@
    }

    fn deep_dup(&self) -> (r: Self) {
        self.clone()
    }
}

impl DeepDup for i32 {
    type D = i32;

    open spec fn deep(&self) -> i32 {
        *self
    }

    fn deep_dup(&self) -> (r: Self) {
        *self
    }
}

/// The index of the entry whose key is `k`, if any.
pub open spec fn index_of<V>(p: Seq<(Seq<char>, V)>, k: Seq<char>) -> int {
    choose|i: int| 0 <= i < p.len() && p[i].0 == k
}

/// Whether some entry has key `k`.
pub open spec fn has_key<V>(p: Seq<(Seq<char>, V)>, k: Seq<char>) -> bool {
    exists|i: int| 0 <= i < p.len() && p[i].0 == k
}

/// No two entries share a key.
pub open spec fn unique_keys<V>(p: Seq<(Seq<char>, V)>) -> bool {
    forall|i: int, j: int| 0 <= i < p.len() && 0 <= j < p.len() && i != j ==> p[i].0 != p[j].0
}

/// The map that an entry list stands for.
pub open spec fn to_map<V>(p: Seq<(Seq<char>, V)>) -> Map<Seq<char>, V> {
    Map::new(|k: Seq<char>| has_key(p, k), |k: Seq<char>| p[index_of(p, k)].1)
}

/// Inserting `k` into an entry list: replaced in place when present,
/// appended otherwise.
pub open spec fn insert_entry<V>(p: Seq<(Seq<char>, V)>, k: Seq<char>, v: V) -> Seq<(Seq<char>, V)> {
    if has_key(p, k) {
        p.update(index_of(p, k), (k, v))
    } else {
        p.push((k, v))
    }
}

/// Removing `k` from an entry list.
pub open spec fn remove_entry<V>(p: Seq<(Seq<char>, V)>, k: Seq<char>) -> Seq<(Seq<char>, V)> {
    if has_key(p, k) {
        p.remove(index_of(p, k))
    } else {
        p
    }
}

pub proof fn lemma_index_of<V>(p: Seq<(Seq<char>, V)>, k: Seq<char>, i: int)
    requires
        unique_keys(p),
        0 <= i < p.len(),
        p[i].0 == k,
    ensures
        has_key(p, k),
        index_of(p, k) == i,
{
}

pub proof fn lemma_insert_map<V>(p: Seq<(Seq<char>, V)>, k: Seq<char>, v: V)
    requires
        unique_keys(p),
    ensures
        unique_keys(insert_entry(p, k, v)),
        to_map(insert_entry(p, k, v)) == to_map(p).insert(k, v),
{
    let q = insert_entry(p, k, v);
    if has_key(p, k) {
        let i = index_of(p, k);
        assert forall|kk: Seq<char>| has_key(q, kk) <==> has_key(p, kk) by {
            if has_key(p, kk) {
                let j = index_of(p, kk);
                assert(q[j].0 == kk);
            }
            if has_key(q, kk) {
                let j = index_of(q, kk);
                assert(p[j].0 == kk);
            }
        }
        assert forall|kk: Seq<char>| has_key(q, kk) implies q[index_of(q, kk)].1 == (if kk == k { v } else { p[index_of(p, kk)].1 }) by {
            let j = index_of(q, kk);
            let jp = index_of(p, kk);
            assert(p[jp].0 == kk);
            assert(q[jp].0 == kk);
            lemma_index_of(q, kk, jp);
        }
        assert(to_map(q) =~= to_map(p).insert(k, v));
    } else {
        assert forall|kk: Seq<char>| has_key(q, kk) <==> (has_key(p, kk) || kk == k) by {
            if has_key(p, kk) {
                let j = index_of(p, kk);
                assert(q[j].0 == kk);
            }
            if kk == k {
                assert(q[p.len() as int].0 == kk);
            }
            if has_key(q, kk) {
                let j = index_of(q, kk);
                if j < p.len() {
                    assert(p[j].0 == kk);
                }
            }
        }
        assert forall|kk: Seq<char>| has_key(q, kk) implies q[index_of(q, kk)].1 == (if kk == k { v } else { p[index_of(p, kk)].1 }) by {
            if kk == k {
                lemma_index_of(q, kk, p.len() as int);
            } else {
                let jp = index_of(p, kk);
                assert(q[jp].0 == kk);
                lemma_index_of(q, kk, jp);
            }
        }
        assert(to_map(q) =~= to_map(p).insert(k, v));
    }
}

pub proof fn lemma_remove_map<V>(p: Seq<(Seq<char>, V)>, k: Seq<char>)
    requires
        unique_keys(p),
    ensures
        unique_keys(remove_entry(p, k)),
        to_map(remove_entry(p, k)) == to_map(p).remove(k),
{
    let q = remove_entry(p, k);
    if has_key(p, k) {
        let i = index_of(p, k);
        assert forall|a: int, b: int| 0 <= a < q.len() && 0 <= b < q.len() && a != b implies q[a].0 != q[b].0 by {
            let pa = if a < i { a } else { a + 1 };
            let pb = if b < i { b } else { b + 1 };
            assert(q[a] == p[pa]);
            assert(q[b] == p[pb]);
        }
        assert forall|kk: Seq<char>| has_key(q, kk) <==> (has_key(p, kk) && kk != k) by {
            if has_key(p, kk) && kk != k {
                let j = index_of(p, kk);
                if j < i {
                    assert(q[j].0 == kk);
                } else {
                    assert(j != i);
                    assert(q[j - 1].0 == kk);
                }
            }
            if has_key(q, kk) {
                let j = index_of(q, kk);
                let pj = if j < i { j } else { j + 1 };
                assert(p[pj].0 == kk);
                assert(pj != i);
            }
        }
        assert forall|kk: Seq<char>| has_key(q, kk) implies q[index_of(q, kk)].1 == p[index_of(p, kk)].1 by {
            let j = index_of(q, kk);
            let pj = if j < i { j } else { j + 1 };
            assert(p[pj].0 == kk);
            lemma_index_of(p, kk, pj);
        }
        assert(to_map(q) =~= to_map(p).remove(k));
    } else {
        assert(to_map(q) =~= to_map(p).remove(k));
    }
}

/// The entries of a table, keys by their characters.
pub open spec fn view_entries<V>(s: Seq<(String, V)>) -> Seq<(Seq<char>, V)> {
    Seq::new(s.len(), |i: int| (s[i].0@, s[i].1))
}

/// A table from strings to values, with keys unique and kept in order of
/// first insertion.
pub struct StrMap<V> {
    entries: Vec<(String, V)>,
}

impl<V> StrMap<V> {
    /// The entries, keys by their characters, in table order.
    pub closed spec fn pairs(&self) -> Seq<(Seq<char>, V)> {
        view_entries(self.entries@)
    }

    #[verifier::type_invariant]
    spec fn inv(&self) -> bool {
        unique_keys(self.pairs())
    }

    /// An empty table.
    pub fn new() -> (m: Self)
        ensures
            m.pairs() == Seq::<(Seq<char>, V)>::empty(),
    {
        let m = StrMap { entries: Vec::new() };
        assert(m.pairs() =~= Seq::<(Seq<char>, V)>::empty());
        m
    }

    /// The number of entries.
    pub fn len(&self) -> (n: usize)
        ensures
            n == self.pairs().len(),
            unique_keys(self.pairs()),
    {
        proof { use_type_invariant(self); }
        self.entries.len()
    }

    /// The key of entry `i`.
    pub fn key_at(&self, i: usize) -> (k: &String)
        requires
            i < self.pairs().len(),
        ensures
            k@ == self.pairs()[i as int].0,
    {
        &self.entries[i].0
    }

    /// The value of entry `i`.
    pub fn value_at(&self, i: usize) -> (v: &V)
        requires
            i < self.pairs().len(),
        ensures
            *v == self.pairs()[i as int].1,
    {
        &self.entries[i].1
    }

    /// Where key `k` stands, if it is present.
    pub fn find(&self, k: &str) -> (r: Option<usize>)
        ensures
            r is None <==> !has_key(self.pairs(), k@),
            r matches Some(i) ==> i < self.pairs().len() && self.pairs()[i as int].0 == k@ && index_of(self.pairs(), k@) == i,
    {
        proof { use_type_invariant(self); }
        let mut i: usize = 0;
        while i < self.entries.len()
            invariant
                i <= self.entries.len(),
                self.pairs().len() == self.entries.len(),
                unique_keys(self.pairs()),
                forall|j: int| 0 <= j < i ==> self.pairs()[j].0 != k@,
            decreases self.entries.len() - i,
        {
            assert(self.pairs()[i as int].0 == self.entries@[i as int].0@);
            if crate::text::str_eq(self.entries[i].0.as_str(), k) {
                proof { lemma_index_of(self.pairs(), k@, i as int); }
                return Some(i);
            }
            i = i + 1;
        }
        None
    }

    /// Whether key `k` is present.
    pub fn contains_key(&self, k: &str) -> (b: bool)
        ensures
            b == has_key(self.pairs(), k@),
            b == self@.dom().contains(k@),
    {
        self.find(k).is_some()
    }

    /// The value under key `k`, if present.
    pub fn get(&self, k: &str) -> (r: Option<&V>)
        ensures
            r is None <==> !self@.dom().contains(k@),
            r matches Some(v) ==> *v == self@[k@],
    {
        match self.find(k) {
            Some(i) => Some(&self.entries[i].1),
            None => None,
        }
    }

    /// Sets key `k` to `v`: in place when `k` is present, as a new last
    /// entry otherwise.
    pub fn insert(&mut self, k: String, v: V)
        ensures
            final(self).pairs() == insert_entry(old(self).pairs(), k@, v),
            final(self)@ == old(self)@.insert(k@, v),
    {
        proof { use_type_invariant(&*self); }
        let ghost p = self.pairs();
        let ghost kv = k@;
        proof { lemma_insert_map(p, kv, v); }
        match self.find(k.as_str()) {
            Some(i) => {
                let mut entries = Vec::new();
                std::mem::swap(&mut entries, &mut self.entries);
                entries.set(i, (k, v));
                assert(view_entries(entries@) =~= insert_entry(p, kv, v));
                self.entries = entries;
            },
            None => {
                let mut entries = Vec::new();
                std::mem::swap(&mut entries, &mut self.entries);
                entries.push((k, v));
                assert(view_entries(entries@) =~= insert_entry(p, kv, v));
                self.entries = entries;
            },
        }
    }

    /// Removes key `k`, if present, keeping the order of the others.
    pub fn remove(&mut self, k: &str)
        ensures
            final(self).pairs() == remove_entry(old(self).pairs(), k@),
            final(self)@ == old(self)@.remove(k@),
    {
        proof { use_type_invariant(&*self); }
        let ghost p = self.pairs();
        proof { lemma_remove_map(p, k@); }
        match self.find(k) {
            Some(i) => {
                let mut entries = Vec::new();
                std::mem::swap(&mut entries, &mut self.entries);
                entries.remove(i);
                assert(view_entries(entries@) =~= remove_entry(p, k@));
                self.entries = entries;
            },
            None => {},
        }
    }
}

impl<V: Dup> StrMap<V> {
    /// A copy of the table.
    pub fn dup_map(&self) -> (m: Self)
        ensures
            m.pairs() == self.pairs(),
    {
        proof { use_type_invariant(self); }
        let mut entries: Vec<(String, V)> = Vec::new();
        let mut i: usize = 0;
        while i < self.entries.len()
            invariant
                i <= self.entries.len(),
                view_entries(entries@) == self.pairs().take(i as int),
                self.pairs().len() == self.entries.len(),
                entries@.len() == i,
            decreases self.entries.len() - i,
        {
            let k = self.entries[i].0.clone();
            let v = self.entries[i].1.dup();
            assert(self.pairs()[i as int] == (self.entries@[i as int].0@, self.entries@[i as int].1));
            let ghost before = entries@;
            entries.push((k, v));
            assert(entries@ == before.push((k, v)));
            assert forall|j: int| 0 <= j < i implies view_entries(entries@)[j] == self.pairs()[j] by {
                assert(view_entries(before)[j] == self.pairs().take(i as int)[j]);
                assert(entries@[j] == before[j]);
            }
            assert(view_entries(entries@) =~= self.pairs().take(i + 1));
            i = i + 1;
        }
        assert(self.pairs().take(self.entries.len() as int) =~= self.pairs());
        StrMap { entries }
    }
}

impl<V> View for StrMap<V> {
    type V = Map<Seq<char>, V>;

    open spec fn view(&self) -> Map<Seq<char>, V> {
        to_map(self.pairs())
    }
}

impl<V: Dup> DupView for StrMap<V> {
    fn dup_view(&self) -> (r: Self) {
        self.dup_map()
    }
}

impl<V: DupView> StrMap<V> {
    /// A copy of the table whose values have the views of the originals.
    pub fn dup_views(&self) -> (m: Self)
        ensures
            m@.dom() == self@.dom(),
            forall|k: Seq<char>| #[trigger] m@.dom().contains(k) ==> m@[k]@ == self@[k]@,
    {
        proof { use_type_invariant(self); }
        let ghost p = self.pairs();
        let mut m: StrMap<V> = StrMap::new();
        let mut i: usize = 0;
        assert(to_map(p.take(0)) =~= Map::<Seq<char>, V>::empty());
        assert(m@ =~= Map::<Seq<char>, V>::empty());
        while i < self.entries.len()
            invariant
                i <= self.entries.len(),
                p == self.pairs(),
                p.len() == self.entries.len(),
                unique_keys(p),
                m@.dom() == to_map(p.take(i as int)).dom(),
                forall|k: Seq<char>| #[trigger] m@.dom().contains(k) ==> m@[k]@ == to_map(p.take(i as int))[k]@,
            decreases self.entries.len() - i,
        {
            let k = self.entries[i].0.clone();
            let v = self.entries[i].1.dup_view();
            assert(p[i as int] == (self.entries@[i as int].0@, self.entries@[i as int].1));
            proof {
                let q = p.take(i as int);
                assert(!has_key(q, k@)) by {
                    if has_key(q, k@) {
                        let j = choose|j: int| 0 <= j < q.len() && q[j].0 == k@;
                        assert(p[j].0 == p[i as int].0);
                    }
                }
                assert(q.push(p[i as int]) =~= p.take(i + 1));
                assert(insert_entry(q, k@, self.entries@[i as int].1) == p.take(i + 1));
                assert forall|a: int, b: int| 0 <= a < q.len() && 0 <= b < q.len() && a != b implies q[a].0 != q[b].0 by {
                    assert(q[a] == p[a] && q[b] == p[b]);
                }
                lemma_insert_map(q, k@, self.entries@[i as int].1);
            }
            m.insert(k, v);
            i = i + 1;
        }
        assert(p.take(self.entries.len() as int) =~= p);
        m
    }
}

impl<V: DeepDup> DeepDup for StrMap<V> {
    type D = Map<Seq<char>, V::D>;

    open spec fn deep(&self) -> Map<Seq<char>, V::D> {
        self@.map_values(|v: V| v.deep())
    }

    fn deep_dup(&self) -> (m: Self) {
        proof { use_type_invariant(self); }
        let ghost p = self.pairs();
        let mut m: StrMap<V> = StrMap::new();
        let mut i: usize = 0;
        assert(to_map(p.take(0)) =~= Map::<Seq<char>, V>::empty());
        assert(m@ =~= Map::<Seq<char>, V>::empty());
        while i < self.entries.len()
            invariant
                i <= self.entries.len(),
                p == self.pairs(),
                p.len() == self.entries.len(),
                unique_keys(p),
                m@.dom() == to_map(p.take(i as int)).dom(),
                forall|k: Seq<char>| #[trigger] m@.dom().contains(k) ==> m@[k].deep() == to_map(p.take(i as int))[k].deep(),
            decreases self.entries.len() - i,
        {
            let k = self.entries[i].0.clone();
            let v = self.entries[i].1.deep_dup();
            assert(p[i as int] == (self.entries@[i as int].0@, self.entries@[i as int].1));
            proof {
                let q = p.take(i as int);
                assert(!has_key(q, k@)) by {
                    if has_key(q, k@) {
                        let j = choose|j: int| 0 <= j < q.len() && q[j].0 == k@;
                        assert(p[j].0 == p[i as int].0);
                    }
                }
                assert(q.push(p[i as int]) =~= p.take(i + 1));
                assert(insert_entry(q, k@, self.entries@[i as int].1) == p.take(i + 1));
                assert forall|a: int, b: int| 0 <= a < q.len() && 0 <= b < q.len() && a != b implies q[a].0 != q[b].0 by {
                    assert(q[a] == p[a] && q[b] == p[b]);
                }
                lemma_insert_map(q, k@, self.entries@[i as int].1);
            }
            m.insert(k, v);
            i = i + 1;
        }
        assert(p.take(self.entries.len() as int) =~= p);
        assert(m.deep() =~= self.deep());
        m
    }
}

} // verus!
