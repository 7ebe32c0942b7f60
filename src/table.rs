//! A small association table with unique keys, viewed as a map.
use vstd::prelude::*;

verus! {

/// A value that can produce an exact copy of itself.
pub trait Duplicate: Sized {
    fn duplicate(&self) -> (r: Self)
        ensures
            r == *self,
    ;
}

/// A key that compares through its view.
pub trait TableKey: View + Duplicate {
    fn key_eq(&self, other: &Self) -> (r: bool)
        ensures
            r == (self@ == other@),
    ;
}

impl Duplicate for String {
    fn duplicate(&self) -> (r: String) {
        self.clone()
    }
}

impl TableKey for String {
    fn key_eq(&self, other: &String) -> (r: bool) {
        *self == *other
    }
}

/// The map that a sequence of entries denotes: later entries win.
pub open spec fn entries_view<K: View, V>(s: Seq<(K, V)>) -> Map<K::V, V>
    decreases s.len(),
{
    if s.len() == 0 {
        Map::empty()
    } else {
        entries_view(s.drop_last()).insert(s.last().0@, s.last().1)
    }
}

pub proof fn lemma_entries_view_domain<K: View, V>(s: Seq<(K, V)>, k: K::V)
    ensures
        entries_view(s).contains_key(k) <==> exists|i: int| 0 <= i < s.len() && #[trigger] s[i].0@ == k,
    decreases s.len(),
{
    if s.len() > 0 {
        lemma_entries_view_domain(s.drop_last(), k);
        if entries_view(s.drop_last()).contains_key(k) {
            let i = choose|i: int| 0 <= i < s.drop_last().len() && #[trigger] s.drop_last()[i].0@ == k;
            assert(s[i].0@ == k);
        }
        if exists|i: int| 0 <= i < s.len() && #[trigger] s[i].0@ == k {
            let i = choose|i: int| 0 <= i < s.len() && #[trigger] s[i].0@ == k;
            if i < s.len() - 1 {
                assert(s.drop_last()[i].0@ == k);
            }
        }
    }
}

/// `i` is the last position that holds key `k`.
pub open spec fn last_with_key<K: View, V>(s: Seq<(K, V)>, i: int, k: K::V) -> bool {
    &&& 0 <= i < s.len()
    &&& s[i].0@ == k
    &&& forall|j: int| i < j < s.len() ==> #[trigger] s[j].0@ != k
}

pub proof fn lemma_entries_view_value<K: View, V>(s: Seq<(K, V)>, i: int, k: K::V)
    requires
        last_with_key(s, i, k),
    ensures
        entries_view(s).contains_key(k),
        entries_view(s)[k] == s[i].1,
    decreases s.len(),
{
    if i < s.len() - 1 {
        let t = s.drop_last();
        assert(s[s.len() - 1].0@ != k);
        assert forall|j: int| i < j < t.len() implies #[trigger] t[j].0@ != k by {
            assert(t[j] == s[j]);
        }
        lemma_entries_view_value(t, i, k);
    }
}

proof fn lemma_entries_view_update<K: View, V>(s: Seq<(K, V)>, i: int, k: K::V, e: (K, V))
    requires
        last_with_key(s, i, k),
        e.0@ == k,
    ensures
        entries_view(s.update(i, e)) == entries_view(s).insert(k, e.1),
    decreases s.len(),
{
    let u = s.update(i, e);
    if i == s.len() - 1 {
        assert(u.drop_last() == s.drop_last());
    } else {
        let t = s.drop_last();
        assert(u.drop_last() == t.update(i, e));
        assert forall|j: int| i < j < t.len() implies #[trigger] t[j].0@ != k by {
            assert(t[j] == s[j]);
        }
        lemma_entries_view_update(t, i, k, e);
        assert(s.last().0@ != k);
        assert(entries_view(u) =~= entries_view(s).insert(k, e.1));
    }
}

/// Entries viewed as the map from each key's view to its value.
#[derive(Debug)]
pub struct Table<K, V> {
    entries: Vec<(K, V)>,
}

impl<K: View, V> View for Table<K, V> {
    type V = Map<K::V, V>;

    closed spec fn view(&self) -> Map<K::V, V> {
        entries_view(self.entries@)
    }
}

impl<K: View, V> Table<K, V> {
    /// The entries in the order they are kept.
    pub closed spec fn items(&self) -> Seq<(K, V)> {
        self.entries@
    }
}

impl<K: TableKey, V> Table<K, V> {

    pub fn new() -> (r: Self)
        ensures
            r@ == Map::<K::V, V>::empty(),
            r.items().len() == 0,
    {
        Table { entries: Vec::new() }
    }

    pub fn len(&self) -> (r: usize)
        ensures
            r == self.items().len(),
    {
        self.entries.len()
    }

    /// The entry at position `i` in the order kept.
    pub fn entry_at(&self, i: usize) -> (r: &(K, V))
        requires
            i < self.items().len(),
        ensures
            *r == self.items()[i as int],
    {
        &self.entries[i]
    }

    fn find(&self, k: &K) -> (r: Option<usize>)
        ensures
            match r {
                Some(i) => last_with_key(self.entries@, i as int, k@),
                None => forall|i: int| 0 <= i < self.entries@.len() ==> #[trigger] self.entries@[i].0@ != k@,
            },
    {
        let mut i: usize = self.entries.len();
        while i > 0
            invariant
                i <= self.entries@.len(),
                forall|j: int| i <= j < self.entries@.len() ==> #[trigger] self.entries@[j].0@ != k@,
            decreases i,
        {
            if self.entries[i - 1].0.key_eq(k) {
                return Some(i - 1);
            }
            i = i - 1;
        }
        None
    }

    pub fn contains_key(&self, k: &K) -> (r: bool)
        ensures
            r == self@.contains_key(k@),
    {
        proof {
            lemma_entries_view_domain(self.entries@, k@);
        }
        self.find(k).is_some()
    }

    pub fn get(&self, k: &K) -> (r: Option<&V>)
        ensures
            match r {
                Some(v) => self@.contains_key(k@) && *v == self@[k@],
                None => !self@.contains_key(k@),
            },
    {
        proof {
            lemma_entries_view_domain(self.entries@, k@);
        }
        match self.find(k) {
            Some(i) => {
                proof {
                    lemma_entries_view_value(self.entries@, i as int, k@);
                }
                Some(&self.entries[i].1)
            },
            None => None,
        }
    }

    /// Sets the value of `k`, returning the value it replaced.
    pub fn insert(&mut self, k: K, v: V) -> (r: Option<V>)
        ensures
            final(self)@ == old(self)@.insert(k@, v),
            match r {
                Some(p) => old(self)@.contains_key(k@) && p == old(self)@[k@],
                None => !old(self)@.contains_key(k@),
            },
    {
        proof {
            lemma_entries_view_domain(self.entries@, k@);
        }
        let ghost s = self.entries@;
        let ghost kv = k@;
        match self.find(&k) {
            Some(i) => {
                proof {
                    lemma_entries_view_value(s, i as int, kv);
                }
                let (_, old_v) = self.entries.remove(i);
                self.entries.insert(i, (k, v));
                proof {
                    assert(self.entries@ == s.update(i as int, self.entries@[i as int]));
                    lemma_entries_view_update(s, i as int, kv, self.entries@[i as int]);
                }
                Some(old_v)
            },
            None => {
                self.entries.push((k, v));
                proof {
                    assert(self.entries@.drop_last() == s);
                }
                None
            },
        }
    }

    /// Copies every entry of `other` into this table, overwriting equal keys.
    pub fn extend_from(&mut self, other: &Table<K, V>)
        where V: Duplicate,
        ensures
            final(self)@ == old(self)@.union_prefer_right(other@),
    {
        let ghost start = self@;
        let ghost s = other.entries@;
        let mut i: usize = 0;
        while i < other.entries.len()
            invariant
                i <= s.len(),
                s == other.entries@,
                self@ == start.union_prefer_right(entries_view(s.take(i as int))),
            decreases s.len() - i,
        {
            let k = other.entries[i].0.duplicate();
            let v = other.entries[i].1.duplicate();
            self.insert(k, v);
            proof {
                assert(s.take(i + 1).drop_last() == s.take(i as int));
                assert(s.take(i + 1).last() == s[i as int]);
                assert(self@ =~= start.union_prefer_right(entries_view(s.take(i + 1))));
            }
            i = i + 1;
        }
        proof {
            assert(s.take(s.len() as int) == s);
        }
    }
}

} // verus!
