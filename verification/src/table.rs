//! Tables keyed by name.
//!
//! A [`Table`] is a finite map from names to records and a [`NameSet`] a
//! finite set of names. Both are kept as a vector in which no name occurs
//! twice; their contracts speak of the map and of the set.

use vstd::prelude::*;

verus! {

/// Whether two strings hold the same characters.
pub fn str_eq(a: &str, b: &str) -> (r: bool)
    ensures
        r == (a@ == b@),
{
    let n = a.unicode_len();
    if n != b.unicode_len() {
        return false;
    }
    let mut i: usize = 0;
    while i < n
        invariant
            n == a@.len(),
            n == b@.len(),
            i <= n,
            forall|j: int| 0 <= j < i ==> a@[j] == b@[j],
        decreases n - i,
    {
        if a.get_char(i) != b.get_char(i) {
            return false;
        }
        i += 1;
    }
    assert(a@ =~= b@);
    true
}

/// A finite map from names to values of type `V`.
#[derive(Debug)]
pub struct Table<V> {
    entries: Vec<(String, V)>,
}

/// Whether the `i`-th entry is the one of the name `k`.
pub open spec fn key_at<V>(entries: Seq<(String, V)>, i: int, k: Seq<char>) -> bool {
    0 <= i < entries.len() && entries[i].0@ == k
}

/// Whether no name occurs twice in `entries`.
pub open spec fn distinct_keys<V>(entries: Seq<(String, V)>) -> bool {
    forall|i: int, j: int|
        0 <= i < entries.len() && 0 <= j < entries.len() && i != j ==> entries[i].0@
            != entries[j].0@
}

/// The names of the first `n` entries.
pub open spec fn prefix_names<V>(entries: Seq<(String, V)>, n: int) -> Set<Seq<char>> {
    Set::new(|k: Seq<char>| exists|i: int| 0 <= i < n && key_at(entries, i, k))
}

/// `n` entries with distinct names have `n` names.
pub proof fn lemma_prefix_names_len<V>(entries: Seq<(String, V)>, n: int)
    requires
        distinct_keys(entries),
        0 <= n <= entries.len(),
    ensures
        prefix_names(entries, n).finite(),
        prefix_names(entries, n).len() == n,
    decreases n,
{
    if n == 0 {
        assert(prefix_names(entries, n) =~= Set::empty());
    } else {
        lemma_prefix_names_len(entries, n - 1);
        let smaller = prefix_names(entries, n - 1);
        assert(key_at(entries, n - 1, entries[n - 1].0@));
        assert(prefix_names(entries, n) =~= smaller.insert(entries[n - 1].0@));
        assert(!smaller.contains(entries[n - 1].0@));
    }
}

/// The map that `entries` denote: each value under its name.
pub open spec fn entries_map<V>(entries: Seq<(String, V)>) -> Map<Seq<char>, V> {
    Map::new(
        |k: Seq<char>| exists|i: int| key_at(entries, i, k),
        |k: Seq<char>| entries[choose|i: int| key_at(entries, i, k)].1,
    )
}

/// The last of a sequence of entries with distinct names adds its name and
/// value to the map of the others.
pub proof fn lemma_entries_map_last<V>(entries: Seq<(String, V)>)
    requires
        distinct_keys(entries),
        entries.len() > 0,
    ensures
        distinct_keys(entries.drop_last()),
        !entries_map(entries.drop_last()).contains_key(entries.last().0@),
        entries_map(entries) == entries_map(entries.drop_last()).insert(
            entries.last().0@,
            entries.last().1,
        ),
{
    let init = entries.drop_last();
    let n = entries.len() - 1;
    let k = entries.last().0@;
    assert forall|i: int, j: int|
        0 <= i < init.len() && 0 <= j < init.len() && i != j implies init[i].0@ != init[j].0@ by {
        assert(init[i] == entries[i]);
        assert(init[j] == entries[j]);
    }
    if entries_map(init).contains_key(k) {
        let i = choose|i: int| key_at(init, i, k);
        assert(entries[i] == init[i]);
        assert(entries[n].0@ == k);
    }
    let target = entries_map(init).insert(k, entries.last().1);
    assert forall|q: Seq<char>| #[trigger]
        entries_map(entries).contains_key(q) == target.contains_key(q) by {
        if entries_map(entries).contains_key(q) && q != k {
            let i = choose|i: int| key_at(entries, i, q);
            assert(key_at(init, i, q));
        }
        if entries_map(init).contains_key(q) {
            let i = choose|i: int| key_at(init, i, q);
            assert(key_at(entries, i, q));
        }
        assert(key_at(entries, n, k));
    }
    assert forall|q: Seq<char>| entries_map(entries).contains_key(q) implies #[trigger] entries_map(
        entries,
    )[q] == target[q] by {
        let i = choose|i: int| key_at(entries, i, q);
        if q == k {
            assert(i == n);
        } else {
            assert(key_at(init, i, q));
            let j = choose|j: int| key_at(init, j, q);
            assert(init[j] == entries[j]);
            assert(i == j);
        }
    }
    assert(entries_map(entries).dom() =~= target.dom());
    assert(entries_map(entries) =~= target);
}

impl<V> Table<V> {
    /// The invariant of the representation: no name twice.
    #[verifier::type_invariant]
    spec fn distinct(&self) -> bool {
        distinct_keys(self.entries@)
    }

    /// The values of the table, each under its name.
    pub closed spec fn items(&self) -> Map<Seq<char>, V> {
        entries_map(self.entries@)
    }

    /// The names of the table.
    pub open spec fn names(&self) -> Set<Seq<char>> {
        self.items().dom()
    }

    /// The values of the table by their views, each under its name.
    pub open spec fn view_as<M>(&self, model: spec_fn(V) -> M) -> Map<Seq<char>, M> {
        self.items().map_values(model)
    }

    /// An empty table.
    pub fn new() -> (t: Self)
        ensures
            t.items() == Map::<Seq<char>, V>::empty(),
    {
        let t = Table { entries: Vec::new() };
        assert(t.items() =~= Map::<Seq<char>, V>::empty());
        t
    }

    /// The number of names in the table.
    pub fn len(&self) -> (n: usize)
        ensures
            self.names().finite(),
            n == self.names().len(),
    {
        proof {
            use_type_invariant(self);
            lemma_prefix_names_len(self.entries@, self.entries.len() as int);
            assert(self.names() =~= prefix_names(self.entries@, self.entries.len() as int));
        }
        self.entries.len()
    }

    /// The place of `key` among the entries, if it has one.
    fn position(&self, key: &str) -> (r: Option<usize>)
        ensures
            match r {
                Some(i) => key_at(self.entries@, i as int, key@),
                None => forall|i: int| !key_at(self.entries@, i, key@),
            },
    {
        let mut i: usize = 0;
        while i < self.entries.len()
            invariant
                i <= self.entries.len(),
                forall|j: int| 0 <= j < i ==> self.entries[j].0@ != key@,
            decreases self.entries.len() - i,
        {
            if str_eq(self.entries[i].0.as_str(), key) {
                return Some(i);
            }
            i += 1;
        }
        None
    }

    /// Whether `key` is a name of the table.
    pub fn contains_key(&self, key: &str) -> (b: bool)
        ensures
            b == self.items().contains_key(key@),
    {
        self.position(key).is_some()
    }

    /// The value recorded for `key`.
    pub fn get(&self, key: &str) -> (r: Option<&V>)
        ensures
            r.is_some() == self.items().contains_key(key@),
            r.is_some() ==> *r.unwrap() == self.items()[key@],
    {
        match self.position(key) {
            Some(i) => {
                proof {
                    use_type_invariant(self);
                    let j = choose|j: int| key_at(self.entries@, j, key@);
                    assert(j == i);
                }
                Some(&self.entries[i].1)
            },
            None => None,
        }
    }

    /// Records `value` for `key`, in place of what was recorded for it before.
    pub fn insert(&mut self, key: String, value: V)
        ensures
            final(self).items() == old(self).items().insert(key@, value),
    {
        let ghost k = key@;
        let ghost before = self.entries@;
        proof {
            use_type_invariant(&*self);
        }
        match self.position(key.as_str()) {
            Some(i) => {
                let mut entries: Vec<(String, V)> = Vec::new();
                core::mem::swap(&mut self.entries, &mut entries);
                entries[i] = (key, value);
                assert forall|a: int, b: int|
                    0 <= a < entries.len() && 0 <= b < entries.len() && a != b implies entries[a].0@
                    != entries[b].0@ by {
                    assert(entries[a].0@ == before[a].0@);
                    assert(entries[b].0@ == before[b].0@);
                }
                core::mem::swap(&mut self.entries, &mut entries);
                assert forall|q: Seq<char>| #[trigger]
                    self.items().contains_key(q) == old(self).items().insert(k, value).contains_key(
                        q,
                    ) by {
                    if self.items().contains_key(q) {
                        let j = choose|j: int| key_at(self.entries@, j, q);
                        assert(key_at(before, j, q));
                    }
                    if old(self).items().contains_key(q) {
                        let j = choose|j: int| key_at(before, j, q);
                        assert(key_at(self.entries@, j, q));
                    }
                    assert(key_at(self.entries@, i as int, k));
                }
                assert forall|q: Seq<char>| self.items().contains_key(q) implies #[trigger] self.items()[q]
                    == old(self).items().insert(k, value)[q] by {
                    let j = choose|j: int| key_at(self.entries@, j, q);
                    if q == k {
                        assert(j == i);
                    } else {
                        assert(key_at(before, j, q));
                        let j0 = choose|j0: int| key_at(before, j0, q);
                        assert(j0 == j);
                    }
                }
                assert(self.items().dom() =~= old(self).items().insert(k, value).dom());
                assert(self.items() =~= old(self).items().insert(k, value));
            },
            None => {
                // The vector is grown outside the table, which holds an empty
                // one meanwhile.
                let mut entries: Vec<(String, V)> = Vec::new();
                core::mem::swap(&mut self.entries, &mut entries);
                entries.push((key, value));
                assert forall|a: int, b: int|
                    0 <= a < entries.len() && 0 <= b < entries.len() && a != b implies entries[a].0@
                    != entries[b].0@ by {
                    if a == before.len() {
                        assert(!key_at(before, b, k));
                    } else if b == before.len() {
                        assert(!key_at(before, a, k));
                    } else {
                        assert(entries[a] == before[a]);
                        assert(entries[b] == before[b]);
                    }
                }
                core::mem::swap(&mut self.entries, &mut entries);
                let ghost n = before.len() as int;
                assert(key_at(self.entries@, n, k));
                assert forall|q: Seq<char>| #[trigger]
                    self.items().contains_key(q) == old(self).items().insert(k, value).contains_key(
                        q,
                    ) by {
                    if old(self).items().contains_key(q) {
                        let j = choose|j: int| key_at(before, j, q);
                        assert(key_at(self.entries@, j, q));
                    }
                    if self.items().contains_key(q) && q != k {
                        let j = choose|j: int| key_at(self.entries@, j, q);
                        assert(key_at(before, j, q));
                    }
                }
                assert forall|q: Seq<char>| self.items().contains_key(q) implies #[trigger] self.items()[q]
                    == old(self).items().insert(k, value)[q] by {
                    let j = choose|j: int| key_at(self.entries@, j, q);
                    if q == k {
                        assert(j == n);
                    } else {
                        assert(key_at(before, j, q));
                        let j0 = choose|j0: int| key_at(before, j0, q);
                        assert(j0 == j);
                    }
                }
                assert(self.items().dom() =~= old(self).items().insert(k, value).dom());
                assert(self.items() =~= old(self).items().insert(k, value));
            },
        }
    }

    /// Takes `key` and what is recorded for it out of the table.
    pub fn remove(&mut self, key: &str) -> (r: Option<V>)
        ensures
            final(self).items() == old(self).items().remove(key@),
            r.is_some() == old(self).items().contains_key(key@),
            r.is_some() ==> r.unwrap() == old(self).items()[key@],
    {
        let ghost k = key@;
        let ghost before = self.entries@;
        proof {
            use_type_invariant(&*self);
        }
        match self.position(key) {
            Some(i) => {
                proof {
                    let j = choose|j: int| key_at(before, j, k);
                    assert(j == i);
                }
                let ghost last = before.len() - 1;
                // Where each remaining entry stood before.
                let ghost origin = |j: int| if j == i { last } else { j };
                let mut entries: Vec<(String, V)> = Vec::new();
                core::mem::swap(&mut self.entries, &mut entries);
                let entry = entries.swap_remove(i);
                assert forall|a: int, b: int|
                    0 <= a < entries.len() && 0 <= b < entries.len() && a != b implies entries[a].0@
                    != entries[b].0@ by {
                    assert(entries[a] == before[origin(a)]);
                    assert(entries[b] == before[origin(b)]);
                }
                core::mem::swap(&mut self.entries, &mut entries);
                assert forall|q: Seq<char>| #[trigger]
                    self.items().contains_key(q) == old(self).items().remove(k).contains_key(q) by {
                    if self.items().contains_key(q) {
                        let j = choose|j: int| key_at(self.entries@, j, q);
                        assert(key_at(before, origin(j), q));
                    }
                    if old(self).items().contains_key(q) && q != k {
                        let j = choose|j: int| key_at(before, j, q);
                        if j == last {
                            assert(key_at(self.entries@, i as int, q));
                        } else {
                            assert(key_at(self.entries@, j, q));
                        }
                    }
                }
                assert forall|q: Seq<char>| self.items().contains_key(q) implies #[trigger] self.items()[q]
                    == old(self).items().remove(k)[q] by {
                    let j = choose|j: int| key_at(self.entries@, j, q);
                    assert(key_at(before, origin(j), q));
                    let j0 = choose|j0: int| key_at(before, j0, q);
                    assert(j0 == origin(j));
                }
                assert(self.items().dom() =~= old(self).items().remove(k).dom());
                assert(self.items() =~= old(self).items().remove(k));
                Some(entry.1)
            },
            None => {
                assert(self.items() =~= old(self).items().remove(k));
                None
            },
        }
    }

    /// Records every entry of `other`, each in place of what was recorded
    /// for its name before.
    pub fn extend(&mut self, other: Table<V>)
        ensures
            final(self).items() == old(self).items().union_prefer_right(other.items()),
    {
        proof {
            use_type_invariant(&other);
        }
        let ghost target = old(self).items().union_prefer_right(other.items());
        let mut rest = other.entries;
        assert(self.items().union_prefer_right(entries_map(rest@)) =~= target);
        while rest.len() > 0
            invariant
                distinct_keys(rest@),
                self.items().union_prefer_right(entries_map(rest@)) == target,
            decreases rest.len(),
        {
            let ghost before = rest@;
            let ghost mine = self.items();
            proof {
                lemma_entries_map_last(before);
            }
            let entry = rest.pop().unwrap();
            assert(rest@ =~= before.drop_last());
            self.insert(entry.0, entry.1);
            assert(self.items().union_prefer_right(entries_map(rest@)) =~= mine.union_prefer_right(
                entries_map(before),
            ));
        }
        assert(entries_map(rest@) =~= Map::<Seq<char>, V>::empty());
        assert(self.items().union_prefer_right(entries_map(rest@)) =~= self.items());
    }

    /// Adds every name of the table to `set`.
    pub fn add_names_to(&self, set: &mut NameSet)
        ensures
            final(set)@ == old(set)@.union(self.names()),
    {
        proof {
            use_type_invariant(self);
        }
        let mut i: usize = 0;
        assert(old(set)@.union(prefix_names(self.entries@, 0)) =~= old(set)@);
        while i < self.entries.len()
            invariant
                i <= self.entries.len(),
                set@ == old(set)@.union(prefix_names(self.entries@, i as int)),
            decreases self.entries.len() - i,
        {
            set.insert(self.entries[i].0.clone());
            assert(key_at(self.entries@, i as int, self.entries[i as int].0@));
            assert(set@ =~= old(set)@.union(prefix_names(self.entries@, i + 1)));
            i += 1;
        }
        assert(self.names() =~= prefix_names(self.entries@, self.entries.len() as int));
    }
}

/// A finite set of names.
#[derive(Debug)]
pub struct NameSet {
    names: Table<()>,
}

impl View for NameSet {
    type V = Set<Seq<char>>;

    closed spec fn view(&self) -> Set<Seq<char>> {
        self.names.names()
    }
}

impl NameSet {
    /// The empty set.
    pub fn new() -> (s: Self)
        ensures
            s@ == Set::<Seq<char>>::empty(),
    {
        let s = NameSet { names: Table::new() };
        assert(s@ =~= Set::<Seq<char>>::empty());
        s
    }

    /// Whether `name` is in the set.
    pub fn contains(&self, name: &str) -> (b: bool)
        ensures
            b == self@.contains(name@),
    {
        self.names.contains_key(name)
    }

    /// Adds `name` to the set.
    pub fn insert(&mut self, name: String)
        ensures
            final(self)@ == old(self)@.insert(name@),
    {
        self.names.insert(name, ());
        assert(self@ =~= old(self)@.insert(name@));
    }
}

} // verus!
