//! Maps from names to values, kept in the order in which names were first
//! inserted.
use vstd::prelude::*;

verus! {

/// Whether no two entries of `s` share a name.
pub open spec fn distinct_names<V>(s: Seq<(Seq<char>, V)>) -> bool {
    forall|i: int, j: int| 0 <= i < j < s.len() ==> s[i].0 != s[j].0
}

/// The position of the entry named `key` in `s`, if there is one (the first
/// such entry).
pub open spec fn position_of<V>(s: Seq<(Seq<char>, V)>, key: Seq<char>) -> Option<int>
    decreases s.len(),
{
    if s.len() == 0 {
        None
    } else if s.last().0 == key && position_of(s.drop_last(), key) is None {
        Some(s.len() - 1)
    } else {
        position_of(s.drop_last(), key)
    }
}

/// The value named `key` in `s`, if there is one.
pub open spec fn lookup<V>(s: Seq<(Seq<char>, V)>, key: Seq<char>) -> Option<V> {
    match position_of(s, key) {
        Some(i) => Some(s[i].1),
        None => None,
    }
}

/// `s` after inserting `value` under `key`: the value of an existing entry
/// named `key` is replaced; otherwise the entry is appended.
pub open spec fn inserted<V>(s: Seq<(Seq<char>, V)>, key: Seq<char>, value: V) -> Seq<(Seq<char>, V)> {
    match position_of(s, key) {
        Some(i) => s.update(i, (key, value)),
        None => s.push((key, value)),
    }
}

/// The names of `s`, in order.
pub open spec fn names_of<V>(s: Seq<(Seq<char>, V)>) -> Seq<Seq<char>> {
    s.map_values(|e: (Seq<char>, V)| e.0)
}

/// Facts about [`position_of`].
pub proof fn lemma_position_of<V>(s: Seq<(Seq<char>, V)>, key: Seq<char>)
    ensures
        position_of(s, key) matches Some(i) ==> 0 <= i < s.len() && s[i].0 == key && forall|j: int|
            0 <= j < i ==> s[j].0 != key,
        position_of(s, key) is None ==> forall|j: int| 0 <= j < s.len() ==> s[j].0 != key,
    decreases s.len(),
{
    if s.len() > 0 {
        let t = s.drop_last();
        lemma_position_of(t, key);
        assert(forall|j: int| 0 <= j < t.len() ==> t[j] == s[j]);
    }
}

/// A position of an entry with that name, and no earlier one, is the position.
pub proof fn lemma_position_is<V>(s: Seq<(Seq<char>, V)>, key: Seq<char>, i: int)
    requires
        0 <= i < s.len(),
        s[i].0 == key,
        forall|j: int| 0 <= j < i ==> s[j].0 != key,
    ensures
        position_of(s, key) == Some(i),
    decreases s.len(),
{
    lemma_position_of(s, key);
    if i < s.len() - 1 {
        lemma_position_is(s.drop_last(), key, i);
    } else {
        lemma_position_of(s.drop_last(), key);
    }
}

/// A name absent from every entry has no position.
pub proof fn lemma_position_none<V>(s: Seq<(Seq<char>, V)>, key: Seq<char>)
    requires
        forall|j: int| 0 <= j < s.len() ==> s[j].0 != key,
    ensures
        position_of(s, key) is None,
{
    lemma_position_of(s, key);
}

/// Reading after an insertion: the name inserted gives the value inserted,
/// every other name gives what it gave before, and the names stay distinct.
pub proof fn law_lookup_after_insert<V>(s: Seq<(Seq<char>, V)>, key: Seq<char>, value: V, other: Seq<char>)
    requires
        distinct_names(s),
    ensures
        lookup(inserted(s, key, value), key) == Some(value),
        other != key ==> lookup(inserted(s, key, value), other) == lookup(s, other),
        distinct_names(inserted(s, key, value)),
        names_of(s).to_set().insert(key) == names_of(inserted(s, key, value)).to_set(),
{
    let t = inserted(s, key, value);
    lemma_position_of(s, key);
    lemma_position_of(s, other);
    match position_of(s, key) {
        Some(i) => {
            assert(forall|j: int| 0 <= j < s.len() ==> t[j].0 == s[j].0);
            lemma_position_is(t, key, i);
            match position_of(s, other) {
                Some(k) => {
                    if other != key {
                        lemma_position_is(t, other, k);
                    }
                },
                None => {
                    lemma_position_none(t, other);
                },
            }
            assert(names_of(t) =~= names_of(s));
            assert(names_of(s).contains(key)) by {
                assert(names_of(s)[i] == key);
            }
            assert(names_of(s).to_set().insert(key) =~= names_of(t).to_set());
        },
        None => {
            assert(forall|j: int| 0 <= j < s.len() ==> t[j] == s[j]);
            lemma_position_is(t, key, s.len() as int);
            match position_of(s, other) {
                Some(k) => {
                    lemma_position_is(t, other, k);
                },
                None => {
                    if other != key {
                        lemma_position_none(t, other);
                    }
                },
            }
            assert(names_of(t) =~= names_of(s).push(key));
            assert(names_of(s).to_set().insert(key) =~= names_of(t).to_set()) by {
                assert forall|n: Seq<char>| names_of(t).to_set().contains(n) implies names_of(
                    s,
                ).to_set().insert(key).contains(n) by {
                    let j = choose|j: int| 0 <= j < names_of(t).len() && names_of(t)[j] == n;
                    if j < s.len() {
                        assert(names_of(s)[j] == n);
                    }
                }
                assert forall|n: Seq<char>| names_of(s).to_set().insert(key).contains(n) implies names_of(
                    t,
                ).to_set().contains(n) by {
                    if n == key {
                        assert(names_of(t)[s.len() as int] == key);
                    } else {
                        let j = choose|j: int| 0 <= j < names_of(s).len() && names_of(s)[j] == n;
                        assert(names_of(t)[j] == n);
                    }
                }
            }
        },
    }
}

/// A map from names to values. Each name occurs at most once; entries keep
/// the order in which their names were first inserted.
#[derive(Debug)]
pub struct NamedMap<V> {
    entries: Vec<(String, V)>,
}

impl<V> View for NamedMap<V> {
    type V = Seq<(Seq<char>, V)>;

    closed spec fn view(&self) -> Seq<(Seq<char>, V)> {
        self.entries@.map_values(|e: (String, V)| (e.0@, e.1))
    }
}

impl<V> NamedMap<V> {
    #[verifier::type_invariant]
    spec fn inv(self) -> bool {
        distinct_names(self@)
    }

    /// The empty map.
    pub fn new() -> (m: NamedMap<V>)
        ensures
            m@ == Seq::<(Seq<char>, V)>::empty(),
    {
        let m = NamedMap { entries: Vec::new() };
        assert(m@ =~= Seq::<(Seq<char>, V)>::empty());
        m
    }

    /// The map holding `entries`, provided their names are distinct.
    pub fn from_entries(entries: Vec<(String, V)>) -> (m: Option<NamedMap<V>>)
        ensures
            m is Some <==> distinct_names(entries@.map_values(|e: (String, V)| (e.0@, e.1))),
            m matches Some(m) ==> m@ == entries@.map_values(|e: (String, V)| (e.0@, e.1)),
    {
        let ghost s = entries@.map_values(|e: (String, V)| (e.0@, e.1));
        let n = entries.len();
        let mut i: usize = 0;
        while i < n
            invariant
                n == entries@.len(),
                s == entries@.map_values(|e: (String, V)| (e.0@, e.1)),
                i <= n,
                forall|a: int, b: int| 0 <= a < b < n && a < i ==> s[a].0 != s[b].0,
            decreases n - i,
        {
            let mut j: usize = i + 1;
            while j < n
                invariant
                    n == entries@.len(),
                    s == entries@.map_values(|e: (String, V)| (e.0@, e.1)),
                    i < n,
                    i < j <= n,
                    forall|a: int, b: int| 0 <= a < b < n && a < i ==> s[a].0 != s[b].0,
                    forall|b: int| i < b < j ==> s[i as int].0 != s[b].0,
                decreases n - j,
            {
                if entries[i].0 == entries[j].0 {
                    assert(s[i as int].0 == s[j as int].0);
                    assert(!distinct_names(s));
                    return None;
                }
                j = j + 1;
            }
            i = i + 1;
        }
        Some(NamedMap { entries })
    }

    /// The entries, in order.
    pub fn into_entries(self) -> (entries: Vec<(String, V)>)
        ensures
            entries@.map_values(|e: (String, V)| (e.0@, e.1)) == self@,
            distinct_names(self@),
    {
        proof {
            use_type_invariant(&self);
        }
        self.entries
    }

    /// The number of entries.
    pub fn len(&self) -> (n: usize)
        ensures
            n == self@.len(),
            distinct_names(self@),
    {
        proof {
            use_type_invariant(self);
        }
        self.entries.len()
    }

    /// Whether there are no entries.
    pub fn is_empty(&self) -> (r: bool)
        ensures
            r == (self@.len() == 0),
    {
        self.entries.len() == 0
    }

    /// The name of the entry at `i`.
    pub fn name_at(&self, i: usize) -> (k: &String)
        requires
            i < self@.len(),
        ensures
            k@ == self@[i as int].0,
    {
        &self.entries[i].0
    }

    /// The value of the entry at `i`.
    pub fn value_at(&self, i: usize) -> (v: &V)
        requires
            i < self@.len(),
        ensures
            *v == self@[i as int].1,
    {
        &self.entries[i].1
    }

    /// The position of the entry named `key`.
    pub fn find(&self, key: &str) -> (r: Option<usize>)
        ensures
            match position_of(self@, key@) {
                Some(i) => r == Some(i as usize),
                None => r is None,
            },
    {
        let k = key.to_owned();
        let n = self.entries.len();
        let mut i: usize = 0;
        while i < n
            invariant
                n == self@.len(),
                k@ == key@,
                i <= n,
                forall|j: int| 0 <= j < i ==> self@[j].0 != key@,
            decreases n - i,
        {
            if self.entries[i].0 == k {
                proof {
                    lemma_position_is(self@, key@, i as int);
                }
                return Some(i);
            }
            i = i + 1;
        }
        proof {
            lemma_position_none(self@, key@);
        }
        None
    }

    /// Whether an entry is named `key`.
    pub fn contains_key(&self, key: &str) -> (r: bool)
        ensures
            r == (lookup(self@, key@) is Some),
    {
        self.find(key).is_some()
    }

    /// The value named `key`.
    pub fn get(&self, key: &str) -> (r: Option<&V>)
        ensures
            match lookup(self@, key@) {
                Some(v) => r == Some(&v),
                None => r is None,
            },
    {
        proof {
            lemma_position_of(self@, key@);
        }
        let found = self.find(key);
        match found {
            Some(i) => {
                let n = self.entries.len();
                assert(self@.len() == n);
                assert(position_of(self@, key@) == Some(i as int));
                assert(self@[i as int].1 == self.entries@[i as int].1);
                Some(&self.entries[i].1)
            },
            None => None,
        }
    }

    /// Inserts `value` under `key`, replacing the value of an entry already
    /// named `key` (whose position is kept) and returning the value replaced.
    pub fn insert(&mut self, key: String, value: V) -> (old_value: Option<V>)
        ensures
            final(self)@ == inserted(old(self)@, key@, value),
            old_value == lookup(old(self)@, key@),
    {
        proof {
            use_type_invariant(&*self);
            lemma_position_of(self@, key@);
        }
        let found = self.find(key.as_str());
        match found {
            Some(i) => {
                let n = self.entries.len();
                assert(old(self)@.len() == n);
                assert(position_of(old(self)@, key@) == Some(i as int));
                let mut entries = Vec::new();
                std::mem::swap(&mut entries, &mut self.entries);
                let ghost k = key@;
                let old_entry = entries.remove(i);
                assert(old_entry.1 == old(self)@[i as int].1);
                entries.insert(i, (key, value));
                let ghost s = entries@.map_values(|e: (String, V)| (e.0@, e.1));
                assert(s =~= inserted(old(self)@, k, value));
                assert(distinct_names(s)) by {
                    assert forall|a: int, b: int| 0 <= a < b < s.len() implies s[a].0 != s[b].0 by {
                        assert(s[a].0 == old(self)@[a].0);
                        assert(s[b].0 == old(self)@[b].0);
                    }
                }
                self.entries = entries;
                Some(old_entry.1)
            },
            None => {
                let mut entries = Vec::new();
                std::mem::swap(&mut entries, &mut self.entries);
                let ghost k = key@;
                entries.push((key, value));
                assert(entries@.map_values(|e: (String, V)| (e.0@, e.1)) =~= old(self)@.push((k, value)));
                self.entries = entries;
                None
            },
        }
    }
}

impl<V: Clone> Clone for NamedMap<V> {
    /// A copy with the same names, in the same order, and each value cloned.
    fn clone(&self) -> (c: NamedMap<V>)
        ensures
            names_of(c@) == names_of(self@),
            c@.len() == self@.len(),
            forall|i: int| 0 <= i < self@.len() ==> cloned(#[trigger] self@[i].1, c@[i].1),
    {
        proof {
            use_type_invariant(self);
        }
        let n = self.entries.len();
        let mut entries: Vec<(String, V)> = Vec::new();
        let mut i: usize = 0;
        while i < n
            invariant
                n == self@.len(),
                i <= n,
                entries@.len() == i,
                distinct_names(self@),
                forall|j: int| 0 <= j < i ==> (#[trigger] entries@[j]).0@ == self@[j].0,
                forall|j: int| 0 <= j < i ==> cloned(self@[j].1, #[trigger] entries@[j].1),
            decreases n - i,
        {
            let k = self.entries[i].0.clone();
            let v = self.entries[i].1.clone();
            assert(self.entries@[i as int].1 == self@[i as int].1);
            entries.push((k, v));
            i = i + 1;
        }
        let c = NamedMap { entries };
        assert(names_of(c@) =~= names_of(self@));
        c
    }
}

} // verus!
