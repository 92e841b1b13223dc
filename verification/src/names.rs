//! A table from names to values in which no name occurs twice.
//!
//! The table is modelled by the sequence of its entries, in the order in which
//! their names first came in. Looking a name up, and every function that is
//! stated over a lookup, does not depend on that order.

use vstd::prelude::*;

verus! {

/// Whether no name occurs twice among `entries`.
pub open spec fn names_distinct<V>(entries: Seq<(Seq<char>, V)>) -> bool {
    forall|i: int, j: int| 0 <= i < j < entries.len() ==> entries[i].0 != entries[j].0
}

/// Whether `name` occurs among `entries`.
pub open spec fn has_name<V>(entries: Seq<(Seq<char>, V)>, name: Seq<char>) -> bool {
    exists|i: int| 0 <= i < entries.len() && entries[i].0 == name
}

/// A place at which `name` occurs among `entries`; the only one where the
/// names are distinct.
pub open spec fn place_of<V>(entries: Seq<(Seq<char>, V)>, name: Seq<char>) -> int {
    choose|i: int| 0 <= i < entries.len() && entries[i].0 == name
}

/// The value that `entries` give to `name`, if any.
pub open spec fn lookup<V>(entries: Seq<(Seq<char>, V)>, name: Seq<char>) -> Option<V> {
    if has_name(entries, name) {
        Some(entries[place_of(entries, name)].1)
    } else {
        None
    }
}

/// `entries` after `name` has been given `value`: the entry of that name is
/// replaced where there is one, and a new entry is added at the end otherwise.
pub open spec fn with_entry<V>(entries: Seq<(Seq<char>, V)>, name: Seq<char>, value: V) -> Seq<
    (Seq<char>, V),
> {
    if has_name(entries, name) {
        entries.update(place_of(entries, name), (name, value))
    } else {
        entries.push((name, value))
    }
}

/// The mapping that `entries` stand for.
pub open spec fn as_map<V>(entries: Seq<(Seq<char>, V)>) -> Map<Seq<char>, V> {
    Map::new(|name: Seq<char>| has_name(entries, name), |name: Seq<char>| lookup(entries, name)->0)
}

/// Where names are distinct, an entry is what a lookup of its name finds.
pub proof fn lemma_lookup_at<V>(entries: Seq<(Seq<char>, V)>, i: int)
    requires
        names_distinct(entries),
        0 <= i < entries.len(),
    ensures
        has_name(entries, entries[i].0),
        place_of(entries, entries[i].0) == i,
        lookup(entries, entries[i].0) == Some(entries[i].1),
{
    let name = entries[i].0;
    assert(0 <= i < entries.len() && entries[i].0 == name);
    let j = place_of(entries, name);
    assert(0 <= j < entries.len() && entries[j].0 == name);
    if j < i {
        assert(entries[j].0 != entries[i].0);
    } else if i < j {
        assert(entries[i].0 != entries[j].0);
    }
}

/// Giving a name a value keeps the names distinct, makes a lookup of that
/// name find the value, and leaves the lookup of every other name as it was.
pub proof fn lemma_with_entry<V>(entries: Seq<(Seq<char>, V)>, name: Seq<char>, value: V)
    requires
        names_distinct(entries),
    ensures
        names_distinct(with_entry(entries, name, value)),
        lookup(with_entry(entries, name, value), name) == Some(value),
        forall|other: Seq<char>|
            other != name ==> lookup(with_entry(entries, name, value), other) == lookup(
                entries,
                other,
            ),
        forall|other: Seq<char>|
            has_name(with_entry(entries, name, value), other) <==> (other == name || has_name(
                entries,
                other,
            )),
{
    let after = with_entry(entries, name, value);
    let at: int = if has_name(entries, name) {
        place_of(entries, name)
    } else {
        entries.len() as int
    };
    assert(0 <= at < after.len() && after[at] == (name, value));
    assert forall|i: int| 0 <= i < after.len() && i != at implies after[i] == entries[i]
        && after[i].0 != name by {
        if has_name(entries, name) {
            lemma_lookup_at(entries, at);
            if entries[i].0 == name {
                lemma_lookup_at(entries, i);
            }
        } else {
            if entries[i].0 == name {
                assert(has_name(entries, name));
            }
        }
    }
    assert(names_distinct(after));
    lemma_lookup_at(after, at);
    assert forall|other: Seq<char>| other != name implies lookup(after, other) == lookup(
        entries,
        other,
    ) by {
        if has_name(entries, other) {
            let k = place_of(entries, other);
            assert(k != at);
            assert(after[k] == entries[k]);
            lemma_lookup_at(entries, k);
            lemma_lookup_at(after, k);
        } else if has_name(after, other) {
            let k = place_of(after, other);
            assert(k != at);
            assert(entries[k].0 == other);
            assert(has_name(entries, other));
        }
    }
    assert forall|other: Seq<char>| has_name(after, other) <==> (other == name || has_name(
        entries,
        other,
    )) by {
        if other == name {
            assert(has_name(after, other));
        } else if has_name(entries, other) {
            let k = place_of(entries, other);
            assert(after[k].0 == other);
        } else if has_name(after, other) {
            let k = place_of(after, other);
            assert(entries[k].0 == other);
        }
    }
}

/// The mapping that entries stand for has their names, and gives each what a
/// lookup finds.
pub proof fn lemma_as_map<V>(entries: Seq<(Seq<char>, V)>, name: Seq<char>)
    ensures
        as_map(entries).dom().contains(name) == has_name(entries, name),
        has_name(entries, name) ==> lookup(entries, name) == Some(as_map(entries)[name]),
        !has_name(entries, name) ==> lookup(entries, name) == None::<V>,
{
}

/// Entries that stand for the same mapping have the same names, and a lookup
/// finds the same in both.
pub proof fn lemma_same_mapping<V>(first: Seq<(Seq<char>, V)>, second: Seq<(Seq<char>, V)>)
    requires
        as_map(first) == as_map(second),
    ensures
        forall|name: Seq<char>|
            has_name(first, name) == has_name(second, name) && lookup(first, name) == lookup(
                second,
                name,
            ),
{
    assert forall|name: Seq<char>|
        has_name(first, name) == has_name(second, name) && lookup(first, name) == lookup(
            second,
            name,
        ) by {
        lemma_as_map(first, name);
        lemma_as_map(second, name);
    }
}

/// Entries of distinct names stay of distinct names when one is taken out.
pub proof fn lemma_rest_distinct<V>(entries: Seq<(Seq<char>, V)>, at: int)
    requires
        names_distinct(entries),
        0 <= at < entries.len(),
    ensures
        names_distinct(entries.remove(at)),
{
    let rest = entries.remove(at);
    assert forall|i: int, j: int| 0 <= i < j < rest.len() implies rest[i].0 != rest[j].0 by {
        let from_i = if i < at {
            i
        } else {
            i + 1
        };
        let from_j = if j < at {
            j
        } else {
            j + 1
        };
        assert(rest[i] == entries[from_i] && rest[j] == entries[from_j]);
    }
}

/// Taking an entry out of entries of distinct names takes its name out, and
/// leaves the lookup of every other name as it was.
pub proof fn lemma_rest_lookup<V>(entries: Seq<(Seq<char>, V)>, at: int, name: Seq<char>)
    requires
        names_distinct(entries),
        0 <= at < entries.len(),
    ensures
        has_name(entries.remove(at), name) == (has_name(entries, name) && name != entries[at].0),
        name != entries[at].0 ==> lookup(entries.remove(at), name) == lookup(entries, name),
        name == entries[at].0 ==> lookup(entries.remove(at), name) == None::<V>,
{
    let rest = entries.remove(at);
    lemma_rest_distinct(entries, at);
    if has_name(rest, name) {
        let k = place_of(rest, name);
        let from = if k < at {
            k
        } else {
            k + 1
        };
        assert(rest[k] == entries[from]);
        assert(has_name(entries, name));
        lemma_lookup_at(entries, from);
        lemma_lookup_at(entries, at);
        lemma_lookup_at(rest, k);
    }
    if has_name(entries, name) && name != entries[at].0 {
        let k = place_of(entries, name);
        let to = if k < at {
            k
        } else {
            k - 1
        };
        assert(rest[to] == entries[k]);
        assert(has_name(rest, name));
        lemma_lookup_at(rest, to);
        lemma_lookup_at(entries, k);
    }
}

/// A table from names to values. No name occurs twice.
#[derive(Debug)]
pub struct NameMap<V> {
    entries: Vec<(String, V)>,
}

impl<V: Copy> Clone for NameMap<V> {
    /// A table with the same entries.
    fn clone(&self) -> (copy: Self)
        ensures
            copy@ == self@,
    {
        proof {
            use_type_invariant(self);
        }
        let mut entries: Vec<(String, V)> = Vec::new();
        let mut i: usize = 0;
        while i < self.entries.len()
            invariant
                i <= self.entries.len(),
                entries.len() == i,
                forall|k: int|
                    0 <= k < i ==> entries@[k].0@ == self.entries@[k].0@ && entries@[k].1
                        == self.entries@[k].1,
            decreases self.entries.len() - i,
        {
            entries.push((self.entries[i].0.clone(), self.entries[i].1));
            i += 1;
        }
        proof {
            let copied = Seq::new(entries@.len(), |k: int| (entries@[k].0@, entries@[k].1));
            assert(copied =~= self@);
        }
        NameMap { entries }
    }
}

impl<V> View for NameMap<V> {
    type V = Seq<(Seq<char>, V)>;

    /// The entries, each name as its characters.
    closed spec fn view(&self) -> Seq<(Seq<char>, V)> {
        Seq::new(self.entries@.len(), |i: int| (self.entries@[i].0@, self.entries@[i].1))
    }
}

impl<V> NameMap<V> {
    /// Every table keeps its names distinct.
    #[verifier::type_invariant]
    pub open spec fn well_formed(&self) -> bool {
        names_distinct(self@)
    }
}

impl<V: Copy> NameMap<V> {
    /// A table without entries.
    pub fn new() -> (table: Self)
        ensures
            table@ == Seq::<(Seq<char>, V)>::empty(),
    {
        let table = NameMap { entries: Vec::new() };
        assert(table@ =~= Seq::<(Seq<char>, V)>::empty());
        table
    }

    /// The number of entries.
    pub fn len(&self) -> (n: usize)
        ensures
            n == self@.len(),
            names_distinct(self@),
    {
        proof {
            use_type_invariant(self);
        }
        self.entries.len()
    }

    /// Whether the table has no entry.
    pub fn is_empty(&self) -> (empty: bool)
        ensures
            empty == (self@.len() == 0),
    {
        self.entries.len() == 0
    }

    /// The name and the value of the entry at `index`.
    pub fn entry(&self, index: usize) -> (found: (&String, V))
        requires
            index < self@.len(),
        ensures
            found.0@ == self@[index as int].0,
            found.1 == self@[index as int].1,
    {
        let item = &self.entries[index];
        (&item.0, item.1)
    }

    /// Where `name` stands among the entries, if it does.
    fn position(&self, name: &String) -> (at: Option<usize>)
        ensures
            names_distinct(self@),
            has_name(self@, name@) == at.is_some(),
            at matches Some(i) ==> i < self@.len() && i == place_of(self@, name@),
    {
        proof {
            use_type_invariant(self);
        }
        let mut i: usize = 0;
        while i < self.entries.len()
            invariant
                i <= self.entries.len(),
                names_distinct(self@),
                forall|k: int| 0 <= k < i ==> self@[k].0 != name@,
            decreases self.entries.len() - i,
        {
            if self.entries[i].0 == *name {
                proof {
                    lemma_lookup_at(self@, i as int);
                }
                return Some(i);
            }
            i += 1;
        }
        None
    }

    /// The value given to `name`, if any.
    pub fn get(&self, name: &str) -> (value: Option<V>)
        ensures
            value == lookup(self@, name@),
    {
        let wanted = name.to_owned();
        match self.position(&wanted) {
            Some(i) => Some(self.entries[i].1),
            None => None,
        }
    }

    /// Whether `name` has a value.
    pub fn contains_key(&self, name: &str) -> (present: bool)
        ensures
            present == has_name(self@, name@),
    {
        let wanted = name.to_owned();
        self.position(&wanted).is_some()
    }

    /// Gives `name` the value `value` and returns the value it had before.
    pub fn insert(&mut self, name: String, value: V) -> (before: Option<V>)
        ensures
            final(self)@ == with_entry(old(self)@, name@, value),
            before == lookup(old(self)@, name@),
            names_distinct(final(self)@),
    {
        proof {
            use_type_invariant(&*self);
            lemma_with_entry(self@, name@, value);
        }
        match self.position(&name) {
            Some(i) => {
                let before = self.entries[i].1;
                let mut entries: Vec<(String, V)> = Vec::new();
                std::mem::swap(&mut self.entries, &mut entries);
                entries[i] = (name, value);
                proof {
                    let changed = Seq::new(
                        entries@.len(),
                        |k: int| (entries@[k].0@, entries@[k].1),
                    );
                    assert(changed =~= with_entry(old(self)@, name@, value));
                }
                std::mem::swap(&mut self.entries, &mut entries);
                assert(self@ =~= with_entry(old(self)@, name@, value));
                Some(before)
            },
            None => {
                let mut entries: Vec<(String, V)> = Vec::new();
                std::mem::swap(&mut self.entries, &mut entries);
                entries.push((name, value));
                proof {
                    let grown = Seq::new(
                        entries@.len(),
                        |k: int| (entries@[k].0@, entries@[k].1),
                    );
                    assert(grown =~= with_entry(old(self)@, name@, value));
                }
                std::mem::swap(&mut self.entries, &mut entries);
                assert(self@ =~= with_entry(old(self)@, name@, value));
                None
            },
        }
    }

    /// Removes every entry.
    pub fn clear(&mut self)
        ensures
            final(self)@ == Seq::<(Seq<char>, V)>::empty(),
    {
        self.entries = Vec::new();
        assert(self@ =~= Seq::<(Seq<char>, V)>::empty());
    }

    /// The names, in the order of the entries.
    pub fn keys(&self) -> (names: Vec<String>)
        ensures
            names.len() == self@.len(),
            forall|i: int| 0 <= i < names.len() ==> names[i]@ == self@[i].0,
    {
        let mut names: Vec<String> = Vec::new();
        let mut i: usize = 0;
        while i < self.entries.len()
            invariant
                i <= self.entries.len(),
                names.len() == i,
                forall|k: int| 0 <= k < i ==> names[k]@ == self@[k].0,
            decreases self.entries.len() - i,
        {
            names.push(self.entries[i].0.clone());
            i += 1;
        }
        names
    }

    /// The values, in the order of the entries.
    pub fn values(&self) -> (values: Vec<V>)
        ensures
            values.len() == self@.len(),
            forall|i: int| 0 <= i < values.len() ==> values[i] == self@[i].1,
    {
        let mut values: Vec<V> = Vec::new();
        let mut i: usize = 0;
        while i < self.entries.len()
            invariant
                i <= self.entries.len(),
                values.len() == i,
                forall|k: int| 0 <= k < i ==> values[k] == self@[k].1,
            decreases self.entries.len() - i,
        {
            values.push(self.entries[i].1);
            i += 1;
        }
        values
    }
}

} // verus!
