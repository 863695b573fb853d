//! Name-keyed tables. The runtime keeps every mapping (scope variables,
//! module functions, registered modules, object fields) in an association
//! vector with unique keys, viewed as a `Map` from key characters to values.

use crate::ast::Name;
use vstd::prelude::*;

verus! {

/// The map an entry sequence denotes: later entries win, though a
/// well-formed table never holds two entries with the same key.
pub open spec fn entries_view<V>(s: Seq<(Name, V)>) -> Map<Seq<char>, V>
    decreases s.len(),
{
    if s.len() == 0 {
        Map::empty()
    } else {
        entries_view(s.drop_last()).insert(s.last().0@, s.last().1)
    }
}

/// No two entries share a key.
pub open spec fn unique_keys<V>(s: Seq<(Name, V)>) -> bool {
    forall|i: int, j: int| 0 <= i < j < s.len() ==> s[i].0@ != s[j].0@
}

pub proof fn lemma_entries_view_dom<V>(s: Seq<(Name, V)>, k: Seq<char>)
    ensures
        entries_view(s).contains_key(k) <==> exists|i: int| 0 <= i < s.len() && s[i].0@ == k,
    decreases s.len(),
{
    if s.len() > 0 {
        lemma_entries_view_dom(s.drop_last(), k);
        if s.last().0@ == k {
            assert(s[s.len() - 1].0@ == k);
        } else if entries_view(s).contains_key(k) {
            let i = choose|i: int| 0 <= i < s.drop_last().len() && s.drop_last()[i].0@ == k;
            assert(s[i].0@ == k);
        } else if exists|i: int| 0 <= i < s.len() && s[i].0@ == k {
            let i = choose|i: int| 0 <= i < s.len() && s[i].0@ == k;
            assert(s.drop_last()[i].0@ == k);
        }
    }
}

pub proof fn lemma_entries_view_at<V>(s: Seq<(Name, V)>, i: int)
    requires
        unique_keys(s),
        0 <= i < s.len(),
    ensures
        entries_view(s).contains_key(s[i].0@),
        entries_view(s)[s[i].0@] == s[i].1,
    decreases s.len(),
{
    if i < s.len() - 1 {
        lemma_entries_view_at(s.drop_last(), i);
        assert(s.drop_last()[i] == s[i]);
        assert(s.last().0@ != s[i].0@);
    }
}

pub proof fn lemma_entries_view_update<V>(s: Seq<(Name, V)>, i: int, name: Name, value: V)
    requires
        unique_keys(s),
        0 <= i < s.len(),
        name@ == s[i].0@,
    ensures
        entries_view(s.update(i, (name, value))) =~= entries_view(s).insert(name@, value),
        unique_keys(s.update(i, (name, value))),
    decreases s.len(),
{
    let t = s.update(i, (name, value));
    if i == s.len() - 1 {
        assert(t.drop_last() =~= s.drop_last());
    } else {
        lemma_entries_view_update(s.drop_last(), i, name, value);
        assert(t.drop_last() =~= s.drop_last().update(i, (name, value)));
        assert(t.last() == s.last());
        assert(s.last().0@ != name@);
    }
}

/// An association table keyed by `Name`. Its view is the map from key
/// characters to values; `wf` says the keys are pairwise distinct.
pub struct NameTable<V> {
    pub entries: Vec<(Name, V)>,
}

impl<V> View for NameTable<V> {
    type V = Map<Seq<char>, V>;

    open spec fn view(&self) -> Map<Seq<char>, V> {
        entries_view(self.entries@)
    }
}

impl<V> NameTable<V> {
    pub open spec fn wf(&self) -> bool {
        unique_keys(self.entries@)
    }

    pub fn new() -> (r: NameTable<V>)
        ensures
            r@ == Map::<Seq<char>, V>::empty(),
            r.wf(),
    {
        NameTable { entries: Vec::new() }
    }

    pub fn get(&self, name: &Name) -> (r: Option<&V>)
        requires
            self.wf(),
        ensures
            match r {
                Some(v) => self@.contains_key(name@) && *v == self@[name@],
                None => !self@.contains_key(name@),
            },
    {
        let n = self.entries.len();
        let mut i: usize = 0;
        while i < n
            invariant
                n == self.entries@.len(),
                self.wf(),
                forall|j: int| 0 <= j < i ==> self.entries@[j].0@ != name@,
            decreases n - i,
        {
            if self.entries[i].0 == *name {
                proof {
                    lemma_entries_view_at(self.entries@, i as int);
                }
                return Some(&self.entries[i].1);
            }
            i += 1;
        }
        proof {
            lemma_entries_view_dom(self.entries@, name@);
        }
        None
    }

    /// Mutable access to the value a key holds. The table afterwards maps
    /// the key to whatever the caller wrote through the reference.
    pub fn get_mut(&mut self, name: &Name) -> (r: Option<&mut V>)
        requires
            old(self).wf(),
        ensures
            match r {
                Some(v) => old(self)@.contains_key(name@) && *v == old(self)@[name@]
                    && final(self).wf() && final(self)@ == old(self)@.insert(name@, *final(v)),
                None => !old(self)@.contains_key(name@) && final(self).entries@ == old(self).entries@,
            },
    {
        let n = self.entries.len();
        let mut i: usize = 0;
        while i < n
            invariant
                n == self.entries@.len(),
                self.wf(),
                self.entries@ == old(self).entries@,
                forall|j: int| 0 <= j < i ==> self.entries@[j].0@ != name@,
            decreases n - i,
        {
            if self.entries[i].0 == *name {
                proof {
                    lemma_entries_view_at(self.entries@, i as int);
                    let s = self.entries@;
                    let k = s[i as int].0;
                    assert forall|x: V|
                        #[trigger] entries_view(s.update(i as int, (k, x))) == entries_view(
                            s,
                        ).insert(k@, x) && unique_keys(s.update(i as int, (k, x))) by {
                        lemma_entries_view_update(s, i as int, k, x);
                    }
                }
                return Some(&mut self.entries[i].1);
            }
            i += 1;
        }
        proof {
            lemma_entries_view_dom(self.entries@, name@);
        }
        None
    }

    /// Inserts the binding, replacing any binding the key already has.
    pub fn insert(&mut self, name: Name, value: V)
        requires
            old(self).wf(),
        ensures
            final(self).wf(),
            final(self)@ == old(self)@.insert(name@, value),
    {
        let n = self.entries.len();
        let mut i: usize = 0;
        while i < n
            invariant
                n == self.entries@.len(),
                self.wf(),
                self.entries@ == old(self).entries@,
                forall|j: int| 0 <= j < i ==> self.entries@[j].0@ != name@,
            decreases n - i,
        {
            if self.entries[i].0 == name {
                proof {
                    lemma_entries_view_update(self.entries@, i as int, name, value);
                }
                self.entries[i] = (name, value);
                return ;
            }
            i += 1;
        }
        proof {
            lemma_entries_view_dom(self.entries@, name@);
            assert(self.entries@.push((name, value)).drop_last() =~= self.entries@);
        }
        self.entries.push((name, value));
    }
}

/// The set of characters-views a name sequence denotes.
pub open spec fn names_view(s: Seq<Name>) -> Set<Seq<char>>
    decreases s.len(),
{
    if s.len() == 0 {
        Set::empty()
    } else {
        names_view(s.drop_last()).insert(s.last()@)
    }
}

pub proof fn lemma_names_view_contains(s: Seq<Name>, k: Seq<char>)
    ensures
        names_view(s).contains(k) <==> exists|i: int| 0 <= i < s.len() && s[i]@ == k,
    decreases s.len(),
{
    if s.len() > 0 {
        lemma_names_view_contains(s.drop_last(), k);
        if s.last()@ == k {
            assert(s[s.len() - 1]@ == k);
        } else if names_view(s).contains(k) {
            let i = choose|i: int| 0 <= i < s.drop_last().len() && s.drop_last()[i]@ == k;
            assert(s[i]@ == k);
        } else if exists|i: int| 0 <= i < s.len() && s[i]@ == k {
            let i = choose|i: int| 0 <= i < s.len() && s[i]@ == k;
            assert(s.drop_last()[i]@ == k);
        }
    }
}

/// A set of names, kept without duplicates; its view is the set of
/// character sequences.
pub struct NameSet {
    pub entries: Vec<Name>,
}

impl View for NameSet {
    type V = Set<Seq<char>>;

    open spec fn view(&self) -> Set<Seq<char>> {
        names_view(self.entries@)
    }
}

impl NameSet {
    pub fn new() -> (r: NameSet)
        ensures
            r@ == Set::<Seq<char>>::empty(),
    {
        NameSet { entries: Vec::new() }
    }

    pub fn contains(&self, name: &Name) -> (r: bool)
        ensures
            r == self@.contains(name@),
    {
        let n = self.entries.len();
        let mut i: usize = 0;
        while i < n
            invariant
                n == self.entries@.len(),
                forall|j: int| 0 <= j < i ==> self.entries@[j]@ != name@,
            decreases n - i,
        {
            if self.entries[i] == *name {
                proof {
                    lemma_names_view_contains(self.entries@, name@);
                }
                return true;
            }
            i += 1;
        }
        proof {
            lemma_names_view_contains(self.entries@, name@);
        }
        false
    }

    pub fn insert(&mut self, name: Name)
        ensures
            final(self)@ == old(self)@.insert(name@),
    {
        if !self.contains(&name) {
            proof {
                assert(self.entries@.push(name).drop_last() =~= self.entries@);
            }
            self.entries.push(name);
        } else {
            proof {
                assert(self@.insert(name@) =~= self@);
            }
        }
    }
}

} // verus!
