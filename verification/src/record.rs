use vstd::prelude::*;

use crate::model::ColType;

verus! {

// The abstract form of a decoded row is an association sequence: column
// name (as a character sequence) paired with the decoded value, in the
// row's native column order, with no name appearing twice.

/// Whether the association sequence holds an entry for `name`.
pub open spec fn assoc_has(s: Seq<(Seq<char>, ColType)>, name: Seq<char>) -> bool {
    exists|i: int| 0 <= i < s.len() && s[i].0 == name
}

/// The position of the entry for `name`, when one exists.
pub open spec fn assoc_index(s: Seq<(Seq<char>, ColType)>, name: Seq<char>) -> int {
    choose|i: int| 0 <= i < s.len() && s[i].0 == name
}

/// The value held for `name`, when an entry exists.
pub open spec fn assoc_get(s: Seq<(Seq<char>, ColType)>, name: Seq<char>) -> Option<ColType> {
    if assoc_has(s, name) {
        Some(s[assoc_index(s, name)].1)
    } else {
        None
    }
}

/// Insertion into the association sequence: a later value for a name
/// already present overwrites in place, keeping the entry's position; a
/// new name goes to the end, keeping native column order.
pub open spec fn assoc_insert(
    s: Seq<(Seq<char>, ColType)>,
    name: Seq<char>,
    value: ColType,
) -> Seq<(Seq<char>, ColType)> {
    if assoc_has(s, name) {
        s.update(assoc_index(s, name), (name, value))
    } else {
        s.push((name, value))
    }
}

/// Insertion keeps the association sequence's keys unique.
pub proof fn lemma_assoc_insert_wf(s: Seq<(Seq<char>, ColType)>, name: Seq<char>, value: ColType)
    requires
        forall|i: int, j: int| 0 <= i < j < s.len() ==> s[i].0 != s[j].0,
    ensures
        forall|i: int, j: int|
            0 <= i < j < assoc_insert(s, name, value).len() ==> assoc_insert(s, name, value)[i].0
                != assoc_insert(s, name, value)[j].0,
{
    let t = assoc_insert(s, name, value);
    if assoc_has(s, name) {
        let k = assoc_index(s, name);
        assert(0 <= k < s.len() && s[k].0 == name);
        assert forall|i: int, j: int| 0 <= i < j < t.len() implies t[i].0 != t[j].0 by {
            assert(t[i].0 == s[i].0);
            assert(t[j].0 == s[j].0);
        }
    } else {
        assert forall|i: int, j: int| 0 <= i < j < t.len() implies t[i].0 != t[j].0 by {
            if j < s.len() {
                assert(t[i].0 == s[i].0 && t[j].0 == s[j].0);
            } else {
                assert(t[i].0 == s[i].0 && t[j].0 == name);
                if s[i].0 == name {
                    assert(assoc_has(s, name));
                }
            }
        }
    }
}

/// A record behaves as a mapping: looking the inserted name up finds the
/// inserted value, and every other name reads as it did before the
/// insertion.
pub proof fn lemma_assoc_insert_get(
    s: Seq<(Seq<char>, ColType)>,
    name: Seq<char>,
    value: ColType,
    other: Seq<char>,
)
    requires
        forall|i: int, j: int| 0 <= i < j < s.len() ==> s[i].0 != s[j].0,
    ensures
        assoc_get(assoc_insert(s, name, value), name) == Some(value),
        other != name ==> assoc_get(assoc_insert(s, name, value), other) == assoc_get(s, other),
{
    let t = assoc_insert(s, name, value);
    if assoc_has(s, name) {
        let k = assoc_index(s, name);
        assert(0 <= k < s.len() && s[k].0 == name);
        assert(t == s.update(k, (name, value)));
        assert(t[k] == (name, value));
        assert(assoc_has(t, name));
        let j = assoc_index(t, name);
        assert(0 <= j < t.len() && t[j].0 == name);
        if j != k {
            assert(t[j] == s[j]);
            assert(s[j].0 == name && s[k].0 == name);
            assert(false);
        }
        assert(assoc_get(t, name) == Some(value));
        if other != name {
            if assoc_has(t, other) {
                let m = assoc_index(t, other);
                assert(0 <= m < t.len() && t[m].0 == other);
                assert(m != k);
                assert(t[m] == s[m]);
                assert(assoc_has(s, other));
                let n = assoc_index(s, other);
                assert(0 <= n < s.len() && s[n].0 == other);
                if n != m {
                    assert(false);
                }
                assert(assoc_get(t, other) == assoc_get(s, other));
            } else {
                if assoc_has(s, other) {
                    let n = assoc_index(s, other);
                    assert(0 <= n < s.len() && s[n].0 == other);
                    assert(n != k);
                    assert(t[n] == s[n]);
                    assert(assoc_has(t, other));
                    assert(false);
                }
            }
        }
    } else {
        assert(t == s.push((name, value)));
        assert(t[s.len() as int] == (name, value));
        assert(assoc_has(t, name));
        let j = assoc_index(t, name);
        assert(0 <= j < t.len() && t[j].0 == name);
        if j != s.len() {
            assert(t[j] == s[j]);
            assert(assoc_has(s, name));
            assert(false);
        }
        assert(assoc_get(t, name) == Some(value));
        if other != name {
            if assoc_has(t, other) {
                let m = assoc_index(t, other);
                assert(0 <= m < t.len() && t[m].0 == other);
                assert(m != s.len());
                assert(t[m] == s[m]);
                assert(assoc_has(s, other));
                let n = assoc_index(s, other);
                if n != m {
                    assert(false);
                }
                assert(assoc_get(t, other) == assoc_get(s, other));
            } else {
                if assoc_has(s, other) {
                    let n = assoc_index(s, other);
                    assert(t[n] == s[n]);
                    assert(assoc_has(t, other));
                    assert(false);
                }
            }
        }
    }
}

/// One decoded result row: an ordered mapping from column name to tagged
/// value. Entries keep the row's native column order, and a name occurs
/// at most once — a duplicate reported name overwrites the earlier value.
#[derive(Debug, Clone, PartialEq)]
pub struct Record {
    entries: Vec<(String, ColType)>,
}

impl View for Record {
    type V = Seq<(Seq<char>, ColType)>;

    closed spec fn view(&self) -> Seq<(Seq<char>, ColType)> {
        self.entries@.map_values(|p: (String, ColType)| (p.0@, p.1))
    }
}

impl Record {
    /// Well-formedness: no column name occurs twice.
    pub open spec fn wf(self) -> bool {
        forall|i: int, j: int| 0 <= i < j < self@.len() ==> self@[i].0 != self@[j].0
    }

    /// The empty record.
    pub fn new() -> (r: Record)
        ensures
            r@ =~= Seq::<(Seq<char>, ColType)>::empty(),
            r.wf(),
    {
        Record { entries: Vec::new() }
    }

    /// How many columns the record holds.
    pub fn len(&self) -> (n: usize)
        ensures
            n == self@.len(),
    {
        self.entries.len()
    }

    /// The column name at position `i`.
    pub fn key_at(&self, i: usize) -> (k: &String)
        requires
            i < self@.len(),
        ensures
            k@ == self@[i as int].0,
    {
        &self.entries[i].0
    }

    /// The value at position `i`.
    pub fn value_at(&self, i: usize) -> (v: &ColType)
        requires
            i < self@.len(),
        ensures
            *v == self@[i as int].1,
    {
        &self.entries[i].1
    }

    /// The position of the entry named `name`, if any: the first match,
    /// which under well-formedness is the only one.
    fn index_of(&self, name: &String) -> (r: Option<usize>)
        ensures
            match r {
                Some(i) => i < self@.len() && self@[i as int].0 == name@ && (forall|k: int|
                    0 <= k < i ==> self@[k].0 != name@),
                None => !assoc_has(self@, name@),
            },
    {
        let mut i: usize = 0;
        while i < self.entries.len()
            invariant
                i <= self@.len(),
                self@.len() == self.entries@.len(),
                forall|k: int| 0 <= k < i ==> self@[k].0 != name@,
            decreases self@.len() - i,
        {
            proof {
                assert(self@[i as int].0 == self.entries@[i as int].0@);
            }
            if self.entries[i].0 == *name {
                return Some(i);
            }
            i = i + 1;
        }
        None
    }

    /// Looks a column up by name.
    pub fn get(&self, name: &String) -> (r: Option<&ColType>)
        requires
            self.wf(),
        ensures
            match r {
                Some(v) => assoc_get(self@, name@) == Some(*v),
                None => assoc_get(self@, name@) is None,
            },
    {
        match self.index_of(name) {
            Some(i) => {
                proof {
                    let j = assoc_index(self@, name@);
                    assert(0 <= j < self@.len() && self@[j].0 == name@);
                    assert(j == i);
                }
                Some(&self.entries[i].1)
            },
            None => None,
        }
    }

    /// Binds `name` to `value`: overwrites in place when the name is
    /// already present, appends otherwise.
    pub fn insert(&mut self, name: String, value: ColType)
        requires
            old(self).wf(),
        ensures
            final(self)@ == assoc_insert(old(self)@, name@, value),
            final(self).wf(),
    {
        match self.index_of(&name) {
            Some(i) => {
                proof {
                    let j = assoc_index(self@, name@);
                    assert(0 <= j < self@.len() && self@[j].0 == name@);
                    assert(j == i);
                }
                self.entries.remove(i);
                self.entries.insert(i, (name, value));
                proof {
                    assert(self@ =~= assoc_insert(old(self)@, name@, value));
                }
            },
            None => {
                self.entries.push((name, value));
                proof {
                    assert(self@ =~= assoc_insert(old(self)@, name@, value));
                }
            },
        }
    }
}

} // verus!
