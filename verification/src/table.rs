//! A table from text names to values, kept in insertion order.
//!
//! Headers, query parameters and open sessions are all tables: a name occurs at most once, and
//! inserting a name again replaces its value.

use crate::text::text_eq;
use vstd::prelude::*;

verus! {

/// A table from names to values in which no name occurs twice.
#[derive(Debug)]
pub struct Table<V> {
    entries: Vec<(String, V)>,
}

/// The map that results from inserting the rows one after the other.
pub open spec fn rows_map<V>(rows: Seq<(String, V)>) -> Map<Seq<char>, V>
    decreases rows.len(),
{
    if rows.len() == 0 {
        Map::empty()
    } else {
        rows_map(rows.drop_last()).insert(rows.last().0@, rows.last().1)
    }
}

/// Whether no name occurs twice.
pub open spec fn names_unique<V>(rows: Seq<(String, V)>) -> bool {
    forall|i: int, j: int|
        0 <= i < j < rows.len() ==> (#[trigger] rows[i]).0@ != (#[trigger] rows[j]).0@
}

proof fn lemma_rows_map<V>(rows: Seq<(String, V)>)
    requires
        names_unique(rows),
    ensures
        forall|i: int|
            0 <= i < rows.len() ==> rows_map(rows).contains_key((#[trigger] rows[i]).0@)
                && rows_map(rows)[rows[i].0@] == rows[i].1,
        forall|k: Seq<char>| #[trigger]
            rows_map(rows).contains_key(k) ==> exists|i: int|
                0 <= i < rows.len() && (#[trigger] rows[i]).0@ == k,
    decreases rows.len(),
{
    if rows.len() > 0 {
        let init = rows.drop_last();
        assert forall|i: int, j: int| 0 <= i < j < init.len() implies (#[trigger] init[i]).0@ != (
        #[trigger] init[j]).0@ by {
            assert(rows[i].0@ != rows[j].0@);
        }
        lemma_rows_map(init);
        assert forall|i: int| 0 <= i < rows.len() implies rows_map(rows).contains_key(
            (#[trigger] rows[i]).0@,
        ) && rows_map(rows)[rows[i].0@] == rows[i].1 by {
            if i < rows.len() - 1 {
                assert(init[i] == rows[i]);
                assert(rows[i].0@ != rows[rows.len() - 1].0@);
            }
        }
        assert forall|k: Seq<char>| #[trigger] rows_map(rows).contains_key(k) implies exists|i: int|
            0 <= i < rows.len() && (#[trigger] rows[i]).0@ == k by {
            if k == rows.last().0@ {
                assert(rows[rows.len() - 1].0@ == k);
            } else {
                assert(rows_map(init).contains_key(k));
                let i = choose|i: int| 0 <= i < init.len() && (#[trigger] init[i]).0@ == k;
                assert(rows[i].0@ == k);
            }
        }
    }
}

/// The values of two maps agree where two tables of rows agree.
proof fn lemma_rows_map_update<V>(rows: Seq<(String, V)>, i: int, row: (String, V))
    requires
        names_unique(rows),
        0 <= i < rows.len(),
        row.0@ == rows[i].0@,
    ensures
        names_unique(rows.update(i, row)),
        rows_map(rows.update(i, row)) == rows_map(rows).insert(row.0@, row.1),
{
    let next = rows.update(i, row);
    assert forall|a: int, b: int| 0 <= a < b < next.len() implies (#[trigger] next[a]).0@ != (
    #[trigger] next[b]).0@ by {
        assert(rows[a].0@ != rows[b].0@);
    }
    lemma_rows_map(rows);
    lemma_rows_map(next);
    let m = rows_map(rows).insert(row.0@, row.1);
    assert forall|k: Seq<char>| rows_map(next).contains_key(k) implies m.contains_key(k)
        && m[k] == rows_map(next)[k] by {
        let j = choose|j: int| 0 <= j < next.len() && (#[trigger] next[j]).0@ == k;
        assert(rows_map(next)[next[j].0@] == next[j].1);
        assert(rows[j].0@ == k);
        if j != i {
            if j < i {
                assert(rows[j].0@ != rows[i].0@);
            } else {
                assert(rows[i].0@ != rows[j].0@);
            }
            assert(next[j] == rows[j]);
        }
    }
    assert forall|k: Seq<char>| m.contains_key(k) implies rows_map(next).contains_key(k) by {
        if k == row.0@ {
            assert(next[i].0@ == k);
        } else {
            let j = choose|j: int| 0 <= j < rows.len() && (#[trigger] rows[j]).0@ == k;
            assert(next[j].0@ == k);
        }
    }
    assert(rows_map(next) =~= m);
}

proof fn lemma_rows_map_remove<V>(rows: Seq<(String, V)>, i: int)
    requires
        names_unique(rows),
        0 <= i < rows.len(),
    ensures
        names_unique(rows.remove(i)),
        rows_map(rows.remove(i)) == rows_map(rows).remove(rows[i].0@),
{
    let next = rows.remove(i);
    let old_index = |a: int| if a < i { a } else { a + 1 };
    assert forall|a: int, b: int| 0 <= a < b < next.len() implies (#[trigger] next[a]).0@ != (
    #[trigger] next[b]).0@ by {
        assert(next[a] == rows[old_index(a)]);
        assert(next[b] == rows[old_index(b)]);
        assert(rows[old_index(a)].0@ != rows[old_index(b)].0@);
    }
    lemma_rows_map(rows);
    lemma_rows_map(next);
    let m = rows_map(rows).remove(rows[i].0@);
    assert forall|k: Seq<char>| rows_map(next).contains_key(k) implies m.contains_key(k)
        && m[k] == rows_map(next)[k] by {
        let j = choose|j: int| 0 <= j < next.len() && (#[trigger] next[j]).0@ == k;
        assert(rows_map(next)[next[j].0@] == next[j].1);
        assert(next[j] == rows[old_index(j)]);
        if j < i {
            assert(rows[j].0@ != rows[i].0@);
        } else {
            assert(rows[i].0@ != rows[j + 1].0@);
        }
        assert(rows_map(rows)[rows[old_index(j)].0@] == rows[old_index(j)].1);
    }
    assert forall|k: Seq<char>| m.contains_key(k) implies rows_map(next).contains_key(k) by {
        let j = choose|j: int| 0 <= j < rows.len() && (#[trigger] rows[j]).0@ == k;
        if j < i {
            assert(next[j] == rows[j]);
        } else {
            assert(next[j - 1] == rows[j]);
        }
    }
    assert(rows_map(next) =~= m);
}

impl<V> View for Table<V> {
    type V = Map<Seq<char>, V>;

    open spec fn view(&self) -> Map<Seq<char>, V> {
        rows_map(self.rows())
    }
}

impl<V> Table<V> {
    /// The rows, in the order in which their names were first inserted.
    pub closed spec fn rows(&self) -> Seq<(String, V)> {
        self.entries@
    }

    #[verifier::type_invariant]
    spec fn unique(self) -> bool {
        names_unique(self.entries@)
    }

    /// A table without rows.
    pub fn new() -> (r: Self)
        ensures
            r.rows() == Seq::<(String, V)>::empty(),
            names_unique(r.rows()),
            r@ == Map::<Seq<char>, V>::empty(),
    {
        Table { entries: Vec::new() }
    }

    /// The number of rows. It is also the number of names, since no name occurs twice.
    pub fn len(&self) -> (r: usize)
        ensures
            r == self.rows().len(),
            names_unique(self.rows()),
    {
        proof {
            use_type_invariant(self);
        }
        self.entries.len()
    }

    /// The row at a position.
    pub fn row(&self, i: usize) -> (r: &(String, V))
        requires
            i < self.rows().len(),
        ensures
            *r == self.rows()[i as int],
    {
        &self.entries[i]
    }

    /// The position of a name, if the table has it.
    fn position(&self, name: &str) -> (r: Option<usize>)
        ensures
            match r {
                Some(i) => i < self.rows().len() && self.rows()[i as int].0@ == name@,
                None => forall|i: int|
                    0 <= i < self.rows().len() ==> (#[trigger] self.rows()[i]).0@ != name@,
            },
            r is Some == self@.contains_key(name@),
            r matches Some(i) ==> self@[name@] == self.rows()[i as int].1,
    {
        proof {
            use_type_invariant(self);
            lemma_rows_map(self.entries@);
        }
        let mut i: usize = 0;
        while i < self.entries.len()
            invariant
                i <= self.entries@.len(),
                forall|j: int| 0 <= j < i ==> (#[trigger] self.rows()[j]).0@ != name@,
                forall|j: int|
                    0 <= j < self.rows().len() ==> self@.contains_key(
                        (#[trigger] self.rows()[j]).0@,
                    ) && self@[self.rows()[j].0@] == self.rows()[j].1,
            decreases self.entries@.len() - i,
        {
            if text_eq(self.entries[i].0.as_str(), name) {
                assert(self.rows()[i as int].0@ == name@);
                return Some(i);
            }
            i = i + 1;
        }
        None
    }

    /// The value of a name.
    pub fn get(&self, name: &str) -> (r: Option<&V>)
        ensures
            match r {
                Some(v) => self@.contains_key(name@) && *v == self@[name@],
                None => !self@.contains_key(name@),
            },
    {
        match self.position(name) {
            Some(i) => Some(&self.entries[i].1),
            None => None,
        }
    }

    /// Gives a name a value, in place of any that it had.
    pub fn insert(&mut self, name: String, value: V)
        ensures
            final(self)@ == old(self)@.insert(name@, value),
            names_unique(final(self).rows()),
            !old(self)@.contains_key(name@) ==> final(self).rows() == old(self).rows().push(
                (name, value),
            ),
            old(self)@.contains_key(name@) ==> exists|i: int|
                0 <= i < old(self).rows().len() && #[trigger] old(self).rows()[i].0@ == name@
                    && final(self).rows() == old(self).rows().update(i, (name, value)),
    {
        proof {
            use_type_invariant(&*self);
        }
        let found = self.position(name.as_str());
        let mut entries: Vec<(String, V)> = Vec::new();
        std::mem::swap(&mut entries, &mut self.entries);
        let ghost before = entries@;
        match found {
            Some(i) => {
                proof {
                    lemma_rows_map_update(before, i as int, (name, value));
                }
                entries.set(i, (name, value));
            },
            None => {
                let ghost row = (name, value);
                entries.push((name, value));
                proof {
                    assert(before.push(row).drop_last() =~= before);
                    assert forall|a: int, b: int| 0 <= a < b < entries@.len() implies (
                    #[trigger] entries@[a]).0@ != (#[trigger] entries@[b]).0@ by {
                        assert(before[a].0@ != row.0@);
                        if b < before.len() {
                            assert(before[a].0@ != before[b].0@);
                        }
                    }
                }
            },
        }
        self.entries = entries;
    }

    /// Takes a name out of the table.
    pub fn remove(&mut self, name: &str) -> (r: Option<V>)
        ensures
            final(self)@ == old(self)@.remove(name@),
            names_unique(final(self).rows()),
            r is Some == old(self)@.contains_key(name@),
            r matches Some(v) ==> v == old(self)@[name@],
            r is Some ==> exists|i: int|
                0 <= i < old(self).rows().len() && #[trigger] old(self).rows()[i].0@ == name@
                    && final(self).rows() == old(self).rows().remove(i),
            r is None ==> final(self).rows() == old(self).rows(),
    {
        proof {
            use_type_invariant(&*self);
        }
        let found = self.position(name);
        match found {
            Some(i) => {
                let mut entries: Vec<(String, V)> = Vec::new();
                std::mem::swap(&mut entries, &mut self.entries);
                proof {
                    lemma_rows_map_remove(entries@, i as int);
                }
                let (_, value) = entries.remove(i);
                self.entries = entries;
                Some(value)
            },
            None => {
                assert(self@.remove(name@) =~= self@);
                None
            },
        }
    }
}

} // verus!
