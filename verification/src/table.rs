//! A small table keyed by correlation id.

use vstd::prelude::*;

verus! {

/// Mapping from ids to values in which no id occurs twice.
pub struct IdTable<T> {
    entries: Vec<(u64, T)>,
}

spec fn has_id<T>(entries: Seq<(u64, T)>, id: u64) -> bool {
    exists|i: int| 0 <= i < entries.len() && (#[trigger] entries[i]).0 == id
}

spec fn index_of<T>(entries: Seq<(u64, T)>, id: u64) -> int {
    choose|i: int| 0 <= i < entries.len() && (#[trigger] entries[i]).0 == id
}

spec fn distinct_ids<T>(entries: Seq<(u64, T)>) -> bool {
    forall|i: int, j: int|
        0 <= i < j < entries.len() ==> (#[trigger] entries[i]).0 != (#[trigger] entries[j]).0
}

spec fn entries_map<T>(entries: Seq<(u64, T)>) -> Map<u64, T> {
    Map::new(|id: u64| has_id(entries, id), |id: u64| entries[index_of(entries, id)].1)
}

proof fn lemma_entry_in_map<T>(entries: Seq<(u64, T)>, i: int)
    requires
        distinct_ids(entries),
        0 <= i < entries.len(),
    ensures
        entries_map(entries).dom().contains(entries[i].0),
        entries_map(entries)[entries[i].0] == entries[i].1,
{
    let id = entries[i].0;
    assert(has_id(entries, id));
    let j = index_of(entries, id);
    assert(0 <= j < entries.len() && entries[j].0 == id);
    assert(j == i);
}

proof fn lemma_push<T>(entries: Seq<(u64, T)>, id: u64, value: T)
    requires
        distinct_ids(entries),
        !has_id(entries, id),
    ensures
        distinct_ids(entries.push((id, value))),
        entries_map(entries.push((id, value))) == entries_map(entries).insert(id, value),
{
    let after = entries.push((id, value));
    assert forall|i: int, j: int| 0 <= i < j < after.len() implies (#[trigger] after[i]).0 != (
    #[trigger] after[j]).0 by {
        if j == entries.len() {
            assert(after[i] == entries[i]);
        } else {
            assert(after[i] == entries[i] && after[j] == entries[j]);
        }
    }
    assert forall|key: u64| #[trigger]
        entries_map(after).dom().contains(key) <==> entries_map(entries).insert(
            id,
            value,
        ).dom().contains(key) by {
        if has_id(after, key) {
            let i = index_of(after, key);
            if i < entries.len() {
                assert(entries[i].0 == key);
            }
        }
        if has_id(entries, key) {
            let i = index_of(entries, key);
            assert(after[i].0 == key);
        }
        if key == id {
            assert(after[entries.len() as int].0 == key);
        }
    }
    assert forall|key: u64| #[trigger] entries_map(after).dom().contains(key) implies entries_map(
        after,
    )[key] == entries_map(entries).insert(id, value)[key] by {
        let i = index_of(after, key);
        lemma_entry_in_map(after, i);
        if i < entries.len() {
            assert(after[i] == entries[i]);
            lemma_entry_in_map(entries, i);
        }
    }
    assert(entries_map(after) =~= entries_map(entries).insert(id, value));
}

proof fn lemma_swap_remove<T>(entries: Seq<(u64, T)>, at: int)
    requires
        distinct_ids(entries),
        0 <= at < entries.len(),
    ensures
        distinct_ids(entries.update(at, entries.last()).drop_last()),
        entries_map(entries.update(at, entries.last()).drop_last()) == entries_map(entries).remove(
            entries[at].0,
        ),
{
    let id = entries[at].0;
    let after = entries.update(at, entries.last()).drop_last();
    let last = entries.len() - 1;
    assert forall|i: int| 0 <= i < after.len() implies #[trigger] after[i] == (if i == at {
        entries[last]
    } else {
        entries[i]
    }) by {}
    assert forall|i: int, j: int| 0 <= i < j < after.len() implies (#[trigger] after[i]).0 != (
    #[trigger] after[j]).0 by {
        let a = if i == at { last } else { i };
        let b = if j == at { last } else { j };
        assert(after[i] == entries[a] && after[j] == entries[b]);
        assert(a != b);
        if a < b {
            assert(entries[a].0 != entries[b].0);
        } else {
            assert(entries[b].0 != entries[a].0);
        }
    }
    assert forall|key: u64| #[trigger]
        entries_map(after).dom().contains(key) <==> entries_map(entries).remove(id).dom().contains(
            key,
        ) by {
        if has_id(after, key) {
            let i = index_of(after, key);
            let a = if i == at { last } else { i };
            assert(entries[a].0 == key);
            if a < at {
                assert(entries[a].0 != entries[at].0);
            } else if at < a {
                assert(entries[at].0 != entries[a].0);
            }
        }
        if has_id(entries, key) && key != id {
            let i = index_of(entries, key);
            if i == last {
                assert(after[at].0 == key);
            } else {
                assert(after[i].0 == key);
            }
        }
    }
    assert forall|key: u64| #[trigger] entries_map(after).dom().contains(key) implies entries_map(
        after,
    )[key] == entries_map(entries).remove(id)[key] by {
        let i = index_of(after, key);
        let a = if i == at { last } else { i };
        lemma_entry_in_map(after, i);
        lemma_entry_in_map(entries, a);
    }
    assert(entries_map(after) =~= entries_map(entries).remove(id));
}

proof fn lemma_map_size<T>(entries: Seq<(u64, T)>)
    requires
        distinct_ids(entries),
    ensures
        entries_map(entries).dom().finite(),
        entries_map(entries).dom().len() == entries.len(),
    decreases entries.len(),
{
    if entries.len() == 0 {
        assert(entries_map(entries).dom() =~= Set::<u64>::empty());
    } else {
        let init = entries.drop_last();
        let last = entries.last();
        assert(distinct_ids(init)) by {
            assert forall|i: int, j: int| 0 <= i < j < init.len() implies (#[trigger] init[i]).0
                != (#[trigger] init[j]).0 by {
                assert(init[i] == entries[i] && init[j] == entries[j]);
            }
        }
        assert(!has_id(init, last.0)) by {
            if has_id(init, last.0) {
                let i = index_of(init, last.0);
                assert(entries[i].0 == entries[entries.len() - 1].0);
            }
        }
        lemma_map_size(init);
        lemma_push(init, last.0, last.1);
        assert(init.push((last.0, last.1)) == entries);
    }
}

impl<T> View for IdTable<T> {
    type V = Map<u64, T>;

    closed spec fn view(&self) -> Map<u64, T> {
        entries_map(self.entries@)
    }
}

impl<T> IdTable<T> {
    #[verifier::type_invariant]
    spec fn well_formed(self) -> bool {
        distinct_ids(self.entries@)
    }

    /// A table without entries.
    pub fn new() -> (table: Self)
        ensures
            table@ == Map::<u64, T>::empty(),
    {
        let table = IdTable { entries: Vec::new() };
        assert(table@ =~= Map::<u64, T>::empty());
        table
    }

    /// The number of entries.
    pub fn len(&self) -> (n: usize)
        ensures
            self@.dom().finite(),
            n == self@.dom().len(),
    {
        proof {
            use_type_invariant(self);
            lemma_map_size(self.entries@);
        }
        self.entries.len()
    }

    fn position(&self, id: u64) -> (at: Option<usize>)
        ensures
            at is Some <==> has_id(self.entries@, id),
            at is Some ==> at->0 < self.entries@.len() && self.entries@[at->0 as int].0 == id,
    {
        let mut i: usize = 0;
        while i < self.entries.len()
            invariant
                i <= self.entries@.len(),
                forall|k: int| 0 <= k < i ==> (#[trigger] self.entries@[k]).0 != id,
            decreases self.entries@.len() - i,
        {
            if self.entries[i].0 == id {
                return Some(i);
            }
            i += 1;
        }
        None
    }

    /// Whether the table has an entry for `id`.
    pub fn contains(&self, id: u64) -> (found: bool)
        ensures
            found == self@.dom().contains(id),
    {
        self.position(id).is_some()
    }

    /// The value entered for `id`, if there is one.
    pub fn get(&self, id: u64) -> (value: Option<&T>)
        ensures
            value is Some <==> self@.dom().contains(id),
            value is Some ==> *value->0 == self@[id],
    {
        proof {
            use_type_invariant(self);
        }
        match self.position(id) {
            Some(i) => {
                proof {
                    lemma_entry_in_map(self.entries@, i as int);
                }
                Some(&self.entries[i].1)
            },
            None => None,
        }
    }

    /// Enters `value` for `id`, unless the table has an entry for that id: it
    /// then stays as it was and the value is handed back.
    pub fn insert(&mut self, id: u64, value: T) -> (r: Result<(), T>)
        ensures
            r is Err <==> old(self)@.dom().contains(id),
            r is Err ==> r->Err_0 == value && final(self)@ == old(self)@,
            r is Ok ==> final(self)@ == old(self)@.insert(id, value),
    {
        proof {
            use_type_invariant(&*self);
        }
        if self.contains(id) {
            return Err(value);
        }
        let mut entries: Vec<(u64, T)> = Vec::new();
        core::mem::swap(&mut self.entries, &mut entries);
        proof {
            lemma_push(entries@, id, value);
        }
        entries.push((id, value));
        self.entries = entries;
        Ok(())
    }

    /// Takes the entry for `id` out of the table, if there is one.
    pub fn remove(&mut self, id: u64) -> (value: Option<T>)
        ensures
            value is Some <==> old(self)@.dom().contains(id),
            value is Some ==> value->0 == old(self)@[id],
            final(self)@ == old(self)@.remove(id),
    {
        proof {
            use_type_invariant(&*self);
        }
        match self.position(id) {
            None => {
                assert(self@.remove(id) =~= self@);
                None
            },
            Some(i) => {
                let mut entries: Vec<(u64, T)> = Vec::new();
                core::mem::swap(&mut self.entries, &mut entries);
                proof {
                    lemma_entry_in_map(entries@, i as int);
                    lemma_swap_remove(entries@, i as int);
                }
                let entry = entries.swap_remove(i);
                self.entries = entries;
                Some(entry.1)
            },
        }
    }

    /// Empties the table and hands out what it held: every entry once.
    pub fn drain(&mut self) -> (all: Vec<(u64, T)>)
        ensures
            final(self)@ == Map::<u64, T>::empty(),
            all@.len() == old(self)@.dom().len(),
            forall|i: int, j: int|
                0 <= i < j < all@.len() ==> (#[trigger] all@[i]).0 != (#[trigger] all@[j]).0,
            forall|i: int|
                0 <= i < all@.len() ==> old(self)@.dom().contains((#[trigger] all@[i]).0) && old(
                    self,
                )@[all@[i].0] == all@[i].1,
            forall|id: u64| #[trigger]
                old(self)@.dom().contains(id) ==> exists|i: int|
                    0 <= i < all@.len() && (#[trigger] all@[i]).0 == id,
    {
        proof {
            use_type_invariant(&*self);
            lemma_map_size(self.entries@);
        }
        let mut entries: Vec<(u64, T)> = Vec::new();
        core::mem::swap(&mut self.entries, &mut entries);
        assert(self@ =~= Map::<u64, T>::empty());
        proof {
            assert forall|i: int| 0 <= i < entries@.len() implies entries_map(
                entries@,
            ).dom().contains((#[trigger] entries@[i]).0) && entries_map(entries@)[entries@[i].0]
                == entries@[i].1 by {
                lemma_entry_in_map(entries@, i);
            }
        }
        entries
    }
}

} // verus!
