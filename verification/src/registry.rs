//! The connection registry: which handle to the server belongs to which
//! browser-visible identifier.

use crate::assets::same_text;
use vstd::prelude::*;

verus! {

/// One entry of the registry.
#[derive(Debug)]
pub struct Entry<H> {
    pub id: String,
    pub handle: H,
}

/// The map that a sequence of entries stands for; a later entry with an
/// identifier wins over an earlier one with the same.
pub open spec fn table_of<H>(entries: Seq<Entry<H>>) -> Map<Seq<char>, H>
    decreases entries.len(),
{
    if entries.len() == 0 {
        Map::empty()
    } else {
        table_of(entries.drop_last()).insert(entries.last().id@, entries.last().handle)
    }
}

/// Whether no identifier occurs twice.
pub open spec fn ids_distinct<H>(entries: Seq<Entry<H>>) -> bool {
    forall|i: int, j: int|
        0 <= i < j < entries.len() ==> (#[trigger] entries[i]).id@ != (#[trigger] entries[j]).id@
}

/// Whether an identifier occurs among the entries.
pub open spec fn has_id<H>(entries: Seq<Entry<H>>, id: Seq<char>) -> bool {
    exists|i: int| 0 <= i < entries.len() && (#[trigger] entries[i]).id@ == id
}

/// The keys of the map are the identifiers of the entries.
pub proof fn lemma_table_keys<H>(entries: Seq<Entry<H>>, id: Seq<char>)
    ensures
        table_of(entries).contains_key(id) <==> has_id(entries, id),
    decreases entries.len(),
{
    if entries.len() > 0 {
        let front = entries.drop_last();
        lemma_table_keys(front, id);
        if has_id(entries, id) {
            let i = choose|i: int| 0 <= i < entries.len() && (#[trigger] entries[i]).id@ == id;
            if i < entries.len() - 1 {
                assert(front[i].id@ == id);
            }
        }
        if has_id(front, id) {
            let i = choose|i: int| 0 <= i < front.len() && (#[trigger] front[i]).id@ == id;
            assert(entries[i].id@ == id);
        }
        if entries.last().id@ == id {
            assert(entries[entries.len() - 1].id@ == id);
        }
    }
}

/// Where no identifier occurs twice, the map gives each identifier the handle of
/// its entry.
pub proof fn lemma_table_value<H>(entries: Seq<Entry<H>>, i: int)
    requires
        ids_distinct(entries),
        0 <= i < entries.len(),
    ensures
        table_of(entries).contains_key(entries[i].id@),
        table_of(entries)[entries[i].id@] == entries[i].handle,
    decreases entries.len(),
{
    let front = entries.drop_last();
    if i < entries.len() - 1 {
        assert(front[i] == entries[i]);
        assert(entries[i].id@ != entries[entries.len() - 1].id@);
        assert forall|a: int, b: int| 0 <= a < b < front.len() implies (#[trigger] front[a]).id@
            != (#[trigger] front[b]).id@ by {
            assert(front[a] == entries[a] && front[b] == entries[b]);
        }
        lemma_table_value(front, i);
    }
}

/// Where no identifier occurs twice, taking an entry out takes its identifier
/// out of the map and nothing else.
pub proof fn lemma_table_remove<H>(entries: Seq<Entry<H>>, i: int)
    requires
        ids_distinct(entries),
        0 <= i < entries.len(),
    ensures
        ids_distinct(entries.remove(i)),
        table_of(entries.remove(i)) == table_of(entries).remove(entries[i].id@),
    decreases entries.len(),
{
    let rest = entries.remove(i);
    assert forall|a: int, b: int| 0 <= a < b < rest.len() implies (#[trigger] rest[a]).id@ != (
    #[trigger] rest[b]).id@ by {
        let a0 = if a < i { a } else { a + 1 };
        let b0 = if b < i { b } else { b + 1 };
        assert(rest[a] == entries[a0] && rest[b] == entries[b0]);
    }
    let front = entries.drop_last();
    if i == entries.len() - 1 {
        assert(rest == front);
        lemma_table_keys(front, entries[i].id@);
        if has_id(front, entries[i].id@) {
            let j = choose|j: int| 0 <= j < front.len() && (#[trigger] front[j]).id@ == entries[i].id@;
            assert(front[j] == entries[j]);
        }
        assert(table_of(front) == table_of(entries).remove(entries[i].id@));
    } else {
        assert forall|a: int, b: int| 0 <= a < b < front.len() implies (#[trigger] front[a]).id@
            != (#[trigger] front[b]).id@ by {
            assert(front[a] == entries[a] && front[b] == entries[b]);
        }
        assert(front[i] == entries[i]);
        lemma_table_remove(front, i);
        assert(rest.drop_last() == front.remove(i));
        assert(rest.last() == entries.last());
        assert(entries[i].id@ != entries[entries.len() - 1].id@);
        assert(table_of(rest) == table_of(front.remove(i)).insert(
            entries.last().id@,
            entries.last().handle,
        ));
        assert(table_of(rest) == table_of(entries).remove(entries[i].id@));
    }
}

/// The registry: a map from identifier to handle. An identifier has at most one
/// handle.
#[derive(Debug)]
pub struct ConnectionTable<H> {
    entries: Vec<Entry<H>>,
}

impl<H> View for ConnectionTable<H> {
    type V = Map<Seq<char>, H>;

    closed spec fn view(&self) -> Map<Seq<char>, H> {
        table_of(self.entries@)
    }
}

impl<H> ConnectionTable<H> {
    #[verifier::type_invariant]
    spec fn distinct(self) -> bool {
        ids_distinct(self.entries@)
    }

    /// The registry with no entry.
    pub fn new() -> (table: Self)
        ensures
            table@ == Map::<Seq<char>, H>::empty(),
    {
        ConnectionTable { entries: Vec::new() }
    }

    /// The place of the entry with the given identifier.
    fn position(&self, id: &str) -> (place: Option<usize>)
        ensures
            match place {
                Some(i) => i < self.entries@.len() && self.entries@[i as int].id@ == id@,
                None => !has_id(self.entries@, id@),
            },
    {
        let mut i: usize = 0;
        while i < self.entries.len()
            invariant
                i <= self.entries@.len(),
                forall|j: int| 0 <= j < i ==> (#[trigger] self.entries@[j]).id@ != id@,
            decreases self.entries@.len() - i,
        {
            if same_text(self.entries[i].id.as_str(), id) {
                return Some(i);
            }
            i = i + 1;
        }
        None
    }

    /// Whether the identifier has an entry.
    pub fn contains(&self, id: &str) -> (found: bool)
        ensures
            found == self@.contains_key(id@),
    {
        proof {
            lemma_table_keys(self.entries@, id@);
        }
        self.position(id).is_some()
    }

    /// The handle of an identifier. An identifier without an entry has none:
    /// that is no error, its channel has gone.
    pub fn get(&self, id: &str) -> (handle: Option<&H>)
        ensures
            match handle {
                Some(h) => self@.contains_key(id@) && *h == self@[id@],
                None => !self@.contains_key(id@),
            },
    {
        proof {
            use_type_invariant(self);
            lemma_table_keys(self.entries@, id@);
        }
        match self.position(id) {
            Some(i) => {
                proof {
                    lemma_table_value(self.entries@, i as int);
                }
                Some(&self.entries[i].handle)
            },
            None => None,
        }
    }

    /// Enters a handle under an identifier, in place of the one that was there,
    /// and returns that one.
    pub fn insert(&mut self, id: String, handle: H) -> (previous: Option<H>)
        ensures
            final(self)@ == old(self)@.insert(id@, handle),
            previous == (if old(self)@.contains_key(id@) {
                Some(old(self)@[id@])
            } else {
                None
            }),
    {
        proof {
            use_type_invariant(&*self);
            lemma_table_keys(self.entries@, id@);
        }
        let ghost before = self.entries@;
        let place = self.position(id.as_str());
        let mut entries: Vec<Entry<H>> = Vec::new();
        core::mem::swap(&mut self.entries, &mut entries);
        let previous = match place {
            Some(i) => {
                proof {
                    lemma_table_value(before, i as int);
                    lemma_table_remove(before, i as int);
                    lemma_table_keys(before.remove(i as int), id@);
                }
                Some(entries.remove(i).handle)
            },
            None => None,
        };
        let ghost middle = entries@;
        let entry = Entry { id, handle };
        entries.push(entry);
        proof {
            let after = entries@;
            assert(after.drop_last() == middle);
            assert(after.last() == entry);
            assert(!has_id(middle, id@));
            assert forall|a: int, b: int| 0 <= a < b < after.len() implies (#[trigger] after[a]).id@
                != (#[trigger] after[b]).id@ by {
                if b == after.len() - 1 {
                    assert(middle[a].id@ != id@);
                } else {
                    assert(after[a] == middle[a] && after[b] == middle[b]);
                }
            }
            assert(table_of(after) == table_of(before).insert(id@, handle));
        }
        core::mem::swap(&mut self.entries, &mut entries);
        previous
    }

    /// Takes the entry of an identifier out and returns its handle. Taking out
    /// an identifier that has no entry changes nothing.
    pub fn remove(&mut self, id: &str) -> (removed: Option<H>)
        ensures
            final(self)@ == old(self)@.remove(id@),
            removed == (if old(self)@.contains_key(id@) {
                Some(old(self)@[id@])
            } else {
                None
            }),
    {
        proof {
            use_type_invariant(&*self);
            lemma_table_keys(self.entries@, id@);
        }
        let ghost before = self.entries@;
        match self.position(id) {
            Some(i) => {
                proof {
                    lemma_table_value(before, i as int);
                    lemma_table_remove(before, i as int);
                }
                let mut entries: Vec<Entry<H>> = Vec::new();
                core::mem::swap(&mut self.entries, &mut entries);
                let entry = entries.remove(i);
                core::mem::swap(&mut self.entries, &mut entries);
                Some(entry.handle)
            },
            None => {
                assert(table_of(before) == table_of(before).remove(id@));
                None
            },
        }
    }
}

} // verus!
