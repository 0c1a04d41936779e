//! Tables keyed by identifier: the requests that await an answer, and the
//! handlers that are installed.

use vstd::prelude::*;
use crate::common::WampId;
use crate::error::WampError;

verus! {

/// Whether some entry stands under the identifier.
pub open spec fn holds<E>(entries: Seq<(WampId, E)>, id: WampId) -> bool {
    exists|i: int| 0 <= i < entries.len() && (#[trigger] entries[i]).0 == id
}

/// A place at which an entry stands under the identifier.
pub open spec fn place_of<E>(entries: Seq<(WampId, E)>, id: WampId) -> int {
    choose|i: int| 0 <= i < entries.len() && (#[trigger] entries[i]).0 == id
}

/// The entry under the identifier, if there is one.
pub open spec fn entry_of<E>(entries: Seq<(WampId, E)>, id: WampId) -> Option<E> {
    if holds(entries, id) {
        Some(entries[place_of(entries, id)].1)
    } else {
        None
    }
}

/// The entries without the one under the identifier.
pub open spec fn without<E>(entries: Seq<(WampId, E)>, id: WampId) -> Seq<(WampId, E)> {
    if holds(entries, id) {
        entries.remove(place_of(entries, id))
    } else {
        entries
    }
}

/// The entries with `entry` under the identifier: in the place of the entry
/// that stood there, or at the end.
pub open spec fn replaced<E>(entries: Seq<(WampId, E)>, id: WampId, entry: E) -> Seq<
    (WampId, E),
> {
    if holds(entries, id) {
        entries.update(place_of(entries, id), (id, entry))
    } else {
        entries.push((id, entry))
    }
}

/// Whether no two entries stand under one identifier.
pub open spec fn distinct_ids<E>(entries: Seq<(WampId, E)>) -> bool {
    forall|i: int, j: int|
        0 <= i < j < entries.len() ==> (#[trigger] entries[i]).0 != (#[trigger] entries[j]).0
}

/// The identifiers of the entries, in order.
pub open spec fn ids_of<E>(entries: Seq<(WampId, E)>) -> Seq<WampId> {
    Seq::new(entries.len(), |i: int| entries[i].0)
}

/// Among distinct identifiers, an entry that stands under the identifier
/// stands at its place.
pub proof fn lemma_place_is_unique<E>(entries: Seq<(WampId, E)>, id: WampId, at: int)
    requires
        distinct_ids(entries),
        0 <= at < entries.len(),
        entries[at].0 == id,
    ensures
        holds(entries, id),
        place_of(entries, id) == at,
{
    let p = place_of(entries, id);
    assert(0 <= p < entries.len() && entries[p].0 == id);
    if p < at {
        assert(entries[p].0 != entries[at].0);
    } else if at < p {
        assert(entries[at].0 != entries[p].0);
    }
}

/// An entry that has been taken out is no longer there, and taking it out
/// again takes nothing.
pub proof fn lemma_taken_is_absent<E>(entries: Seq<(WampId, E)>, id: WampId)
    requires
        distinct_ids(entries),
    ensures
        !holds(without(entries, id), id),
        entry_of(without(entries, id), id) is None,
        without(without(entries, id), id) == without(entries, id),
        distinct_ids(without(entries, id)),
{
    let rest = without(entries, id);
    if holds(entries, id) {
        let p = place_of(entries, id);
        assert(0 <= p < entries.len() && entries[p].0 == id);
        assert forall|i: int| 0 <= i < rest.len() implies (#[trigger] rest[i]).0 != id by {
            if i < p {
                assert(rest[i] == entries[i]);
                assert(entries[i].0 != entries[p].0);
            } else {
                assert(rest[i] == entries[i + 1]);
                assert(entries[p].0 != entries[i + 1].0);
            }
        }
        assert forall|i: int, j: int| 0 <= i < j < rest.len() implies (#[trigger] rest[i]).0 != (
        #[trigger] rest[j]).0 by {
            let a = if i < p { i } else { i + 1 };
            let b = if j < p { j } else { j + 1 };
            assert(rest[i] == entries[a]);
            assert(rest[j] == entries[b]);
            assert(entries[a].0 != entries[b].0);
        }
    }
}

/// Taking an entry out leaves every other identifier where it was.
pub proof fn lemma_without_keeps_others<E>(entries: Seq<(WampId, E)>, id: WampId, other: WampId)
    requires
        distinct_ids(entries),
        other != id,
    ensures
        holds(without(entries, id), other) == holds(entries, other),
        entry_of(without(entries, id), other) == entry_of(entries, other),
{
    let rest = without(entries, id);
    lemma_taken_is_absent(entries, id);
    if holds(entries, id) {
        let p = place_of(entries, id);
        assert(0 <= p < entries.len() && entries[p].0 == id);
        if holds(entries, other) {
            let q = place_of(entries, other);
            assert(0 <= q < entries.len() && entries[q].0 == other);
            let q2 = if q < p { q } else { q - 1 };
            assert(rest[q2] == entries[q]);
            lemma_place_is_unique(rest, other, q2);
        }
        if holds(rest, other) {
            let q2 = place_of(rest, other);
            assert(0 <= q2 < rest.len() && rest[q2].0 == other);
            let q = if q2 < p { q2 } else { q2 + 1 };
            assert(rest[q2] == entries[q]);
            lemma_place_is_unique(entries, other, q);
        }
    }
}

/// What stands in a table after an entry was taken out: what stood there
/// before, but for the identifier of the entry.
pub proof fn lemma_without_holds<E>(entries: Seq<(WampId, E)>, id: WampId)
    requires
        distinct_ids(entries),
    ensures
        distinct_ids(without(entries, id)),
        forall|other: WampId| #[trigger]
            holds(without(entries, id), other) == (other != id && holds(entries, other)),
{
    lemma_taken_is_absent(entries, id);
    assert forall|other: WampId| #[trigger]
        holds(without(entries, id), other) == (other != id && holds(entries, other)) by {
        if other != id {
            lemma_without_keeps_others(entries, id, other);
        }
    }
}

/// What stands in a table after an entry was added at its end: what stood
/// there before, and the identifier of the entry.
pub proof fn lemma_push_holds<E>(entries: Seq<(WampId, E)>, id: WampId, entry: E)
    ensures
        forall|other: WampId| #[trigger]
            holds(entries.push((id, entry)), other) == (other == id || holds(entries, other)),
{
    let after = entries.push((id, entry));
    assert forall|other: WampId| #[trigger]
        holds(after, other) == (other == id || holds(entries, other)) by {
        if other == id {
            assert(after[after.len() - 1].0 == id);
        }
        if holds(entries, other) {
            let p = place_of(entries, other);
            assert(after[p].0 == other);
        }
        if holds(after, other) && other != id {
            let p = place_of(after, other);
            assert(entries[p].0 == other);
        }
    }
}

/// What stands in a table after an entry was put under an identifier: what
/// stood there before, and the identifier.
pub proof fn lemma_replaced_holds<E>(entries: Seq<(WampId, E)>, id: WampId, entry: E)
    ensures
        forall|other: WampId| #[trigger]
            holds(replaced(entries, id, entry), other) == (other == id || holds(entries, other)),
{
    let after = replaced(entries, id, entry);
    if holds(entries, id) {
        let at = place_of(entries, id);
        assert forall|other: WampId| #[trigger]
            holds(after, other) == (other == id || holds(entries, other)) by {
            if other == id {
                assert(after[at].0 == id);
            }
            if holds(entries, other) {
                let p = place_of(entries, other);
                assert(after[p].0 == other);
            }
            if holds(after, other) {
                let p = place_of(after, other);
                assert(entries[p].0 == other);
            }
        }
    } else {
        lemma_push_holds(entries, id, entry);
    }
}

/// A table of entries keyed by identifier. No two entries share an
/// identifier, and the entries keep the order in which they came.
pub struct IdTable<E> {
    entries: Vec<(WampId, E)>,
}

impl<E> View for IdTable<E> {
    type V = Seq<(WampId, E)>;

    closed spec fn view(&self) -> Seq<(WampId, E)> {
        self.entries@
    }
}

impl<E> IdTable<E> {
    /// Whether the table is in order: no two entries share an identifier.
    pub open spec fn wf(&self) -> bool {
        distinct_ids(self@)
    }

    /// An empty table.
    pub fn new() -> (r: Self)
        ensures
            r@ == Seq::<(WampId, E)>::empty(),
            r.wf(),
    {
        IdTable { entries: Vec::new() }
    }

    /// How many entries the table has.
    pub fn len(&self) -> (n: usize)
        ensures
            n == self@.len(),
    {
        self.entries.len()
    }

    /// The place of the entry under the identifier.
    fn find(&self, id: WampId) -> (r: Option<usize>)
        requires
            self.wf(),
        ensures
            r is Some <==> holds(self@, id),
            r matches Some(at) ==> at == place_of(self@, id) && at < self@.len()
                && self@[at as int].0 == id,
    {
        let mut i: usize = 0;
        while i < self.entries.len()
            invariant
                i <= self.entries.len(),
                forall|j: int| 0 <= j < i ==> (#[trigger] self.entries@[j]).0 != id,
                self.wf(),
            decreases self.entries.len() - i,
        {
            if self.entries[i].0 == id {
                proof {
                    lemma_place_is_unique(self@, id, i as int);
                }
                return Some(i);
            }
            i += 1;
        }
        None
    }

    /// Whether an entry stands under the identifier.
    pub fn contains(&self, id: WampId) -> (r: bool)
        requires
            self.wf(),
        ensures
            r == holds(self@, id),
    {
        self.find(id).is_some()
    }

    /// The entry under the identifier, if there is one.
    pub fn get(&self, id: WampId) -> (r: Option<&E>)
        requires
            self.wf(),
        ensures
            match entry_of(self@, id) {
                Some(e) => r == Some(&e),
                None => r is None,
            },
    {
        match self.find(id) {
            Some(at) => Some(&self.entries[at].1),
            None => None,
        }
    }

    /// Adds an entry under an identifier that is free. Under one that is
    /// taken, the table stays as it is.
    pub fn insert(&mut self, id: WampId, entry: E) -> (r: Result<(), WampError>)
        requires
            old(self).wf(),
        ensures
            final(self).wf(),
            holds(old(self)@, id) ==> r == Err::<(), WampError>(WampError::DuplicateRequestId)
                && final(self)@ == old(self)@,
            !holds(old(self)@, id) ==> r is Ok && final(self)@ == old(self)@.push((id, entry)),
            forall|other: WampId| #[trigger]
                holds(final(self)@, other) == (other == id || holds(old(self)@, other)),
    {
        if self.contains(id) {
            Err(WampError::DuplicateRequestId)
        } else {
            self.entries.push((id, entry));
            proof {
                let after = self@;
                assert forall|i: int, j: int| 0 <= i < j < after.len() implies (
                #[trigger] after[i]).0 != (#[trigger] after[j]).0 by {
                    if j == after.len() - 1 {
                        assert(after[i] == old(self)@[i]);
                    } else {
                        assert(after[i] == old(self)@[i]);
                        assert(after[j] == old(self)@[j]);
                    }
                }
                lemma_push_holds(old(self)@, id, entry);
            }
            Ok(())
        }
    }

    /// Puts an entry under an identifier, in the place of the entry that
    /// stood there or at the end.
    pub fn put(&mut self, id: WampId, entry: E)
        requires
            old(self).wf(),
        ensures
            final(self).wf(),
            final(self)@ == replaced(old(self)@, id, entry),
            forall|other: WampId| #[trigger]
                holds(final(self)@, other) == (other == id || holds(old(self)@, other)),
    {
        proof {
            lemma_replaced_holds(self@, id, entry);
        }
        match self.find(id) {
            Some(at) => {
                self.entries.set(at, (id, entry));
                proof {
                    let before = old(self)@;
                    let after = self@;
                    assert(after =~= replaced(before, id, entry));
                    assert forall|i: int, j: int| 0 <= i < j < after.len() implies (
                    #[trigger] after[i]).0 != (#[trigger] after[j]).0 by {
                        assert(after[i].0 == before[i].0);
                        assert(after[j].0 == before[j].0);
                    }
                }
            },
            None => {
                self.entries.push((id, entry));
                proof {
                    let before = old(self)@;
                    let after = self@;
                    assert(after =~= replaced(before, id, entry));
                    assert forall|i: int, j: int| 0 <= i < j < after.len() implies (
                    #[trigger] after[i]).0 != (#[trigger] after[j]).0 by {
                        assert(after[i] == before[i]);
                        if j < after.len() - 1 {
                            assert(after[j] == before[j]);
                        }
                    }
                }
            },
        }
    }

    /// Takes the entry under the identifier out of the table, if there is
    /// one. Afterwards none stands under the identifier.
    pub fn resolve(&mut self, id: WampId) -> (r: Option<E>)
        requires
            old(self).wf(),
        ensures
            final(self).wf(),
            r == entry_of(old(self)@, id),
            final(self)@ == without(old(self)@, id),
            forall|other: WampId| #[trigger]
                holds(final(self)@, other) == (other != id && holds(old(self)@, other)),
    {
        proof {
            lemma_without_holds(self@, id);
        }
        match self.find(id) {
            Some(at) => {
                let (_, entry) = self.entries.remove(at);
                Some(entry)
            },
            None => None,
        }
    }

    /// Takes every entry out of the table, in order.
    pub fn drain(&mut self) -> (r: Vec<(WampId, E)>)
        ensures
            r@ == old(self)@,
            final(self)@ == Seq::<(WampId, E)>::empty(),
            final(self).wf(),
    {
        let mut out: Vec<(WampId, E)> = Vec::new();
        std::mem::swap(&mut self.entries, &mut out);
        out
    }
}

} // verus!
