//! A table that assigns small integer ids to the values it holds.
//!
//! A port keeps two: the registry of exported service objects, keyed by
//! service object id, and the record of imported handles, keyed by remote
//! object id. A new value receives the smallest id not in use, so the first
//! value of a fresh table always receives id zero, and an id is never given
//! out again while its value is still in the table.

use crate::count::{lemma_count_true_bound, lemma_count_true_update, spec_count_true};
use vstd::prelude::*;

verus! {

/// Whether `id` is the id that the next value put into `map` receives: the
/// smallest one not in use.
pub open spec fn spec_is_next_id<T>(map: Map<u32, T>, id: u32) -> bool {
    &&& !map.dom().contains(id)
    &&& forall|j: u32| j < id ==> map.dom().contains(j)
}

/// Whether `map` has an id below `limit` that is not in use.
pub open spec fn spec_has_room<T>(map: Map<u32, T>, limit: u32) -> bool {
    exists|i: u32| i < limit && !map.dom().contains(i)
}

/// There is at most one next id.
pub proof fn law_next_id_unique<T>(map: Map<u32, T>, a: u32, b: u32)
    requires
        spec_is_next_id(map, a),
        spec_is_next_id(map, b),
    ensures
        a == b,
{
    if a < b {
        assert(map.dom().contains(a));
    } else if b < a {
        assert(map.dom().contains(b));
    }
}

/// A table of values under ids below a fixed limit.
pub struct Table<T> {
    entries: Vec<Option<T>>,
    limit: u32,
    live: usize,
}

impl<T> View for Table<T> {
    type V = Map<u32, T>;

    closed spec fn view(&self) -> Map<u32, T> {
        Map::new(
            |id: u32| id < self.entries@.len() && self.entries@[id as int] is Some,
            |id: u32| self.entries@[id as int]->0,
        )
    }
}

impl<T> Table<T> {
    /// The number of ids that the table may give out at most.
    pub closed spec fn spec_limit(&self) -> u32 {
        self.limit
    }

    /// The invariant of a table. `new` establishes it and every method
    /// keeps it.
    pub closed spec fn wf(&self) -> bool {
        &&& self.entries@.len() <= self.limit
        &&& self@.dom().finite()
        &&& self.live == self@.dom().len()
        &&& self.live == spec_count_true(self.spec_in_use())
    }

    spec fn spec_in_use(&self) -> Seq<bool> {
        self.entries@.map_values(|e: Option<T>| e is Some)
    }

    /// In a well-formed table every id in use is below the limit.
    pub proof fn law_ids_below_limit(&self, id: u32)
        requires
            self.wf(),
            self@.dom().contains(id),
        ensures
            id < self.spec_limit(),
            self@.dom().finite(),
    {
    }

    /// Creates an empty table that gives out ids below `limit`.
    pub fn new(limit: u32) -> (table: Self)
        ensures
            table.wf(),
            table@ == Map::<u32, T>::empty(),
            table.spec_limit() == limit,
    {
        let table = Table { entries: Vec::new(), limit, live: 0 };
        assert(table@ =~= Map::<u32, T>::empty());
        assert(table.spec_in_use() =~= Seq::<bool>::empty());
        table
    }

    /// The number of values in the table.
    pub fn len(&self) -> (n: usize)
        requires
            self.wf(),
        ensures
            n == self@.dom().len(),
    {
        self.live
    }

    /// Whether the table holds no value.
    pub fn is_empty(&self) -> (empty: bool)
        requires
            self.wf(),
        ensures
            empty == (self@ == Map::<u32, T>::empty()),
    {
        proof {
            if self@.dom().len() == 0 {
                assert(self@.dom() =~= Set::empty());
                assert(self@ =~= Map::<u32, T>::empty());
            }
        }
        self.live == 0
    }

    /// Whether a value is held under `id`.
    pub fn contains(&self, id: u32) -> (held: bool)
        requires
            self.wf(),
        ensures
            held == self@.dom().contains(id),
    {
        (id as usize) < self.entries.len() && self.entries[id as usize].is_some()
    }

    /// The value held under `id`, if there is one.
    pub fn get(&self, id: u32) -> (value: Option<&T>)
        requires
            self.wf(),
        ensures
            value is Some <==> self@.dom().contains(id),
            value matches Some(v) ==> *v == self@[id],
    {
        if (id as usize) < self.entries.len() {
            self.entries[id as usize].as_ref()
        } else {
            None
        }
    }

    /// Puts `value` into the table under the smallest id not in use, and
    /// returns that id. A table in which every id below the limit is in use
    /// hands the value back and stays as it was.
    pub fn insert(&mut self, value: T) -> (result: Result<u32, T>)
        requires
            old(self).wf(),
        ensures
            final(self).wf(),
            final(self).spec_limit() == old(self).spec_limit(),
            result is Ok <==> spec_has_room(old(self)@, old(self).spec_limit()),
            result matches Ok(id) ==> {
                &&& id < old(self).spec_limit()
                &&& spec_is_next_id(old(self)@, id)
                &&& final(self)@ == old(self)@.insert(id, value)
            },
            result matches Err(back) ==> back == value && final(self)@ == old(self)@,
    {
        let mut i: usize = 0;
        while i < self.entries.len() && self.entries[i].is_some()
            invariant
                self.entries == old(self).entries,
                i <= self.entries@.len(),
                forall|j: int| 0 <= j < i ==> self.entries@[j] is Some,
            decreases self.entries@.len() - i,
        {
            i = i + 1;
        }
        if i < self.entries.len() {
            self.entries[i] = Some(value);
            proof {
                assert(self@ =~= old(self)@.insert(i as u32, value));
                assert(self.spec_in_use() =~= old(self).spec_in_use().update(i as int, true));
                lemma_count_true_update(old(self).spec_in_use(), i as int, true);
                lemma_count_true_bound(self.spec_in_use());
            }
            self.live = self.live + 1;
            Ok(i as u32)
        } else if i < self.limit as usize {
            self.entries.push(Some(value));
            proof {
                assert(self@ =~= old(self)@.insert(i as u32, value));
                assert(self.spec_in_use().drop_last() =~= old(self).spec_in_use());
                lemma_count_true_bound(self.spec_in_use());
            }
            self.live = self.live + 1;
            Ok(i as u32)
        } else {
            proof {
                assert forall|k: u32| k < old(self).spec_limit() implies old(self)@.dom().contains(
                    k,
                ) by {
                    assert(old(self).entries@[k as int] is Some);
                }
            }
            Err(value)
        }
    }

    /// Takes the value held under `id` out of the table, leaving every other
    /// value under its id. Gives nothing, and changes nothing, where no value
    /// is held under `id`.
    pub fn remove(&mut self, id: u32) -> (value: Option<T>)
        requires
            old(self).wf(),
        ensures
            final(self).wf(),
            final(self).spec_limit() == old(self).spec_limit(),
            value is Some <==> old(self)@.dom().contains(id),
            value matches Some(v) ==> v == old(self)@[id] && final(self)@ == old(self)@.remove(id),
            value is None ==> final(self)@ == old(self)@,
    {
        if (id as usize) < self.entries.len() && self.entries[id as usize].is_some() {
            let mut taken: Option<T> = None;
            std::mem::swap(&mut self.entries[id as usize], &mut taken);
            proof {
                assert(self@ =~= old(self)@.remove(id));
                assert(self.spec_in_use() =~= old(self).spec_in_use().update(id as int, false));
                lemma_count_true_update(old(self).spec_in_use(), id as int, false);
            }
            self.live = self.live - 1;
            taken
        } else {
            None
        }
    }
}

} // verus!
