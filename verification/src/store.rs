//! The store itself: a growable backing vector of optional slots together
//! with a count of the occupied ones.

use vstd::prelude::*;

use crate::occupancy::{inserted, num_occupied, occupied_indices, padded_to};
use crate::occupancy::{
    lemma_num_occupied_le_len, lemma_num_occupied_push, lemma_num_occupied_update,
    lemma_occupied_indices_props, lemma_occupied_take_step, lemma_take_all,
};
use crate::position::Position;

verus! {

broadcast use {
    lemma_num_occupied_le_len,
    lemma_num_occupied_push,
    lemma_num_occupied_update,
};

/// A sparse sequence of slots, each either empty or holding one value.
/// Its view is the sequence of slots; `wf()` says the occupied-slot count
/// the store carries agrees with that sequence.
#[derive(Debug, Clone)]
pub struct ResizingVec<T> {
    data: Vec<Option<T>>,
    active: usize,
}

impl<T> View for ResizingVec<T> {
    type V = Seq<Option<T>>;

    closed spec fn view(&self) -> Seq<Option<T>> {
        self.data@
    }
}

impl<T> Default for ResizingVec<T> {
    /// An empty store: no slots, none occupied.
    fn default() -> (r: Self)
        ensures
            r.wf(),
            r@ == Seq::<Option<T>>::empty(),
    {
        ResizingVec { data: Vec::new(), active: 0 }
    }
}

impl<T> ResizingVec<T> {
    /// The store's bookkeeping is consistent: the carried count of occupied
    /// slots is the number of occupied slots of the view. Constructors
    /// establish this and every operation preserves it.
    pub closed spec fn wf(&self) -> bool {
        self.active == num_occupied(self.data@)
    }

    /// An empty store: no slots, none occupied.
    pub fn new() -> (r: Self)
        ensures
            r.wf(),
            r@ == Seq::<Option<T>>::empty(),
    {
        Self::default()
    }

    /// A store of `capacity` slots, all empty, so that later insertions at
    /// indices below `capacity` need not grow the storage.
    pub fn prefill(capacity: usize) -> (r: Self)
        ensures
            r.wf(),
            r@.len() == capacity,
            forall|j: int| 0 <= j < capacity ==> r@[j] is None,
            num_occupied(r@) == 0,
    {
        let mut data: Vec<Option<T>> = Vec::new();
        let mut i: usize = 0;
        while i < capacity
            invariant
                i <= capacity,
                data@.len() == i,
                forall|j: int| 0 <= j < i ==> data@[j] is None,
                num_occupied(data@) == 0,
            decreases capacity - i,
        {
            data.push(None);
            i = i + 1;
        }
        ResizingVec { data, active: 0 }
    }

    /// The total number of slots, occupied and empty together.
    pub fn reserved_space(&self) -> (r: usize)
        ensures
            r == self@.len(),
    {
        self.data.len()
    }

    /// The number of occupied slots.
    pub fn filled(&self) -> (r: usize)
        requires
            self.wf(),
        ensures
            r == num_occupied(self@),
    {
        self.active
    }

    /// Wraps a dense vector as a store: one occupied slot per element, in
    /// the same order, with no empty slots.
    pub fn from_vec(values: Vec<T>) -> (r: Self)
        ensures
            r.wf(),
            r@.len() == values@.len(),
            forall|j: int| 0 <= j < values@.len() ==> r@[j] == Some(values@[j]),
            num_occupied(r@) == values@.len(),
    {
        let mut rest = values;
        let mut data: Vec<Option<T>> = Vec::new();
        while rest.len() > 0
            invariant
                data@.len() + rest@.len() == values@.len(),
                forall|j: int| 0 <= j < data@.len() ==> data@[j] == Some(values@[j]),
                forall|j: int| 0 <= j < rest@.len() ==> rest@[j] == values@[j + data@.len()],
                num_occupied(data@) == data@.len(),
            decreases rest@.len(),
        {
            let v = rest.remove(0);
            data.push(Some(v));
        }
        let active = data.len();
        ResizingVec { data, active }
    }

    /// The value at `idx`, or nothing when `idx` is out of range or the slot
    /// is empty; the two absent cases are indistinguishable by design.
    pub fn get(&self, idx: usize) -> (r: Option<&T>)
        ensures
            idx < self@.len() && self@[idx as int] is Some ==> r is Some && self@[idx as int]
                == Some(*r.unwrap()),
            !(idx < self@.len() && self@[idx as int] is Some) ==> r is None,
    {
        if idx < self.data.len() {
            self.data[idx].as_ref()
        } else {
            None
        }
    }

    /// A mutable reference to the value at `idx`, or nothing when `idx` is
    /// out of range or the slot is empty. Whatever the caller writes through
    /// the reference replaces the value in that slot; occupancy is unchanged.
    pub fn get_mut(&mut self, idx: usize) -> (r: Option<&mut T>)
        requires
            old(self).wf(),
        ensures
            final(self).wf(),
            r is Some ==> {
                &&& idx < old(self)@.len()
                &&& old(self)@[idx as int] == Some(*r.unwrap())
                &&& final(self)@ == old(self)@.update(idx as int, Some(*final(r.unwrap())))
            },
            r is None ==> {
                &&& !(idx < old(self)@.len() && old(self)@[idx as int] is Some)
                &&& final(self)@ == old(self)@
            },
    {
        if idx < self.data.len() {
            proof {
                if self.data@[idx as int] is None {
                    crate::occupancy::lemma_update_none_noop(self.data@, idx as int);
                }
            }
            let slot = &mut self.data[idx];
            slot.as_mut()
        } else {
            None
        }
    }

    /// Empties the slot at `idx` and hands back what it held; an out-of-range
    /// or already-empty index is a silent no-op that returns nothing. The
    /// number of slots never changes.
    pub fn remove(&mut self, idx: usize) -> (r: Option<T>)
        requires
            old(self).wf(),
        ensures
            final(self).wf(),
            idx < old(self)@.len() ==> {
                &&& r == old(self)@[idx as int]
                &&& final(self)@ == old(self)@.update(idx as int, Option::<T>::None)
            },
            idx >= old(self)@.len() ==> r is None && final(self)@ == old(self)@,
            num_occupied(final(self)@) + if r is Some {
                1nat
            } else {
                0nat
            } == num_occupied(old(self)@),
    {
        if idx < self.data.len() {
            proof {
                lemma_num_occupied_update(self.data@, idx as int, Option::<T>::None);
                if self.data@[idx as int] is None {
                    crate::occupancy::lemma_update_none_noop(self.data@, idx as int);
                }
            }
            let slot = &mut self.data[idx];
            let prev = slot.take();
            if prev.is_some() {
                self.active = self.active - 1;
            }
            prev
        } else {
            None
        }
    }

    /// Stores `t` at `idx`, first growing the storage one empty slot at a
    /// time until `idx` is in range, and hands back the slot's previous
    /// occupant, or nothing when the slot was empty or newly created.
    pub fn insert(&mut self, idx: usize, t: T) -> (prev: Option<T>)
        requires
            old(self).wf(),
        ensures
            final(self).wf(),
            final(self)@ == inserted(old(self)@, idx as int, t),
            prev == if idx < old(self)@.len() {
                old(self)@[idx as int]
            } else {
                Option::<T>::None
            },
            num_occupied(final(self)@) == num_occupied(old(self)@) + if prev is Some {
                0nat
            } else {
                1nat
            },
    {
        while self.data.len() <= idx
            invariant
                self.active == old(self).active,
                old(self)@.len() <= self.data@.len(),
                self.data@.len() == old(self)@.len() || self.data@.len() <= idx + 1,
                self.data@ == padded_to(old(self)@, self.data@.len() as int),
                num_occupied(self.data@) == num_occupied(old(self)@),
            decreases idx + 1 - self.data@.len(),
        {
            self.data.push(None);
            proof {
                assert(self.data@ =~= padded_to(old(self)@, self.data@.len() as int));
            }
        }
        proof {
            assert(self.data@ =~= padded_to(old(self)@, idx + 1));
        }
        let ghost padded = self.data@;
        let ghost tv = t;
        let slot = &mut self.data[idx];
        let prev = slot.take();
        *slot = Some(t);
        proof {
            lemma_num_occupied_update(padded, idx as int, Some(tv));
        }
        if prev.is_none() {
            self.active = self.active + 1;
        }
        prev
    }

    /// The occupied slots in strictly ascending index order, each value
    /// paired with its index; empty slots are skipped.
    pub fn iter(&self) -> (r: Vec<(usize, &T)>)
        ensures
            r@.len() == num_occupied(self@),
            forall|k: int|
                0 <= k < r@.len() ==> {
                    &&& (#[trigger] r@[k]).0 == occupied_indices(self@)[k]
                    &&& self@[r@[k].0 as int] == Some(*r@[k].1)
                },
    {
        let mut out: Vec<(usize, &T)> = Vec::new();
        let n = self.data.len();
        let mut i: usize = 0;
        proof {
            assert(self.data@.take(0) =~= Seq::empty());
        }
        while i < n
            invariant
                i <= n,
                n == self.data@.len(),
                out@.len() == num_occupied(self.data@.take(i as int)),
                forall|k: int|
                    0 <= k < out@.len() ==> {
                        &&& (#[trigger] out@[k]).0 == occupied_indices(self.data@.take(i as int))[k]
                        &&& self.data@[out@[k].0 as int] == Some(*out@[k].1)
                    },
            decreases n - i,
        {
            proof {
                lemma_occupied_take_step(self.data@, i as int);
                lemma_occupied_indices_props(self.data@.take(i as int));
            }
            match self.data[i].as_ref() {
                Some(v) => {
                    out.push((i, v));
                },
                None => {},
            }
            i = i + 1;
        }
        proof {
            lemma_take_all(self.data@);
        }
        out
    }

    /// Packs the occupied elements to the front, in their original ascending
    /// index order, and shrinks the store to exactly those elements, so that
    /// afterwards every slot is occupied. Reports one `Position` per element
    /// that was occupied, in ascending order of its old index: its old index
    /// and the rank it was moved to.
    pub fn resize(&mut self) -> (positions: Vec<Position>)
        requires
            old(self).wf(),
        ensures
            final(self).wf(),
            final(self)@.len() == num_occupied(old(self)@),
            num_occupied(final(self)@) == num_occupied(old(self)@),
            positions@.len() == num_occupied(old(self)@),
            forall|k: int|
                0 <= k < positions@.len() ==> {
                    &&& (#[trigger] positions@[k]).new_idx == k
                    &&& positions@[k].prev_idx == occupied_indices(old(self)@)[k]
                    &&& final(self)@[k] == old(self)@[positions@[k].prev_idx as int]
                    &&& final(self)@[k] is Some
                },
    {
        let mut taken: Vec<Option<T>> = Vec::new();
        core::mem::swap(&mut self.data, &mut taken);
        let n = taken.len();
        let mut positions: Vec<Position> = Vec::new();
        let mut i: usize = 0;
        proof {
            assert(old(self)@.take(0) =~= Seq::empty());
        }
        while i < n
            invariant
                i <= n,
                n == taken@.len(),
                n == old(self)@.len(),
                forall|j: int| i <= j < n ==> taken@[j] == old(self)@[j],
                self.data@.len() == num_occupied(old(self)@.take(i as int)),
                positions@.len() == self.data@.len(),
                num_occupied(self.data@) == self.data@.len(),
                forall|k: int|
                    0 <= k < positions@.len() ==> {
                        &&& (#[trigger] positions@[k]).new_idx == k
                        &&& positions@[k].prev_idx == occupied_indices(old(self)@.take(i as int))[k]
                        &&& self.data@[k] == old(self)@[positions@[k].prev_idx as int]
                        &&& self.data@[k] is Some
                    },
            decreases n - i,
        {
            proof {
                lemma_occupied_take_step(old(self)@, i as int);
                lemma_occupied_indices_props(old(self)@.take(i as int));
            }
            let slot = taken[i].take();
            match slot {
                Some(v) => {
                    self.data.push(Some(v));
                    positions.push(
                        Position { prev_idx: i, new_idx: self.data.len() - 1 },
                    );
                },
                None => {},
            }
            i = i + 1;
        }
        proof {
            lemma_take_all(old(self)@);
        }
        self.active = self.data.len();
        positions
    }

    /// Drops every value and returns the store to its empty initial state.
    pub fn clear(&mut self)
        ensures
            final(self).wf(),
            final(self)@ == Seq::<Option<T>>::empty(),
    {
        self.data = Vec::new();
        self.active = 0;
    }
}

} // verus!
