//! The store's general guarantees, stated and proved once over the
//! spec-level model that the operations' contracts speak of.

use vstd::prelude::*;

use crate::occupancy::{
    inserted, lemma_num_occupied_all_none, lemma_num_occupied_le_len, lemma_num_occupied_update,
    lemma_update_none_noop, num_occupied, occupied_indices,
};
use crate::store::ResizingVec;

verus! {

/// Occupancy invariant: the number of occupied slots never exceeds the
/// number of slots, so `filled() <= reserved_space()` after every operation.
pub proof fn lemma_filled_le_reserved_space<T>(v: &ResizingVec<T>)
    ensures
        num_occupied(v@) <= v@.len(),
{
    lemma_num_occupied_le_len(v@);
}

/// Insert/get round-trip: after inserting `v` at `idx` the slot at `idx`
/// holds `v`, every other index that was in range before keeps its old
/// occupant, and every index the insertion brought into range other than
/// `idx` is empty — so `get(idx)` returns `v` and `get(j)` for any other
/// `j` not otherwise inserted returns nothing.
pub proof fn lemma_insert_get_round_trip<T>(s: Seq<Option<T>>, idx: int, v: T)
    requires
        0 <= idx,
    ensures
        inserted(s, idx, v).len() == if idx < s.len() {
            s.len() as int
        } else {
            idx + 1
        },
        inserted(s, idx, v)[idx] == Some(v),
        forall|j: int| 0 <= j < s.len() && j != idx ==> #[trigger] inserted(s, idx, v)[j] == s[j],
        forall|j: int|
            s.len() <= j < inserted(s, idx, v).len() && j != idx
                ==> #[trigger] inserted(s, idx, v)[j] is None,
{
}

/// Growth on demand: inserting at index `k` into an empty store yields
/// exactly `k + 1` slots, of which exactly one is occupied.
pub proof fn lemma_growth_on_demand<T>(k: int, v: T)
    requires
        0 <= k,
    ensures
        inserted(Seq::<Option<T>>::empty(), k, v).len() == k + 1,
        num_occupied(inserted(Seq::<Option<T>>::empty(), k, v)) == 1,
{
    let padded = crate::occupancy::padded_to(Seq::<Option<T>>::empty(), k + 1);
    lemma_num_occupied_all_none(padded);
    lemma_num_occupied_update(padded, k, Some(v));
}

/// Remove idempotence: removing an in-range but already-empty index leaves
/// the slots exactly as they were, and removing an occupied index lowers
/// the occupied count by exactly one. (An out-of-range removal leaves the
/// store untouched by `remove`'s own contract.)
pub proof fn lemma_remove_idempotence<T>(s: Seq<Option<T>>, idx: int)
    requires
        0 <= idx < s.len(),
    ensures
        s[idx] is None ==> s.update(idx, Option::<T>::None) == s,
        s[idx] is Some ==> num_occupied(s.update(idx, Option::<T>::None)) + 1 == num_occupied(s),
{
    if s[idx] is None {
        lemma_update_none_noop(s, idx);
    } else {
        lemma_num_occupied_update(s, idx, Option::<T>::None);
    }
}

/// Compaction leaves no gaps: in a store whose every slot is occupied, as
/// `resize` guarantees of its result, the occupied count equals the slot
/// count and the occupied indices are `0, 1, 2, ...` — so iterating a
/// compacted store visits its slots in storage order.
pub proof fn lemma_dense_occupied_identity<T>(s: Seq<Option<T>>)
    requires
        forall|j: int| 0 <= j < s.len() ==> s[j] is Some,
    ensures
        num_occupied(s) == s.len(),
        forall|k: int| 0 <= k < s.len() ==> occupied_indices(s)[k] == k,
    decreases s.len(),
{
    if s.len() > 0 {
        assert(forall|j: int| 0 <= j < s.len() - 1 ==> s.drop_last()[j] == s[j]);
        lemma_dense_occupied_identity(s.drop_last());
        crate::occupancy::lemma_occupied_indices_props(s.drop_last());
        assert(occupied_indices(s) =~= occupied_indices(s.drop_last()) + seq![s.len() - 1]);
    }
}

/// Clear resets fully: an empty slot sequence, which `clear` leaves behind,
/// has no occupied slot and no occupied index, so iteration after `clear`
/// yields nothing.
pub proof fn lemma_cleared_store_is_empty<T>()
    ensures
        num_occupied(Seq::<Option<T>>::empty()) == 0,
        occupied_indices(Seq::<Option<T>>::empty()) == Seq::<int>::empty(),
{
}

} // verus!
