//! Spec-level model of a sequence of optional slots: how many slots are
//! occupied, and at which indices.

use vstd::prelude::*;

verus! {

/// Number of occupied (`Some`) slots in a sequence of optional slots.
pub open spec fn num_occupied<T>(s: Seq<Option<T>>) -> nat
    decreases s.len(),
{
    if s.len() == 0 {
        0
    } else {
        num_occupied(s.drop_last()) + if s.last() is Some {
            1nat
        } else {
            0nat
        }
    }
}

/// The indices of the occupied slots, in ascending order.
pub open spec fn occupied_indices<T>(s: Seq<Option<T>>) -> Seq<int>
    decreases s.len(),
{
    if s.len() == 0 {
        Seq::empty()
    } else {
        occupied_indices(s.drop_last()) + if s.last() is Some {
            seq![s.len() - 1]
        } else {
            Seq::empty()
        }
    }
}

/// `s` extended with empty slots until it has at least `n` of them; a
/// sequence already long enough is left as it is.
pub open spec fn padded_to<T>(s: Seq<Option<T>>, n: int) -> Seq<Option<T>> {
    if n <= s.len() {
        s
    } else {
        s + Seq::new((n - s.len()) as nat, |j: int| Option::<T>::None)
    }
}

/// The slot sequence after inserting `v` at `idx`: grown so that `idx` is in
/// range, then with slot `idx` overwritten by `v`.
pub open spec fn inserted<T>(s: Seq<Option<T>>, idx: int, v: T) -> Seq<Option<T>> {
    padded_to(s, idx + 1).update(idx, Some(v))
}

/// There are never more occupied slots than slots.
pub broadcast proof fn lemma_num_occupied_le_len<T>(s: Seq<Option<T>>)
    ensures
        #[trigger] num_occupied(s) <= s.len(),
    decreases s.len(),
{
    if s.len() > 0 {
        lemma_num_occupied_le_len(s.drop_last());
    }
}

/// Appending a slot adds one occupied slot exactly when it is occupied.
pub broadcast proof fn lemma_num_occupied_push<T>(s: Seq<Option<T>>, v: Option<T>)
    ensures
        #[trigger] num_occupied(s.push(v)) == num_occupied(s) + if v is Some {
            1nat
        } else {
            0nat
        },
{
    assert(s.push(v).drop_last() =~= s);
    assert(s.push(v).last() == v);
}

/// Overwriting one slot changes the occupied count by the difference between
/// the old and the new occupancy of that slot.
pub broadcast proof fn lemma_num_occupied_update<T>(s: Seq<Option<T>>, i: int, v: Option<T>)
    requires
        0 <= i < s.len(),
    ensures
        #[trigger] num_occupied(s.update(i, v)) + if s[i] is Some {
            1nat
        } else {
            0nat
        } == num_occupied(s) + if v is Some {
            1nat
        } else {
            0nat
        },
    decreases s.len(),
{
    if i == s.len() - 1 {
        assert(s.update(i, v).drop_last() =~= s.drop_last());
        assert(s.update(i, v).last() == v);
        assert(s.last() == s[i]);
    } else {
        assert(s.update(i, v).drop_last() =~= s.drop_last().update(i, v));
        assert(s.update(i, v).last() == s.last());
        lemma_num_occupied_update(s.drop_last(), i, v);
    }
}

/// A sequence of empty slots has no occupied slot.
pub proof fn lemma_num_occupied_all_none<T>(s: Seq<Option<T>>)
    requires
        forall|j: int| 0 <= j < s.len() ==> s[j] is None,
    ensures
        num_occupied(s) == 0,
    decreases s.len(),
{
    if s.len() > 0 {
        assert(forall|j: int| 0 <= j < s.len() - 1 ==> s.drop_last()[j] == s[j]);
        lemma_num_occupied_all_none(s.drop_last());
    }
}

/// Overwriting an empty slot with `None` leaves the sequence as it was.
pub proof fn lemma_update_none_noop<T>(s: Seq<Option<T>>, i: int)
    requires
        0 <= i < s.len(),
        s[i] is None,
    ensures
        s.update(i, Option::<T>::None) == s,
{
    assert(s.update(i, Option::<T>::None) =~= s);
}

/// Extending the prefix under view by one slot appends that slot's index to
/// the occupied indices exactly when it is occupied.
pub proof fn lemma_occupied_take_step<T>(s: Seq<Option<T>>, i: int)
    requires
        0 <= i < s.len(),
    ensures
        num_occupied(s.take(i + 1)) == num_occupied(s.take(i)) + if s[i] is Some {
            1nat
        } else {
            0nat
        },
        occupied_indices(s.take(i + 1)) == occupied_indices(s.take(i)) + if s[i] is Some {
            seq![i]
        } else {
            Seq::empty()
        },
{
    assert(s.take(i + 1).drop_last() =~= s.take(i));
    assert(s.take(i + 1).last() == s[i]);
    if s[i] is Some {
        assert(occupied_indices(s.take(i + 1)) =~= occupied_indices(s.take(i)) + seq![i]);
    } else {
        assert(occupied_indices(s.take(i + 1)) =~= occupied_indices(s.take(i)) + Seq::empty());
    }
}

/// Taking the whole sequence is the sequence itself.
pub proof fn lemma_take_all<T>(s: Seq<Option<T>>)
    ensures
        s.take(s.len() as int) == s,
{
    assert(s.take(s.len() as int) =~= s);
}

/// The occupied indices are exactly the positions of the occupied slots:
/// there is one per occupied slot, each names an occupied slot, they ascend
/// strictly, and every occupied slot is named.
pub proof fn lemma_occupied_indices_props<T>(s: Seq<Option<T>>)
    ensures
        occupied_indices(s).len() == num_occupied(s),
        forall|k: int|
            0 <= k < occupied_indices(s).len() ==> 0 <= #[trigger] occupied_indices(s)[k]
                < s.len() && s[occupied_indices(s)[k]] is Some,
        forall|k1: int, k2: int|
            0 <= k1 < k2 < occupied_indices(s).len() ==> #[trigger] occupied_indices(s)[k1]
                < #[trigger] occupied_indices(s)[k2],
        forall|i: int| 0 <= i < s.len() && s[i] is Some ==> occupied_indices(s).contains(i),
    decreases s.len(),
{
    if s.len() > 0 {
        lemma_occupied_indices_props(s.drop_last());
        let pre = occupied_indices(s.drop_last());
        let all = occupied_indices(s);
        if s.last() is Some {
            assert(all =~= pre + seq![s.len() - 1]);
        } else {
            assert(all =~= pre);
        }
        assert forall|i: int| 0 <= i < s.len() && s[i] is Some implies all.contains(i) by {
            if i < s.len() - 1 {
                assert(s.drop_last()[i] == s[i]);
                assert(pre.contains(i));
                let k = choose|k: int| 0 <= k < pre.len() && pre[k] == i;
                assert(all[k] == i);
            } else {
                assert(all[all.len() - 1] == i);
            }
        }
    }
}

} // verus!
