//! A recursive partition sort over byte values: the first element is the
//! pivot, smaller elements are sorted to its left, the rest to its right.

use vstd::prelude::*;

verus! {

use vstd::multiset::Multiset;

broadcast use vstd::seq_lib::group_to_multiset_ensures;

/// A sequence is sorted in non-decreasing order.
pub open spec fn sorted(s: Seq<u8>) -> bool {
    forall|i: int, j: int| 0 <= i <= j < s.len() ==> s[i] <= s[j]
}

/// Sorts the slice into a fresh vector in non-decreasing order; the
/// result holds exactly the input's elements, multiplicities included.
pub fn quicksort(slice: &[u8]) -> (r: Vec<u8>)
    ensures
        sorted(r@),
        r@.to_multiset() == slice@.to_multiset(),
    decreases slice@.len(),
{
    let v: Vec<u8> = vstd::slice::slice_to_vec(slice);
    if v.len() <= 1 {
        return v;
    }

    let pivot = v[0];
    let mut left: Vec<u8> = Vec::new();
    let mut right: Vec<u8> = Vec::new();

    let mut i: usize = 1;
    while i < v.len()
        invariant
            v@ == slice@,
            1 <= i <= v@.len(),
            pivot == v@[0],
            left@.to_multiset().add(right@.to_multiset()) == v@.subrange(1, i as int).to_multiset(),
            forall|j: int| 0 <= j < left@.len() ==> left@[j] < pivot,
            forall|j: int| 0 <= j < right@.len() ==> pivot <= right@[j],
            left@.len() + right@.len() == i - 1,
        decreases v@.len() - i,
    {
        let ghost prefix = v@.subrange(1, i as int);
        let x = v[i];
        if x < pivot {
            left.push(x);
        } else {
            right.push(x);
        }
        proof {
            assert(v@.subrange(1, i + 1 as int) =~= prefix.push(x));
            assert(left@.to_multiset().add(right@.to_multiset()) =~= v@.subrange(
                1,
                i + 1 as int,
            ).to_multiset());
        }
        i += 1;
    }

    proof {
        assert(v@.subrange(1, v@.len() as int) =~= v@.drop_first());
    }

    let mut sorted_vec: Vec<u8> = quicksort(left.as_slice());
    let ghost left_sorted = sorted_vec@;
    sorted_vec.push(pivot);
    let sorted_right: Vec<u8> = quicksort(right.as_slice());

    let mut k: usize = 0;
    while k < sorted_right.len()
        invariant
            sorted_vec@ == left_sorted.push(pivot) + sorted_right@.subrange(0, k as int),
            0 <= k <= sorted_right@.len(),
        decreases sorted_right@.len() - k,
    {
        let x = sorted_right[k];
        sorted_vec.push(x);
        proof {
            assert(sorted_right@.subrange(0, k + 1 as int) =~= sorted_right@.subrange(
                0,
                k as int,
            ).push(x));
            assert(sorted_vec@ =~= left_sorted.push(pivot) + sorted_right@.subrange(
                0,
                k + 1 as int,
            ));
        }
        k += 1;
    }

    proof {
        let full = left_sorted.push(pivot) + sorted_right@;
        assert(sorted_vec@ =~= full) by {
            assert(sorted_right@.subrange(0, sorted_right@.len() as int) =~= sorted_right@);
        }

        // Elements of the sorted halves are elements of the halves.
        assert forall|j: int| 0 <= j < left_sorted.len() implies left_sorted[j] < pivot by {
            assert(left_sorted.to_multiset().contains(left_sorted[j]));
            assert(left@.contains(left_sorted[j]));
        }
        assert forall|j: int| 0 <= j < sorted_right@.len() implies pivot <= sorted_right@[j] by {
            assert(sorted_right@.to_multiset().contains(sorted_right@[j]));
            assert(right@.contains(sorted_right@[j]));
        }
        assert(sorted(full)) by {
            assert(forall|j: int|
                0 <= j < full.len() ==> j < left_sorted.len() ==> full[j] < pivot);
            assert(full[left_sorted.len() as int] == pivot);
            assert(forall|j: int|
                left_sorted.len() < j < full.len() ==> full[j] == sorted_right@[j
                    - left_sorted.len() - 1]);
        }

        // The result holds the pivot once plus both partitions.
        assert(left_sorted.push(pivot) =~= left_sorted + seq![pivot]);
        vstd::seq_lib::lemma_multiset_commutative(left_sorted, seq![pivot]);
        vstd::seq_lib::lemma_multiset_commutative(left_sorted + seq![pivot], sorted_right@);
        assert(seq![pivot].to_multiset() =~= Multiset::<u8>::empty().insert(pivot)) by {
            assert(seq![pivot].drop_first() =~= Seq::<u8>::empty());
        }
        vstd::seq_lib::lemma_multiset_commutative(seq![pivot], v@.drop_first());
        assert(seq![pivot] + v@.drop_first() =~= v@);
        assert(full.to_multiset() =~= v@.to_multiset());
    }

    sorted_vec
}

} // verus!
