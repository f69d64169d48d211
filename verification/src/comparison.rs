//! What holds of the equality and of the order of queues.
use std::cmp::Ordering;
use vstd::prelude::*;
use vstd::laws_cmp::obeys_cmp_partial_ord;
use vstd::laws_eq::{obeys_concrete_eq, obeys_eq, obeys_eq_spec_properties};
use vstd::std_specs::cmp::{PartialEqSpec, PartialOrdSpec};
use crate::ordering::lexicographic;
use crate::queue::Queue;

verus! {

/// Where the equality of items is symmetric and transitive, so is the
/// equality of queues.
pub proof fn lemma_queue_obeys_eq<T: Clone + PartialEq>()
    requires
        obeys_eq::<T>(),
    ensures
        obeys_eq::<Queue<T>>(),
{
    reveal(obeys_eq_spec_properties);
    assert forall|x: Queue<T>, y: Queue<T>, z: Queue<T>|
        x.eq_spec(&y) && #[trigger] y.eq_spec(&z) implies #[trigger] x.eq_spec(&z) by {
        assert forall|j: int| 0 <= j < x@.items.len() implies (#[trigger] x@.items[j]).eq_spec(
            &z@.items[j],
        ) by {
            assert(x@.items[j].eq_spec(&y@.items[j]));
            assert(y@.items[j].eq_spec(&z@.items[j]));
        }
    }
}

/// Where two items are equal only if they are the same, two queues are
/// equal exactly if they hold the same items in the same order.
pub proof fn lemma_equal_queues_hold_the_same<T: Clone + PartialEq>(
    left: Queue<T>,
    right: Queue<T>,
)
    requires
        obeys_concrete_eq::<T>(),
    ensures
        left.eq_spec(&right) <==> (left@.items == right@.items),
{
    reveal(obeys_concrete_eq);
    if left.eq_spec(&right) {
        assert(left@.items =~= right@.items);
    }
}

/// Where the order of items agrees with their equality, two sequences are
/// ordered as equal exactly if they are as long as each other and hold
/// equal items at every place.
pub proof fn lemma_lexicographic_equal<T: PartialOrd>(left: Seq<T>, right: Seq<T>)
    requires
        obeys_cmp_partial_ord::<T>(),
    ensures
        lexicographic(left, right) == Some(Ordering::Equal) <==> {
            &&& left.len() == right.len()
            &&& forall|j: int| 0 <= j < left.len() ==> (#[trigger] left[j]).eq_spec(&right[j])
        },
    decreases left.len(),
{
    reveal(obeys_cmp_partial_ord);
    if left.len() > 0 && right.len() > 0 {
        let left_rest = left.drop_first();
        let right_rest = right.drop_first();
        lemma_lexicographic_equal(left_rest, right_rest);
        if lexicographic(left, right) == Some(Ordering::Equal) {
            assert(left[0].eq_spec(&right[0]));
            assert forall|j: int| 0 <= j < left.len() implies (#[trigger] left[j]).eq_spec(
                &right[j],
            ) by {
                if j > 0 {
                    assert(left_rest[j - 1].eq_spec(&right_rest[j - 1]));
                }
            }
        }
        if left.len() == right.len() && forall|j: int|
            0 <= j < left.len() ==> (#[trigger] left[j]).eq_spec(&right[j]) {
            assert(left[0].eq_spec(&right[0]));
            assert forall|j: int| 0 <= j < left_rest.len() implies (#[trigger] left_rest[j]).eq_spec(
                &right_rest[j],
            ) by {
                assert(left[j + 1].eq_spec(&right[j + 1]));
            }
        }
    }
}

/// Where the order of items agrees with their equality, so does the order
/// of queues: two queues are ordered as equal exactly if they are equal.
pub proof fn lemma_order_agrees_with_equality<T: Clone + PartialOrd>(
    left: Queue<T>,
    right: Queue<T>,
)
    requires
        obeys_cmp_partial_ord::<T>(),
    ensures
        left.partial_cmp_spec(&right) == Some(Ordering::Equal) <==> left.eq_spec(&right),
{
    lemma_lexicographic_equal(left@.items, right@.items);
}

} // verus!
