//! How two queues are ordered.
use std::cmp::Ordering;
use vstd::prelude::*;
use vstd::std_specs::cmp::{PartialOrdSpec, PartialOrdSpecImpl};
use crate::queue::Queue;

verus! {

/// The lexicographic order of two sequences: the order of the first pair of
/// items at the same place that are not equal, and where no such pair
/// exists, the shorter sequence before the longer one.
pub open spec fn lexicographic<T: PartialOrd>(left: Seq<T>, right: Seq<T>) -> Option<Ordering>
    decreases left.len(),
{
    if left.len() == 0 {
        if right.len() == 0 {
            Some(Ordering::Equal)
        } else {
            Some(Ordering::Less)
        }
    } else if right.len() == 0 {
        Some(Ordering::Greater)
    } else {
        match left[0].partial_cmp_spec(&right[0]) {
            Some(Ordering::Equal) => lexicographic(left.drop_first(), right.drop_first()),
            decided => decided,
        }
    }
}

/// Queues are ordered lexicographically by their items, from the oldest on.
/// The ceiling plays no part.
impl<T: Clone + PartialOrd> PartialOrd for Queue<T> {
    fn partial_cmp(&self, other: &Self) -> (order: Option<Ordering>) {
        let mine = self.items();
        let theirs = other.items();
        let my_size = mine.len();
        let their_size = theirs.len();
        let ghost mut my_rest = mine@;
        let ghost mut their_rest = theirs@;
        let mut i: usize = 0;
        while i < my_size && i < their_size
            invariant
                i <= my_size,
                i <= their_size,
                my_size == mine@.len(),
                their_size == theirs@.len(),
                i + my_rest.len() == my_size,
                i + their_rest.len() == their_size,
                forall|j: int| 0 <= j < my_rest.len() ==> #[trigger] my_rest[j] == mine@[i + j],
                forall|j: int|
                    0 <= j < their_rest.len() ==> #[trigger] their_rest[j] == theirs@[i + j],
                mine@ == self@.items,
                theirs@ == other@.items,
                T::obeys_partial_cmp_spec() ==> lexicographic(mine@, theirs@) == lexicographic(
                    my_rest,
                    their_rest,
                ),
            decreases my_size - i,
        {
            assert(my_rest[0] == mine@[i + 0]);
            assert(their_rest[0] == theirs@[i + 0]);
            match mine[i].partial_cmp(&theirs[i]) {
                Some(Ordering::Equal) => {},
                decided => {
                    return decided;
                },
            }
            proof {
                my_rest = my_rest.drop_first();
                their_rest = their_rest.drop_first();
            }
            i = i + 1;
        }
        if my_size < their_size {
            Some(Ordering::Less)
        } else if my_size == their_size {
            Some(Ordering::Equal)
        } else {
            Some(Ordering::Greater)
        }
    }
}

impl<T: Clone + PartialOrd> PartialOrdSpecImpl for Queue<T> {
    open spec fn obeys_partial_cmp_spec() -> bool {
        T::obeys_partial_cmp_spec()
    }

    open spec fn partial_cmp_spec(&self, other: &Self) -> Option<Ordering> {
        lexicographic(self@.items, other@.items)
    }
}

} // verus!
