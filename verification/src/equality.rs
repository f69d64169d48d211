//! When two queues are equal.
use vstd::prelude::*;
use vstd::std_specs::cmp::{PartialEqSpec, PartialEqSpecImpl};
use crate::queue::Queue;

verus! {

/// Two queues are equal when they hold equal items in the same order. The
/// ceiling plays no part: a queue with room left equals a full one that
/// holds the same items.
impl<T: Clone + PartialEq> PartialEq for Queue<T> {
    fn eq(&self, other: &Self) -> (equal: bool) {
        let mine = self.items();
        let theirs = other.items();
        let size = mine.len();
        if size != theirs.len() {
            return false;
        }
        let mut i: usize = 0;
        while i < size
            invariant
                i <= size,
                size == mine@.len(),
                size == theirs@.len(),
                mine@ == self@.items,
                theirs@ == other@.items,
                T::obeys_eq_spec() ==> forall|j: int|
                    0 <= j < i ==> (#[trigger] mine@[j]).eq_spec(&theirs@[j]),
            decreases size - i,
        {
            if mine[i] != theirs[i] {
                return false;
            }
            i = i + 1;
        }
        true
    }
}

impl<T: Clone + PartialEq> PartialEqSpecImpl for Queue<T> {
    open spec fn obeys_eq_spec() -> bool {
        T::obeys_eq_spec()
    }

    open spec fn eq_spec(&self, other: &Self) -> bool {
        &&& self@.items.len() == other@.items.len()
        &&& forall|j: int|
            0 <= j < self@.items.len() ==> (#[trigger] self@.items[j]).eq_spec(&other@.items[j])
    }
}

impl<T: Clone + Eq> Eq for Queue<T> {
}

} // verus!
