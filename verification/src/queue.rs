//! The queue itself.
use vstd::prelude::*;
use std::collections::VecDeque;
use crate::error::QueueError;
use crate::model::QueueModel;

verus! {

/// A first-in, first-out queue whose number of items never exceeds its
/// capacity.
#[derive(Debug)]
pub struct Queue<T: Clone> {
    items: VecDeque<T>,
    bound: Option<usize>,
}

impl<T: Clone> View for Queue<T> {
    type V = QueueModel<T>;

    closed spec fn view(&self) -> QueueModel<T> {
        QueueModel { items: self.items@, bound: self.bound }
    }
}

impl<T: Clone> Queue<T> {
    #[verifier::type_invariant]
    spec fn inv(self) -> bool {
        self@.within_bound()
    }

    /// Moves the items out and leaves the queue empty. The items change
    /// outside the queue, so that the queue is within its capacity at every
    /// moment, also if growing the storage fails.
    fn take_items(&mut self) -> (items: VecDeque<T>)
        ensures
            items@ == old(self)@.items,
            final(self)@.items == Seq::<T>::empty(),
            final(self)@.bound == old(self)@.bound,
    {
        let mut items = VecDeque::new();
        core::mem::swap(&mut self.items, &mut items);
        items
    }

    /// Moves `items` into a queue that was emptied by `take_items`.
    fn put_items(&mut self, items: VecDeque<T>)
        requires
            items@.len() <= old(self)@.capacity(),
        ensures
            final(self)@.items == items@,
            final(self)@.bound == old(self)@.bound,
    {
        let mut items = items;
        core::mem::swap(&mut self.items, &mut items);
    }

    /// An empty queue without a ceiling.
    pub fn new() -> (queue: Queue<T>)
        ensures
            queue@.items == Seq::<T>::empty(),
            queue@.bound is None,
            queue@.within_bound(),
    {
        Queue { items: VecDeque::new(), bound: None }
    }

    /// An empty queue that admits at most `cap` items.
    pub fn with_cap(cap: usize) -> (queue: Queue<T>)
        ensures
            queue@.items == Seq::<T>::empty(),
            queue@.bound == Some(cap),
            queue@.within_bound(),
    {
        Queue { items: VecDeque::new(), bound: Some(cap) }
    }

    /// A queue without a ceiling that holds the items of `vec` in their
    /// order, the first of them as the oldest.
    pub fn from_vec(vec: Vec<T>) -> (queue: Queue<T>)
        ensures
            queue@.items == vec@,
            queue@.bound is None,
            queue@.within_bound(),
    {
        let mut items: VecDeque<T> = VecDeque::new();
        for item in iter: vec
            invariant
                items@ == iter.seq().take(iter.index()),
        {
            items.push_back(item);
        }
        assert(items@.len() == items.len());
        Queue { items, bound: None }
    }

    /// Offers `item` to the queue. While there is room the item joins at the
    /// tail and a reference to it is returned; a full queue refuses it and
    /// stays as it was.
    pub fn add(&mut self, item: T) -> (outcome: Result<Option<&T>, QueueError>)
        ensures
            final(self)@ == old(self)@.add(item),
            final(self)@.within_bound(),
            outcome == if old(self)@.is_full() {
                Err::<Option<&T>, QueueError>(old(self)@.full_error())
            } else {
                Ok::<Option<&T>, QueueError>(Some(&item))
            },
    {
        proof {
            use_type_invariant(&*self);
        }
        let size = self.items.len();
        let bound = self.capacity();
        if size < bound {
            let mut items = self.take_items();
            items.push_back(item);
            self.put_items(items);
            Ok(Some(&self.items[size]))
        } else {
            Err(QueueError::QueueFull { bound, size })
        }
    }

    /// Sets the capacity to `n` and leaves the items as they are. A capacity
    /// below the number of items held is refused, and the queue stays as it
    /// was.
    pub fn set_bound(&mut self, n: usize) -> (outcome: Result<(), QueueError>)
        ensures
            final(self)@ == old(self)@.set_bound(n),
            final(self)@.within_bound(),
            outcome == if old(self)@.admits_bound(n) {
                Ok::<(), QueueError>(())
            } else {
                Err::<(), QueueError>(old(self)@.bound_error(n))
            },
    {
        proof {
            use_type_invariant(&*self);
        }
        let size = self.items.len();
        if n >= size {
            self.bound = Some(n);
            Ok(())
        } else {
            Err(QueueError::BoundTooSmall { requested: n, size })
        }
    }

    /// Removes the ceiling: the capacity becomes `usize::MAX`, the items
    /// stay.
    pub fn clear_bound(&mut self)
        ensures
            final(self)@ == old(self)@.clear_bound(),
            final(self)@.within_bound(),
    {
        proof {
            use_type_invariant(&*self);
        }
        self.bound = None;
    }

    /// Resizes the queue to exactly `n` places: the capacity becomes `n`,
    /// and default values join at the tail until the queue holds `n` items.
    /// An `n` below the number of items held is refused, and the queue stays
    /// as it was.
    pub fn resize_bound(&mut self, n: usize) -> (outcome: Result<(), QueueError>) where
        T: Default,

        ensures
            final(self)@ == old(self)@.resize_bound(
                n,
                final(self)@.items.skip(old(self)@.size() as int),
            ),
            final(self)@.within_bound(),
            outcome == if old(self)@.admits_bound(n) {
                Ok::<(), QueueError>(())
            } else {
                Err::<(), QueueError>(old(self)@.bound_error(n))
            },
            old(self)@.admits_bound(n) ==> final(self)@.size() == n,
            forall|i: int|
                old(self)@.size() <= i < final(self)@.size() ==> call_ensures(
                    T::default,
                    (),
                    #[trigger] final(self)@.items[i],
                ),
    {
        proof {
            use_type_invariant(&*self);
        }
        let size = self.items.len();
        if n >= size {
            self.bound = Some(n);
            let mut items = self.take_items();
            let mut filled = size;
            while filled < n
                invariant
                    size <= filled <= n,
                    items@.len() == filled,
                    items@.take(size as int) == old(self)@.items,
                    forall|i: int|
                        size <= i < filled ==> call_ensures(T::default, (), #[trigger] items@[i]),
                decreases n - filled,
            {
                items.push_back(T::default());
                filled = filled + 1;
            }
            self.put_items(items);
            proof {
                let before = old(self)@.items;
                let after = self@.items;
                assert(after =~= before + after.skip(size as int)) by {
                    assert(after.take(size as int) == before);
                }
            }
            Ok(())
        } else {
            Err(QueueError::BoundTooSmall { requested: n, size })
        }
    }

    /// Takes the oldest item out of the queue and returns it; `None` when
    /// the queue is empty.
    pub fn deque(&mut self) -> (item: Option<T>)
        ensures
            item == old(self)@.head(),
            final(self)@ == old(self)@.deque(),
            final(self)@.within_bound(),
    {
        proof {
            use_type_invariant(&*self);
        }
        let mut items = self.take_items();
        let item = items.pop_front();
        self.put_items(items);
        item
    }

    /// The number of items in the queue.
    pub fn size(&self) -> (size: usize)
        ensures
            size == self@.size(),
            size <= self@.capacity(),
    {
        proof {
            use_type_invariant(self);
        }
        self.items.len()
    }

    /// The item at `index`, counted from the oldest; `None` when the queue
    /// holds no more than `index` items.
    pub fn get(&self, index: usize) -> (item: Option<&T>)
        ensures
            item == match self@.get(index as nat) {
                Some(found) => Some(&found),
                None => None,
            },
    {
        if index < self.items.len() {
            Some(&self.items[index])
        } else {
            None
        }
    }

    /// The items in order of arrival, oldest first.
    pub fn items(&self) -> (items: &VecDeque<T>)
        ensures
            items@ == self@.items,
    {
        &self.items
    }

    /// The capacity: the ceiling if one is set, and `usize::MAX` otherwise.
    pub fn capacity(&self) -> (bound: usize)
        ensures
            bound == self@.capacity(),
            self@.size() <= bound,
    {
        proof {
            use_type_invariant(self);
        }
        match self.bound {
            Some(n) => n,
            None => usize::MAX,
        }
    }
}

impl<T: Clone> Clone for Queue<T> {
    /// A queue with the same ceiling that holds a clone of each item, in the
    /// same order.
    fn clone(&self) -> (copy: Self)
        ensures
            copy@.bound == self@.bound,
            copy@.items.len() == self@.items.len(),
            copy@.within_bound(),
            forall|i: int|
                0 <= i < self@.items.len() ==> cloned::<T>(
                    #[trigger] self@.items[i],
                    copy@.items[i],
                ),
    {
        proof {
            use_type_invariant(self);
        }
        Queue { items: self.items.clone(), bound: self.bound }
    }
}

impl<T: Clone> Default for Queue<T> {
    /// An empty queue without a ceiling.
    fn default() -> (queue: Queue<T>)
        ensures
            queue@.items == Seq::<T>::empty(),
            queue@.bound is None,
            queue@.within_bound(),
    {
        Queue::new()
    }
}

/// Builds a queue without a ceiling from `values` by offering them to an
/// empty queue one by one, the first of them first.
pub fn queue<T: Clone>(values: Vec<T>) -> (queue: Queue<T>)
    ensures
        queue@.items == values@,
        queue@.bound is None,
        queue@.within_bound(),
{
    let mut queue = Queue::default();
    for item in iter: values
        invariant
            queue@.items == iter.seq().take(iter.index()),
            queue@.bound is None,
            iter.seq().len() == values.len(),
    {
        match queue.add(item) {
            Ok(_) => {},
            Err(_) => unreached(),
        }
    }
    queue
}

} // verus!
