//! The mathematical model of a queue.
use vstd::prelude::*;
use crate::error::QueueError;

verus! {

/// What a queue is, seen from outside: its items in order of arrival, oldest
/// first, and the ceiling on their number, if one is set.
pub struct QueueModel<T> {
    pub items: Seq<T>,
    pub bound: Option<usize>,
}

/// One operation that changes a queue.
pub enum Step<T> {
    /// An item is offered.
    Add(T),
    /// The oldest item is taken.
    Deque,
    /// A capacity is requested; the items are to stay.
    SetBound(usize),
    /// The ceiling is removed.
    ClearBound,
    /// The queue is resized to a number of places, the new ones to hold the
    /// given items.
    ResizeBound(usize, Seq<T>),
}

impl<T> QueueModel<T> {
    /// The number of items held.
    pub open spec fn size(self) -> nat {
        self.items.len()
    }

    /// The effective capacity: the ceiling if one is set, and the largest
    /// `usize` otherwise.
    pub open spec fn capacity(self) -> nat {
        match self.bound {
            Some(n) => n as nat,
            None => usize::MAX as nat,
        }
    }

    /// The queue holds no more items than its capacity admits.
    pub open spec fn within_bound(self) -> bool {
        self.size() <= self.capacity()
    }

    /// No further item is admitted.
    pub open spec fn is_full(self) -> bool {
        self.size() >= self.capacity()
    }

    /// The error with which a full queue turns an item away.
    pub open spec fn full_error(self) -> QueueError {
        QueueError::QueueFull { bound: self.capacity() as usize, size: self.size() as usize }
    }

    /// The queue after `item` was offered to it: the item joins at the tail
    /// unless the queue is full, in which case nothing changes.
    pub open spec fn add(self, item: T) -> Self {
        if self.is_full() {
            self
        } else {
            QueueModel { items: self.items.push(item), bound: self.bound }
        }
    }

    /// The oldest item, if there is one.
    pub open spec fn head(self) -> Option<T> {
        if self.size() > 0 {
            Some(self.items[0])
        } else {
            None
        }
    }

    /// The queue after its oldest item was taken; an empty queue stays
    /// empty.
    pub open spec fn deque(self) -> Self {
        if self.size() > 0 {
            QueueModel { items: self.items.drop_first(), bound: self.bound }
        } else {
            self
        }
    }

    /// The item at `index`, counted from the oldest, if there is one.
    pub open spec fn get(self, index: nat) -> Option<T> {
        if index < self.size() {
            Some(self.items[index as int])
        } else {
            None
        }
    }

    /// A capacity of `n` can be set: the items held fit under it.
    pub open spec fn admits_bound(self, n: usize) -> bool {
        self.size() <= n
    }

    /// The error with which a capacity of `n` is refused.
    pub open spec fn bound_error(self, n: usize) -> QueueError {
        QueueError::BoundTooSmall { requested: n, size: self.size() as usize }
    }

    /// The queue after a capacity of `n` was requested: the ceiling moves to
    /// `n` and the items stay, unless they do not fit under `n`, in which
    /// case nothing changes.
    pub open spec fn set_bound(self, n: usize) -> Self {
        if self.admits_bound(n) {
            QueueModel { items: self.items, bound: Some(n) }
        } else {
            self
        }
    }

    /// The queue without a ceiling.
    pub open spec fn clear_bound(self) -> Self {
        QueueModel { items: self.items, bound: None }
    }

    /// The queue after it was resized to `n` places, the new places holding
    /// `filling`: the ceiling moves to `n` and `filling` joins at the tail.
    /// Nothing changes if the items held do not fit under `n`, or if
    /// `filling` is not exactly what takes the queue to `n` items.
    pub open spec fn resize_bound(self, n: usize, filling: Seq<T>) -> Self {
        if self.admits_bound(n) && self.size() + filling.len() == n {
            QueueModel { items: self.items + filling, bound: Some(n) }
        } else {
            self
        }
    }

    /// The queue after `step`.
    pub open spec fn step(self, step: Step<T>) -> Self {
        match step {
            Step::Add(item) => self.add(item),
            Step::Deque => self.deque(),
            Step::SetBound(n) => self.set_bound(n),
            Step::ClearBound => self.clear_bound(),
            Step::ResizeBound(n, filling) => self.resize_bound(n, filling),
        }
    }

    /// The queue after `steps`, taken one after the other.
    pub open spec fn run(self, steps: Seq<Step<T>>) -> Self
        decreases steps.len(),
    {
        if steps.len() == 0 {
            self
        } else {
            self.step(steps[0]).run(steps.drop_first())
        }
    }

    /// The queue after each of `items` was offered to it, the first of them
    /// first.
    pub open spec fn add_all(self, items: Seq<T>) -> Self
        decreases items.len(),
    {
        if items.len() == 0 {
            self
        } else {
            self.add(items[0]).add_all(items.drop_first())
        }
    }

    /// The queue after the oldest item was taken from it `n` times.
    pub open spec fn deque_n(self, n: nat) -> Self
        decreases n,
    {
        if n == 0 {
            self
        } else {
            self.deque().deque_n((n - 1) as nat)
        }
    }

    /// What comes out when the oldest item is taken `n` times, in the order
    /// in which it comes out.
    pub open spec fn heads(self, n: nat) -> Seq<Option<T>>
        decreases n,
    {
        if n == 0 {
            Seq::empty()
        } else {
            seq![self.head()] + self.deque().heads((n - 1) as nat)
        }
    }
}

} // verus!
