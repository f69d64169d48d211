//! What holds of every queue, whatever was done to it.
use vstd::prelude::*;
use crate::model::{QueueModel, Step};

verus! {

/// No operation takes a queue over its capacity.
pub proof fn lemma_step_keeps_bound<T>(queue: QueueModel<T>, step: Step<T>)
    requires
        queue.within_bound(),
    ensures
        queue.step(step).within_bound(),
{
}

/// A queue that starts within its capacity is within its capacity after
/// every operation of any sequence of operations.
pub proof fn lemma_run_keeps_bound<T>(queue: QueueModel<T>, steps: Seq<Step<T>>)
    requires
        queue.within_bound(),
    ensures
        forall|k: int| 0 <= k <= steps.len() ==> (#[trigger] queue.run(steps.take(k))).within_bound(),
{
    assert forall|k: int| 0 <= k <= steps.len() implies (#[trigger] queue.run(
        steps.take(k),
    )).within_bound() by {
        lemma_whole_run_keeps_bound(queue, steps.take(k));
    }
}

proof fn lemma_whole_run_keeps_bound<T>(queue: QueueModel<T>, steps: Seq<Step<T>>)
    requires
        queue.within_bound(),
    ensures
        queue.run(steps).within_bound(),
    decreases steps.len(),
{
    if steps.len() > 0 {
        lemma_step_keeps_bound(queue, steps[0]);
        lemma_whole_run_keeps_bound(queue.step(steps[0]), steps.drop_first());
    }
}

/// What is refused changes nothing: an item offered to a full queue, a
/// capacity or a resize below the number of items held, and taking from an
/// empty queue, which yields `None`.
pub proof fn lemma_refusal_changes_nothing<T>(
    queue: QueueModel<T>,
    item: T,
    n: usize,
    filling: Seq<T>,
)
    ensures
        queue.is_full() ==> queue.add(item) == queue,
        !queue.admits_bound(n) ==> queue.set_bound(n) == queue,
        !queue.admits_bound(n) ==> queue.resize_bound(n, filling) == queue,
        queue.size() == 0 ==> queue.head() is None && queue.deque() == queue,
{
}

/// While there is room for all of them, items that are offered join at the
/// tail in the order in which they are offered, and nothing else changes.
pub proof fn lemma_add_all_joins<T>(queue: QueueModel<T>, items: Seq<T>)
    requires
        queue.size() + items.len() <= queue.capacity(),
    ensures
        queue.add_all(items).items == queue.items + items,
        queue.add_all(items).bound == queue.bound,
    decreases items.len(),
{
    if items.len() > 0 {
        lemma_add_all_joins(queue.add(items[0]), items.drop_first());
        assert(queue.items.push(items[0]) + items.drop_first() =~= queue.items + items);
    } else {
        assert(queue.items + items =~= queue.items);
    }
}

/// Taking the oldest item `n` times hands out the items from the oldest on,
/// each once, and `None` from the moment the queue is empty; the items that
/// were not handed out stay, in their order.
pub proof fn lemma_heads_in_order<T>(queue: QueueModel<T>, n: nat)
    ensures
        queue.heads(n).len() == n,
        forall|i: int| 0 <= i < n ==> #[trigger] queue.heads(n)[i] == queue.get(i as nat),
        queue.deque_n(n).items == queue.items.skip(
            if n <= queue.size() {
                n as int
            } else {
                queue.size() as int
            },
        ),
        queue.deque_n(n).bound == queue.bound,
    decreases n,
{
    if n > 0 {
        let rest = queue.deque();
        let m = (n - 1) as nat;
        lemma_heads_in_order(rest, m);
        assert forall|i: int| 0 <= i < n implies #[trigger] queue.heads(n)[i] == queue.get(
            i as nat,
        ) by {
            if i > 0 {
                assert(queue.heads(n)[i] == rest.heads(m)[i - 1]);
                assert(rest.get((i - 1) as nat) == queue.get(i as nat));
            }
        }
        let taken = if n <= queue.size() {
            n as int
        } else {
            queue.size() as int
        };
        assert(queue.deque_n(n).items =~= queue.items.skip(taken));
    } else {
        assert(queue.items.skip(0) =~= queue.items);
    }
}

/// First in, first out: three items that an empty queue with room for them
/// admitted come out in the order in which they went in, and the queue is
/// empty again.
pub proof fn lemma_first_in_first_out<T>(queue: QueueModel<T>, a: T, b: T, c: T)
    requires
        queue.size() == 0,
        queue.capacity() >= 3,
    ensures
        queue.add(a).add(b).add(c).items == seq![a, b, c],
        queue.add(a).add(b).add(c).head() == Some(a),
        queue.add(a).add(b).add(c).deque().head() == Some(b),
        queue.add(a).add(b).add(c).deque().deque().head() == Some(c),
        queue.add(a).add(b).add(c).deque().deque().deque().size() == 0,
{
    assert(queue.items =~= Seq::<T>::empty());
    assert(queue.add(a).add(b).add(c).items =~= seq![a, b, c]);
}

/// First in, first out, for any number of items: when a queue with room
/// for them has admitted `items`, taking the oldest item again and again
/// hands out the items that were there before and then `items`, each in the
/// order in which it went in, and leaves the queue empty.
pub proof fn lemma_fifo<T>(queue: QueueModel<T>, items: Seq<T>)
    requires
        queue.size() + items.len() <= queue.capacity(),
    ensures
        forall|i: int|
            0 <= i < queue.size() + items.len() ==> #[trigger] queue.add_all(items).heads(
                queue.size() + items.len(),
            )[i] == Some((queue.items + items)[i]),
        queue.add_all(items).deque_n(queue.size() + items.len()).size() == 0,
{
    lemma_add_all_joins(queue, items);
    lemma_heads_in_order(queue.add_all(items), queue.size() + items.len());
}

/// A queue made of a sequence hands the sequence back: taking the oldest
/// item as many times as the sequence is long gives its items in their
/// order and leaves the queue empty.
pub proof fn lemma_round_trip<T>(items: Seq<T>, bound: Option<usize>)
    ensures
        forall|i: int|
            0 <= i < items.len() ==> #[trigger] (QueueModel { items, bound }).heads(items.len())[i]
                == Some(items[i]),
        (QueueModel { items, bound }).deque_n(items.len()).size() == 0,
{
    lemma_heads_in_order(QueueModel { items, bound }, items.len());
}

/// A capacity that the items held fit under is granted and touches no item,
/// and the queue then admits items up to the new capacity.
pub proof fn lemma_raised_bound_admits<T>(queue: QueueModel<T>, n: usize, items: Seq<T>)
    requires
        queue.admits_bound(n),
        queue.size() + items.len() <= n,
    ensures
        queue.set_bound(n).items == queue.items,
        queue.set_bound(n).capacity() == n,
        queue.set_bound(n).add_all(items).items == queue.items + items,
{
    lemma_add_all_joins(queue.set_bound(n), items);
}

/// A queue without a ceiling admits whatever is offered, as long as the
/// number of its items can be counted in a `usize`.
pub proof fn lemma_unbounded_admits<T>(queue: QueueModel<T>, items: Seq<T>)
    requires
        queue.bound is None,
        queue.size() + items.len() <= usize::MAX,
    ensures
        queue.capacity() == usize::MAX,
        queue.add_all(items).items == queue.items + items,
{
    lemma_add_all_joins(queue, items);
}

} // verus!
