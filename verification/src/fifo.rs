use std::collections::VecDeque;
use vstd::prelude::*;

verus! {

/// A first-in first-out queue.
pub struct Fifo<T> {
    queue: VecDeque<T>,
}

impl<T> View for Fifo<T> {
    type V = Seq<T>;

    /// The items of the queue, the oldest first.
    closed spec fn view(&self) -> Seq<T> {
        self.queue@
    }
}

/// What is left of a queue that is being consumed.
pub struct FifoIntoIter<T> {
    queue: VecDeque<T>,
}

impl<T> View for FifoIntoIter<T> {
    type V = Seq<T>;

    /// The items not handed out yet, the next one first.
    closed spec fn view(&self) -> Seq<T> {
        self.queue@
    }
}

impl<T> FifoIntoIter<T> {
    /// Hands out the oldest item left, if any.
    pub fn next(&mut self) -> (item: Option<T>)
        ensures
            old(self)@.len() == 0 ==> item is None && final(self)@ == old(self)@,
            old(self)@.len() > 0 ==> item == Some(old(self)@[0]) && final(self)@
                == old(self)@.drop_first(),
    {
        self.queue.pop_front()
    }
}

/// Takes the items out of a queue one at a time, the oldest first, as they
/// are asked for; what is not taken stays in the queue.
pub struct FifoDrain<'a, T> {
    /// The queue the items are taken from.
    pub fifo: &'a mut Fifo<T>,
}

impl<'a, T> View for FifoDrain<'a, T> {
    type V = Seq<T>;

    /// The items still in the queue, the next one first.
    closed spec fn view(&self) -> Seq<T> {
        (*self.fifo)@
    }
}

impl<'a, T> FifoDrain<'a, T> {
    /// Takes the oldest item left out of the queue, if any.
    pub fn next(&mut self) -> (item: Option<T>)
        ensures
            old(self)@.len() == 0 ==> item is None && final(self)@ == old(self)@,
            old(self)@.len() > 0 ==> item == Some(old(self)@[0]) && final(self)@
                == old(self)@.drop_first(),
            *final(final(self).fifo) == *final(old(self).fifo),
    {
        self.fifo.pop()
    }

    /// Takes every item left out of the queue, the oldest first.
    pub fn collect_all(self) -> (items: Vec<T>)
        ensures
            items@ == self@,
            (*final(self.fifo))@ == Seq::<T>::empty(),
    {
        let mut d = self;
        let mut items: Vec<T> = Vec::new();
        let ghost start = d@;
        while !d.fifo.is_empty()
            invariant
                items@ + d@ == start,
                *final(d.fifo) == *final(self.fifo),
            decreases d@.len(),
        {
            match d.next() {
                Some(item) => {
                    items.push(item);
                    assert(items@ + d@ =~= start);
                },
                None => {},
            }
        }
        assert(items@ =~= start);
        items
    }
}

impl<T> Fifo<T> {
    /// An empty queue.
    pub fn new() -> (f: Fifo<T>)
        ensures
            f@ == Seq::<T>::empty(),
    {
        Fifo { queue: VecDeque::new() }
    }

    /// Adds an item at the back of the queue.
    pub fn push(&mut self, item: T)
        ensures
            final(self)@ == old(self)@.push(item),
    {
        self.queue.push_back(item);
    }

    /// Takes the oldest item out of the queue, if any.
    pub fn pop(&mut self) -> (item: Option<T>)
        ensures
            old(self)@.len() == 0 ==> item is None && final(self)@ == old(self)@,
            old(self)@.len() > 0 ==> item == Some(old(self)@[0]) && final(self)@
                == old(self)@.drop_first(),
    {
        self.queue.pop_front()
    }

    /// Whether the queue holds no item.
    pub fn is_empty(&self) -> (b: bool)
        ensures
            b == (self@.len() == 0),
    {
        self.queue.len() == 0
    }

    /// The number of items in the queue.
    pub fn len(&self) -> (n: usize)
        ensures
            n == self@.len(),
    {
        self.queue.len()
    }

    /// Starts taking the items out of the queue, the oldest first.
    pub fn drain(&mut self) -> (d: FifoDrain<'_, T>)
        ensures
            d@ == old(self)@,
            *final(self) == *final(d.fifo),
    {
        FifoDrain { fifo: self }
    }

    /// Turns the queue into a consumer that hands the items out in order.
    pub fn into_iter(self) -> (it: FifoIntoIter<T>)
        ensures
            it@ == self@,
    {
        FifoIntoIter { queue: self.queue }
    }
}

/// The contents of a queue after pushing `pushed`, one item after the other.
pub open spec fn spec_after_pushes<T>(queue: Seq<T>, pushed: Seq<T>) -> Seq<T>
    decreases pushed.len(),
{
    if pushed.len() == 0 {
        queue
    } else {
        spec_after_pushes(queue, pushed.drop_last()).push(pushed.last())
    }
}

/// Items come out of a queue in the order they went in: after pushing
/// `pushed` onto a queue holding `before`, the queue holds `before` then
/// `pushed`, so that popping hands out all of `before` first, then the
/// pushed items in order.
pub proof fn lemma_fifo_order<T>(before: Seq<T>, pushed: Seq<T>)
    ensures
        spec_after_pushes(before, pushed) == before + pushed,
        (before + pushed).take(before.len() as int) == before,
        (before + pushed).skip(before.len() as int) == pushed,
    decreases pushed.len(),
{
    if pushed.len() > 0 {
        lemma_fifo_order(before, pushed.drop_last());
        assert((before + pushed.drop_last()).push(pushed.last()) =~= before + pushed);
    } else {
        assert(before + pushed =~= before);
    }
    assert((before + pushed).take(before.len() as int) =~= before);
    assert((before + pushed).skip(before.len() as int) =~= pushed);
}

/// What `k` calls of `FifoDrain::next` hand out of a drain over a queue
/// holding `q`, each call as its contract states it, and what the queue holds
/// after them.
pub open spec fn spec_drain_steps<T>(q: Seq<T>, k: nat) -> (Seq<Option<T>>, Seq<T>)
    decreases k,
{
    if k == 0 {
        (Seq::empty(), q)
    } else if q.len() == 0 {
        let rest = spec_drain_steps(q, (k - 1) as nat);
        (seq![None::<T>] + rest.0, rest.1)
    } else {
        let rest = spec_drain_steps(q.drop_first(), (k - 1) as nat);
        (seq![Some(q[0])] + rest.0, rest.1)
    }
}

/// A drain hands the items out oldest first and leaves the rest queued: after
/// `k` items asked of a drain over `q`, the first `k` items of `q` came out (and
/// `None` for every call past its end), and the queue holds the items after
/// them, which it keeps once the drain is dropped.
pub proof fn lemma_drain_takes<T>(q: Seq<T>, k: nat)
    ensures
        spec_drain_steps(q, k).0.len() == k,
        forall|i: int| #![trigger spec_drain_steps(q, k).0[i]] 0 <= i < k ==> spec_drain_steps(q, k).0[i] == if i < q.len() {
            Some(q[i])
        } else {
            None
        },
        spec_drain_steps(q, k).1 == if k <= q.len() {
            q.skip(k as int)
        } else {
            Seq::<T>::empty()
        },
    decreases k,
{
    if k > 0 {
        let out = spec_drain_steps(q, k).0;
        if q.len() == 0 {
            lemma_drain_takes(q, (k - 1) as nat);
            let rest = spec_drain_steps(q, (k - 1) as nat).0;
            assert forall|i: int| 0 <= i < k implies #[trigger] out[i] == None::<T> by {
                if i > 0 {
                    assert(out[i] == rest[i - 1]);
                }
            }
        } else {
            let tail = q.drop_first();
            lemma_drain_takes(tail, (k - 1) as nat);
            let rest = spec_drain_steps(tail, (k - 1) as nat).0;
            assert forall|i: int| 0 <= i < k implies #[trigger] out[i] == if i < q.len() {
                Some(q[i])
            } else {
                None
            } by {
                if i > 0 {
                    assert(out[i] == rest[i - 1]);
                }
            }
            if k <= q.len() {
                assert(tail.skip(k - 1) =~= q.skip(k as int));
            }
        }
    } else {
        assert(q.skip(0) =~= q);
    }
}

} // verus!
