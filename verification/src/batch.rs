use std::collections::VecDeque;
use vstd::prelude::*;

verus! {

/// An ordered batch of items to send, built by queueing single items and
/// chaining runs of items, and consumed in the order they were queued.
pub struct Batch<T> {
    items: VecDeque<T>,
}

impl<T> View for Batch<T> {
    type V = Seq<T>;

    /// Every item of the batch, in the order it will be handed out.
    closed spec fn view(&self) -> Seq<T> {
        self.items@
    }
}

/// What is left of a batch that is being consumed.
pub struct BatchIterator<T> {
    items: VecDeque<T>,
}

impl<T> View for BatchIterator<T> {
    type V = Seq<T>;

    /// The items not handed out yet, the next one first.
    closed spec fn view(&self) -> Seq<T> {
        self.items@
    }
}

impl<T> Batch<T> {
    /// An empty batch.
    pub fn new() -> (b: Batch<T>)
        ensures
            b@ == Seq::<T>::empty(),
    {
        Batch { items: VecDeque::new() }
    }

    /// Queues one item after those already in the batch.
    pub fn queue(&mut self, item: T)
        ensures
            final(self)@ == old(self)@.push(item),
    {
        self.items.push_back(item);
    }

    /// Queues a run of items, in their order, after those already in the batch.
    pub fn chain_iter(&mut self, items: Vec<T>)
        ensures
            final(self)@ == old(self)@ + items@,
    {
        let mut items = items;
        let ghost start = self@;
        let ghost all = items@;
        let mut rest: VecDeque<T> = VecDeque::new();
        // Move the run into a queue so that its items can be taken from the front.
        while items.len() > 0
            invariant
                items@ + rest@ == all,
            decreases items@.len(),
        {
            let ghost before = items@;
            let last = items.pop().unwrap();
            rest.push_front(last);
            assert(items@ + rest@ =~= all);
        }
        assert(items@ + rest@ =~= rest@);
        while rest.len() > 0
            invariant
                self@ + rest@ == start + all,
            decreases rest@.len(),
        {
            let ghost before = rest@;
            match rest.pop_front() {
                Some(item) => {
                    self.items.push_back(item);
                    assert(self@ + rest@ =~= start + all);
                },
                None => {},
            }
        }
        assert(self@ =~= start + all);
    }

    /// Whether the batch holds no item.
    pub fn is_empty(&self) -> (b: bool)
        ensures
            b == (self@.len() == 0),
    {
        self.items.len() == 0
    }

    /// The number of items in the batch.
    pub fn len(&self) -> (n: usize)
        ensures
            n == self@.len(),
    {
        self.items.len()
    }

    /// Starts handing out the items of the batch, in the order they were queued.
    pub fn into_iter(self) -> (it: BatchIterator<T>)
        ensures
            it@ == self@,
    {
        BatchIterator { items: self.items }
    }
}

impl<T> BatchIterator<T> {
    /// Hands out the next item of the batch, if any.
    pub fn next(&mut self) -> (item: Option<T>)
        ensures
            old(self)@.len() == 0 ==> item is None && final(self)@ == old(self)@,
            old(self)@.len() > 0 ==> item == Some(old(self)@[0]) && final(self)@
                == old(self)@.drop_first(),
    {
        self.items.pop_front()
    }

    /// Hands out every item left, in order.
    pub fn collect_all(self) -> (items: Vec<T>)
        ensures
            items@ == self@,
    {
        let mut it = self;
        let mut items: Vec<T> = Vec::new();
        let ghost start = it@;
        while it.items.len() > 0
            invariant
                items@ + it@ == start,
            decreases it@.len(),
        {
            match it.items.pop_front() {
                Some(item) => {
                    items.push(item);
                    assert(items@ + it@ =~= start);
                },
                None => {},
            }
        }
        assert(items@ =~= start);
        items
    }
}

/// What a batch holds after runs of items were added to it one after the
/// other, each by `queue` (a run of one item) or `chain_iter`.
pub open spec fn spec_after_runs<T>(start: Seq<T>, runs: Seq<Seq<T>>) -> Seq<T>
    decreases runs.len(),
{
    if runs.len() == 0 {
        start
    } else {
        spec_after_runs(start, runs.drop_last()) + runs.last()
    }
}

/// A batch hands its items out in the order they were added: what was in it
/// comes first, then the items of every run added, run after run, each run in
/// its own order.
pub proof fn lemma_batch_order<T>(start: Seq<T>, runs: Seq<Seq<T>>)
    ensures
        spec_after_runs(start, runs) == start + runs.flatten(),
    decreases runs.len(),
{
    runs.lemma_flatten_and_flatten_alt_are_equivalent();
    if runs.len() == 0 {
        assert(start + runs.flatten() =~= start);
    } else {
        let prev = runs.drop_last();
        lemma_batch_order(start, prev);
        prev.lemma_flatten_and_flatten_alt_are_equivalent();
        assert(spec_after_runs(start, runs) =~= start + runs.flatten());
    }
}

} // verus!
