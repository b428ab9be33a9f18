//! The outgoing queue: commands waiting to be written, oldest first.
use std::collections::VecDeque;
use vstd::prelude::*;

verus! {

/// One operation on the queue: a producer appends an item, or the writer
/// takes the oldest one.
pub enum QueueOp<T> {
    Push(T),
    Pop,
}

/// One operation applied to the queue contents `q`: the contents after it,
/// and the item it took out, if any.
pub open spec fn step<T>(q: Seq<T>, op: QueueOp<T>) -> (Seq<T>, Option<T>) {
    match op {
        QueueOp::Push(x) => (q.push(x), None),
        QueueOp::Pop => if q.len() > 0 {
            (q.drop_first(), Some(q[0]))
        } else {
            (q, None)
        },
    }
}

/// A run of operations from `q`, in order: the contents at the end and the
/// items taken out, in the order they were taken.
pub open spec fn run<T>(q: Seq<T>, ops: Seq<QueueOp<T>>) -> (Seq<T>, Seq<T>)
    decreases ops.len(),
{
    if ops.len() == 0 {
        (q, Seq::empty())
    } else {
        let (q1, out1) = run(q, ops.drop_last());
        let (q2, taken) = step(q1, ops.last());
        match taken {
            Some(x) => (q2, out1.push(x)),
            None => (q2, out1),
        }
    }
}

/// The items that a run of operations appends, in order.
pub open spec fn pushed<T>(ops: Seq<QueueOp<T>>) -> Seq<T>
    decreases ops.len(),
{
    if ops.len() == 0 {
        Seq::empty()
    } else {
        match ops.last() {
            QueueOp::Push(x) => pushed(ops.drop_last()).push(x),
            QueueOp::Pop => pushed(ops.drop_last()),
        }
    }
}

/// However pushes and pops interleave, the items come out in the order they
/// went in: what was taken, followed by what is still queued, is what was
/// queued at the start followed by everything pushed, in submission order.
pub proof fn lemma_fifo<T>(q: Seq<T>, ops: Seq<QueueOp<T>>)
    ensures
        run(q, ops).1 + run(q, ops).0 == q + pushed(ops),
    decreases ops.len(),
{
    if ops.len() > 0 {
        lemma_fifo(q, ops.drop_last());
        let (q1, out1) = run(q, ops.drop_last());
        match ops.last() {
            QueueOp::Push(x) => {
                assert(out1 + q1.push(x) =~= (out1 + q1).push(x));
            },
            QueueOp::Pop => {
                if q1.len() > 0 {
                    assert(out1.push(q1[0]) + q1.drop_first() =~= out1 + q1);
                }
            },
        }
    }
}

/// Items waiting to be written, oldest first. Unbounded: pushing never fails.
pub struct OutgoingQueue<T> {
    items: VecDeque<T>,
}

impl<T> View for OutgoingQueue<T> {
    type V = Seq<T>;

    closed spec fn view(&self) -> Seq<T> {
        self.items@
    }
}

impl<T> OutgoingQueue<T> {
    /// An empty queue.
    pub fn new() -> (r: Self)
        ensures
            r@ == Seq::<T>::empty(),
    {
        OutgoingQueue { items: VecDeque::new() }
    }

    /// How many items wait.
    pub fn len(&self) -> (r: usize)
        ensures
            r == self@.len(),
    {
        self.items.len()
    }

    /// Appends `item` behind everything already queued.
    pub fn push(&mut self, item: T)
        ensures
            (final(self)@, None::<T>) == step(old(self)@, QueueOp::Push(item)),
    {
        self.items.push_back(item);
    }

    /// Takes out the oldest item, if there is one.
    pub fn pop_front(&mut self) -> (r: Option<T>)
        ensures
            (final(self)@, r) == step(old(self)@, QueueOp::<T>::Pop),
    {
        self.items.pop_front()
    }
}

} // verus!
