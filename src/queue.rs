//! The bounded first-in first-out queue that hands established connections
//! from the connector to the dispatcher.
use vstd::prelude::*;

use std::collections::VecDeque;

verus! {

/// How many connections the queue holds at most.
pub const QUEUE_CAPACITY: usize = 1000;

/// A bounded queue. A push onto a full queue is refused and the item is
/// handed back, so that the producer keeps it and waits; nothing is dropped.
pub struct ConnectionQueue<T> {
    items: VecDeque<T>,
    capacity: usize,
}

/// One operation on a queue.
pub enum QueueOp<T> {
    Push(T),
    Pop,
}

/// The contents after a push onto `q` with room for `cap`.
pub open spec fn push_spec<T>(q: Seq<T>, cap: nat, x: T) -> Seq<T> {
    if q.len() < cap {
        q.push(x)
    } else {
        q
    }
}

/// The contents after an operation.
pub open spec fn apply_op<T>(q: Seq<T>, cap: nat, op: QueueOp<T>) -> Seq<T> {
    match op {
        QueueOp::Push(x) => push_spec(q, cap, x),
        QueueOp::Pop => if q.len() == 0 {
            q
        } else {
            q.drop_first()
        },
    }
}

/// The contents after a run of operations.
pub open spec fn apply_ops<T>(q: Seq<T>, cap: nat, ops: Seq<QueueOp<T>>) -> Seq<T>
    decreases ops.len(),
{
    if ops.len() == 0 {
        q
    } else {
        apply_ops(apply_op(q, cap, ops[0]), cap, ops.drop_first())
    }
}

/// The items that a run of operations takes out, in the order it takes them.
pub open spec fn popped<T>(q: Seq<T>, cap: nat, ops: Seq<QueueOp<T>>) -> Seq<T>
    decreases ops.len(),
{
    if ops.len() == 0 {
        Seq::empty()
    } else {
        let out = match ops[0] {
            QueueOp::Pop => if q.len() == 0 {
                Seq::empty()
            } else {
                seq![q[0]]
            },
            QueueOp::Push(_) => Seq::empty(),
        };
        out + popped(apply_op(q, cap, ops[0]), cap, ops.drop_first())
    }
}

/// The items that a run of operations puts in, in the order it puts them:
/// the pushes that found room.
pub open spec fn accepted<T>(q: Seq<T>, cap: nat, ops: Seq<QueueOp<T>>) -> Seq<T>
    decreases ops.len(),
{
    if ops.len() == 0 {
        Seq::empty()
    } else {
        let inn = match ops[0] {
            QueueOp::Push(x) => if q.len() < cap {
                seq![x]
            } else {
                Seq::empty()
            },
            QueueOp::Pop => Seq::empty(),
        };
        inn + accepted(apply_op(q, cap, ops[0]), cap, ops.drop_first())
    }
}

impl<T> View for ConnectionQueue<T> {
    type V = Seq<T>;

    closed spec fn view(&self) -> Seq<T> {
        self.items@
    }
}

impl<T> ConnectionQueue<T> {
    /// The bound the queue was made with.
    pub closed spec fn cap(&self) -> nat {
        self.capacity as nat
    }

    pub closed spec fn wf(&self) -> bool {
        &&& self.capacity > 0
        &&& self.items@.len() <= self.capacity
    }

    /// An empty queue that holds at most `capacity` items.
    pub fn new(capacity: usize) -> (r: ConnectionQueue<T>)
        requires
            capacity > 0,
        ensures
            r.wf(),
            r@ == Seq::<T>::empty(),
            r.cap() == capacity,
    {
        ConnectionQueue { items: VecDeque::new(), capacity }
    }

    /// An empty queue with the pipeline's capacity.
    pub fn with_default_capacity() -> (r: ConnectionQueue<T>)
        ensures
            r.wf(),
            r@ == Seq::<T>::empty(),
            r.cap() == QUEUE_CAPACITY,
    {
        ConnectionQueue::new(QUEUE_CAPACITY)
    }

    pub fn len(&self) -> (r: usize)
        ensures
            r == self@.len(),
    {
        self.items.len()
    }

    pub fn capacity(&self) -> (r: usize)
        ensures
            r == self.cap(),
    {
        self.capacity
    }

    pub fn is_empty(&self) -> (r: bool)
        ensures
            r == (self@.len() == 0),
    {
        self.items.len() == 0
    }

    pub fn is_full(&self) -> (r: bool)
        ensures
            r == (self@.len() >= self.cap()),
    {
        self.items.len() >= self.capacity
    }

    /// Appends `item` if there is room. On a full queue the item comes back
    /// unchanged in `Err` and the queue stays as it was: the producer waits
    /// with it until a pop makes room.
    pub fn try_push(&mut self, item: T) -> (r: Result<(), T>)
        requires
            old(self).wf(),
        ensures
            final(self).wf(),
            final(self).cap() == old(self).cap(),
            final(self)@ == push_spec(old(self)@, old(self).cap(), item),
            old(self)@.len() < old(self).cap() <==> r is Ok,
            r is Err ==> r->Err_0 == item,
    {
        if self.items.len() < self.capacity {
            self.items.push_back(item);
            Ok(())
        } else {
            Err(item)
        }
    }

    /// Takes out the oldest item, if there is one.
    pub fn pop(&mut self) -> (r: Option<T>)
        requires
            old(self).wf(),
        ensures
            final(self).wf(),
            final(self).cap() == old(self).cap(),
            final(self)@ == apply_op(old(self)@, old(self).cap(), QueueOp::Pop),
            old(self)@.len() == 0 <==> r is None,
            r is Some ==> r->Some_0 == old(self)@[0],
    {
        let r = self.items.pop_front();
        proof {
            if old(self)@.len() > 0 {
                assert(old(self)@.subrange(1, old(self)@.len() as int) =~= old(self)@.drop_first());
            }
        }
        r
    }
}

/// The queue never holds more than its bound: from contents within the
/// bound, any run of operations leaves contents within the bound.
pub proof fn lemma_never_over_capacity<T>(q: Seq<T>, cap: nat, ops: Seq<QueueOp<T>>)
    requires
        q.len() <= cap,
    ensures
        apply_ops(q, cap, ops).len() <= cap,
    decreases ops.len(),
{
    if ops.len() > 0 {
        lemma_never_over_capacity(apply_op(q, cap, ops[0]), cap, ops.drop_first());
    }
}

/// First in, first out: what a run of operations takes out, followed by what
/// is left, is what was there, followed by the accepted pushes in order. So
/// an item pushed before another is popped before it.
pub proof fn lemma_fifo<T>(q: Seq<T>, cap: nat, ops: Seq<QueueOp<T>>)
    ensures
        popped(q, cap, ops) + apply_ops(q, cap, ops) == q + accepted(q, cap, ops),
    decreases ops.len(),
{
    if ops.len() == 0 {
        assert(q + Seq::<T>::empty() =~= q);
        assert(Seq::<T>::empty() + q =~= q);
    } else {
        let q1 = apply_op(q, cap, ops[0]);
        let rest = ops.drop_first();
        lemma_fifo(q1, cap, rest);
        let tail = apply_ops(q1, cap, rest);
        assert(apply_ops(q, cap, ops) == tail);
        match ops[0] {
            QueueOp::Push(x) => {
                if q.len() < cap {
                    assert(popped(q, cap, ops) =~= popped(q1, cap, rest));
                    assert(accepted(q, cap, ops) =~= seq![x] + accepted(q1, cap, rest));
                    assert(q1 =~= q + seq![x]);
                    assert(q + accepted(q, cap, ops) =~= q1 + accepted(q1, cap, rest));
                    assert(popped(q, cap, ops) + tail =~= q + accepted(q, cap, ops));
                } else {
                    assert(popped(q, cap, ops) =~= popped(q1, cap, rest));
                    assert(accepted(q, cap, ops) =~= accepted(q1, cap, rest));
                }
            },
            QueueOp::Pop => {
                if q.len() == 0 {
                    assert(popped(q, cap, ops) =~= popped(q1, cap, rest));
                    assert(accepted(q, cap, ops) =~= accepted(q1, cap, rest));
                } else {
                    assert(popped(q, cap, ops) =~= seq![q[0]] + popped(q1, cap, rest));
                    assert(accepted(q, cap, ops) =~= accepted(q1, cap, rest));
                    assert(q =~= seq![q[0]] + q1);
                    assert(popped(q, cap, ops) + tail =~= seq![q[0]] + (popped(q1, cap, rest) + tail));
                    assert(q + accepted(q, cap, ops) =~= seq![q[0]] + (q1 + accepted(q1, cap, rest)));
                }
            },
        }
    }
}

} // verus!
