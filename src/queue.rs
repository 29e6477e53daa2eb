use std::collections::VecDeque;
use vstd::prelude::*;

verus! {

/// How many tasks may wait in the bridge's queue at once.
pub const QUEUE_CAPACITY: usize = 1024;

/// What a queue holds, in order from the oldest task to the newest, with its
/// bound and whether its producer side has been closed.
pub struct QueueView<T> {
    pub items: Seq<T>,
    pub capacity: nat,
    pub closed: bool,
}

impl<T> QueueView<T> {
    pub open spec fn wf(self) -> bool {
        0 < self.capacity && self.items.len() <= self.capacity
    }

    pub open spec fn is_full(self) -> bool {
        self.items.len() == self.capacity
    }

    /// A producer's task is taken now: the queue is open and has room.
    pub open spec fn accepts(self) -> bool {
        !self.closed && self.items.len() < self.capacity
    }

    /// A producer must wait: the queue is open but at its bound.
    pub open spec fn must_wait(self) -> bool {
        !self.closed && self.is_full()
    }

    pub open spec fn pushed(self, t: T) -> QueueView<T> {
        QueueView { items: self.items.push(t), ..self }
    }

    pub open spec fn popped(self) -> QueueView<T> {
        QueueView { items: self.items.drop_first(), ..self }
    }

    pub open spec fn shut(self) -> QueueView<T> {
        QueueView { closed: true, ..self }
    }
}

/// What the consumer finds when it looks at the queue.
pub enum Dequeued<T> {
    /// The oldest waiting task, now removed from the queue.
    Item(T),
    /// Nothing waits yet, and more may come: the consumer waits.
    Empty,
    /// Nothing waits and the producer side is closed: nothing will ever come.
    Drained,
}

/// A bounded first-in first-out queue of tasks with a producer side that can
/// be closed. A task that does not fit is handed back, never dropped.
pub struct TaskQueue<T> {
    items: VecDeque<T>,
    capacity: usize,
    closed: bool,
}

impl<T> View for TaskQueue<T> {
    type V = QueueView<T>;

    closed spec fn view(&self) -> QueueView<T> {
        QueueView { items: self.items@, capacity: self.capacity as nat, closed: self.closed }
    }
}

impl<T> TaskQueue<T> {
    pub open spec fn wf(&self) -> bool {
        self@.wf()
    }

    /// An empty, open queue that holds at most `capacity` tasks.
    pub fn new(capacity: usize) -> (r: Self)
        requires
            capacity > 0,
        ensures
            r.wf(),
            r@.items == Seq::<T>::empty(),
            r@.capacity == capacity as nat,
            !r@.closed,
    {
        TaskQueue { items: VecDeque::new(), capacity, closed: false }
    }

    /// An empty, open queue with the bridge's bound.
    pub fn bridge() -> (r: Self)
        ensures
            r.wf(),
            r@.items == Seq::<T>::empty(),
            r@.capacity == QUEUE_CAPACITY as nat,
            !r@.closed,
    {
        Self::new(QUEUE_CAPACITY)
    }

    pub fn len(&self) -> (r: usize)
        ensures
            r as nat == self@.items.len(),
    {
        self.items.len()
    }

    pub fn capacity(&self) -> (r: usize)
        ensures
            r as nat == self@.capacity,
    {
        self.capacity
    }

    pub fn is_closed(&self) -> (r: bool)
        ensures
            r == self@.closed,
    {
        self.closed
    }

    pub fn is_full(&self) -> (r: bool)
        requires
            self.wf(),
        ensures
            r == self@.is_full(),
    {
        self.items.len() == self.capacity
    }

    /// Offers a task to the open queue. It is appended behind every task
    /// already waiting when there is room; when the queue is full it comes
    /// back in `Err`, and the producer waits for room and offers it again.
    /// Offering to a closed queue would be a fatal lifecycle bug: the worker
    /// is gone and the task could never be taken.
    pub fn try_enqueue(&mut self, task: T) -> (r: Result<(), T>)
        requires
            old(self).wf(),
            !old(self)@.closed,
        ensures
            final(self).wf(),
            match r {
                Ok(()) => old(self)@.accepts() && final(self)@ == old(self)@.pushed(task),
                Err(t) => old(self)@.must_wait() && t == task && final(self)@ == old(self)@,
            },
    {
        if self.items.len() == self.capacity {
            Err(task)
        } else {
            self.items.push_back(task);
            Ok(())
        }
    }

    /// Takes the oldest waiting task, if there is one.
    pub fn dequeue(&mut self) -> (r: Dequeued<T>)
        requires
            old(self).wf(),
        ensures
            final(self).wf(),
            match r {
                Dequeued::Item(t) => old(self)@.items.len() > 0 && t == old(self)@.items[0]
                    && final(self)@ == old(self)@.popped(),
                Dequeued::Empty => old(self)@.items.len() == 0 && !old(self)@.closed
                    && final(self)@ == old(self)@,
                Dequeued::Drained => old(self)@.items.len() == 0 && old(self)@.closed
                    && final(self)@ == old(self)@,
            },
    {
        match self.items.pop_front() {
            Some(t) => Dequeued::Item(t),
            None => {
                if self.closed {
                    Dequeued::Drained
                } else {
                    Dequeued::Empty
                }
            },
        }
    }

    /// Closes the producer side. Tasks already waiting stay and can still be
    /// taken; no new task is accepted.
    pub fn close(&mut self)
        requires
            old(self).wf(),
        ensures
            final(self).wf(),
            final(self)@ == old(self)@.shut(),
    {
        self.closed = true;
    }
}

/// One move on a queue: a producer offers a task, or the consumer looks for one.
pub enum QueueOp<T> {
    Enqueue(T),
    Dequeue,
}

/// The effect of one move: the queue after it, the task taken by the consumer
/// (if any) and the task accepted from a producer (if any).
pub open spec fn apply_op<T>(v: QueueView<T>, op: QueueOp<T>) -> (QueueView<T>, Seq<T>, Seq<T>) {
    match op {
        QueueOp::Enqueue(t) => if v.accepts() {
            (v.pushed(t), Seq::empty(), seq![t])
        } else {
            (v, Seq::empty(), Seq::empty())
        },
        QueueOp::Dequeue => if v.items.len() > 0 {
            (v.popped(), seq![v.items[0]], Seq::empty())
        } else {
            (v, Seq::empty(), Seq::empty())
        },
    }
}

/// The effect of a run of moves: the queue after them, the tasks taken, in
/// the order taken, and the tasks accepted, in the order accepted.
pub open spec fn apply_ops<T>(v: QueueView<T>, ops: Seq<QueueOp<T>>) -> (QueueView<T>, Seq<T>, Seq<T>)
    decreases ops.len(),
{
    if ops.len() == 0 {
        (v, Seq::empty(), Seq::empty())
    } else {
        let (v1, taken1, accepted1) = apply_op(v, ops[0]);
        let (v2, taken2, accepted2) = apply_ops(v1, ops.drop_first());
        (v2, taken1 + taken2, accepted1 + accepted2)
    }
}

/// Tasks leave in the order they arrived: over any interleaving of offers and
/// takes, what was waiting followed by what was accepted equals what was
/// taken followed by what still waits. From an empty queue, the tasks taken
/// are exactly the first tasks accepted, in the same order.
pub proof fn lemma_fifo_order<T>(v: QueueView<T>, ops: Seq<QueueOp<T>>)
    requires
        v.wf(),
    ensures
        ({
            let (w, taken, accepted) = apply_ops(v, ops);
            &&& w.wf()
            &&& v.items + accepted == taken + w.items
            &&& v.items.len() == 0 ==> taken == accepted.take(taken.len() as int)
        }),
    decreases ops.len(),
{
    if ops.len() > 0 {
        let (v1, taken1, accepted1) = apply_op(v, ops[0]);
        lemma_fifo_order(v1, ops.drop_first());
        let (v2, taken2, accepted2) = apply_ops(v1, ops.drop_first());
        match ops[0] {
            QueueOp::Enqueue(t) => {
                assert(v.items + accepted1 =~= taken1 + v1.items);
            },
            QueueOp::Dequeue => {
                if v.items.len() > 0 {
                    assert(v.items =~= seq![v.items[0]] + v1.items);
                }
                assert(v.items + accepted1 =~= taken1 + v1.items);
            },
        }
        assert(v.items + (accepted1 + accepted2) =~= (v.items + accepted1) + accepted2);
        assert((taken1 + v1.items) + accepted2 =~= taken1 + (v1.items + accepted2));
        assert(taken1 + (taken2 + v2.items) =~= (taken1 + taken2) + v2.items);
    }
    let (w, taken, accepted) = apply_ops(v, ops);
    if v.items.len() == 0 {
        assert(v.items + accepted =~= accepted);
        assert(accepted.take(taken.len() as int) =~= (taken + w.items).take(taken.len() as int));
        assert((taken + w.items).take(taken.len() as int) =~= taken);
    }
}

/// A producer that meets a full, open queue is held, not refused for good and
/// not dropped: its task stays out and the queue is unchanged; one take by the
/// consumer makes room, and the same offer is then accepted.
pub proof fn lemma_full_queue_holds_producer<T>(v: QueueView<T>, t: T)
    requires
        v.wf(),
        !v.closed,
        v.is_full(),
    ensures
        v.must_wait(),
        !v.accepts(),
        apply_op(v, QueueOp::Enqueue(t)).0 == v,
        apply_op(v, QueueOp::Dequeue).1 == seq![v.items[0]],
        apply_op(v, QueueOp::Dequeue).0.accepts(),
        apply_op(apply_op(v, QueueOp::Dequeue).0, QueueOp::Enqueue(t)).2 == seq![t],
{
}

} // verus!
