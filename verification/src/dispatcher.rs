//! The dispatcher: a bounded FIFO hand-off queue between file detection and
//! worker spawning.
//!
//! The queue holds at most its fixed capacity. An enqueue on a full queue
//! does not drop the task and does not grow the queue: it reports that the
//! producer must block until a slot frees (backpressure). Dequeue order is
//! first-in, first-out; the queue is the sole hand-off point between
//! ingestion and processing.

use vstd::prelude::*;

verus! {

/// A detected file awaiting processing, identified by its path.
pub struct FileTask {
    /// The detected file's path.
    pub path: String,
}

/// What an enqueue attempt did.
pub enum EnqueueOutcome {
    /// The task took a free slot.
    Accepted,
    /// The queue is full: the producer must wait for a consumer.
    WouldBlock,
}

/// One enqueue step on the queue model: append below capacity, reject at
/// capacity.
pub open spec fn spec_enqueue(tasks: Seq<FileTask>, capacity: nat, task: FileTask) -> (
    Seq<FileTask>,
    EnqueueOutcome,
) {
    if tasks.len() < capacity {
        (tasks.push(task), EnqueueOutcome::Accepted)
    } else {
        (tasks, EnqueueOutcome::WouldBlock)
    }
}

/// The queue contents after enqueuing a whole sequence of tasks, in order.
pub open spec fn spec_enqueue_all(tasks: Seq<FileTask>, capacity: nat, incoming: Seq<FileTask>) -> Seq<
    FileTask,
>
    decreases incoming.len(),
{
    if incoming.len() == 0 {
        tasks
    } else {
        spec_enqueue_all(
            spec_enqueue(tasks, capacity, incoming.first()).0,
            capacity,
            incoming.drop_first(),
        )
    }
}

/// While there is room for a whole incoming sequence, every task of it is
/// accepted and the queue ends as the concatenation, order kept.
pub proof fn lemma_enqueue_all_fits(tasks: Seq<FileTask>, capacity: nat, incoming: Seq<FileTask>)
    requires
        tasks.len() + incoming.len() <= capacity,
    ensures
        spec_enqueue_all(tasks, capacity, incoming) == tasks + incoming,
    decreases incoming.len(),
{
    if incoming.len() == 0 {
        assert(tasks + incoming =~= tasks);
    } else {
        lemma_enqueue_all_fits(tasks.push(incoming.first()), capacity, incoming.drop_first());
        assert(tasks.push(incoming.first()) + incoming.drop_first() =~= tasks + incoming);
    }
}

/// Bounded queue backpressure: with capacity `C`, enqueuing `C + 1` tasks
/// into an empty queue accepts exactly the first `C`, in order, and the
/// `C + 1`-th attempt must block; nothing is dropped and nothing exceeds
/// the capacity.
pub proof fn lemma_bounded_queue_backpressure(capacity: nat, incoming: Seq<FileTask>)
    requires
        incoming.len() == capacity + 1,
    ensures
        spec_enqueue_all(Seq::<FileTask>::empty(), capacity, incoming.take(capacity as int))
            =~= incoming.take(capacity as int),
        spec_enqueue(
            spec_enqueue_all(Seq::<FileTask>::empty(), capacity, incoming.take(capacity as int)),
            capacity,
            incoming[capacity as int],
        ) == (
        spec_enqueue_all(Seq::<FileTask>::empty(), capacity, incoming.take(capacity as int)),
        EnqueueOutcome::WouldBlock,
        ),
{
    lemma_enqueue_all_fits(Seq::<FileTask>::empty(), capacity, incoming.take(capacity as int));
    assert(Seq::<FileTask>::empty() + incoming.take(capacity as int) =~= incoming.take(
        capacity as int,
    ));
}

/// The bounded hand-off queue between event production and worker
/// consumption.
pub struct Dispatcher {
    queue: Vec<FileTask>,
    capacity: usize,
}

impl Dispatcher {
    /// The queued tasks, oldest first.
    pub closed spec fn spec_tasks(&self) -> Seq<FileTask> {
        self.queue@
    }

    /// The fixed capacity.
    pub closed spec fn spec_capacity(&self) -> nat {
        self.capacity as nat
    }

    /// The queue never exceeds its capacity.
    pub open spec fn wf(&self) -> bool {
        self.spec_tasks().len() <= self.spec_capacity()
    }

    /// An empty queue of the given capacity.
    pub fn new(capacity: usize) -> (d: Self)
        requires
            capacity >= 1,
        ensures
            d.wf(),
            d.spec_capacity() == capacity,
            d.spec_tasks() == Seq::<FileTask>::empty(),
    {
        Dispatcher { queue: Vec::new(), capacity }
    }

    /// How many tasks are queued.
    pub fn len(&self) -> (n: usize)
        ensures
            n == self.spec_tasks().len(),
    {
        self.queue.len()
    }

    /// Attempt to enqueue a task. A full queue reports backpressure and is
    /// left unchanged; otherwise the task joins the tail.
    pub fn try_enqueue(&mut self, task: FileTask) -> (outcome: EnqueueOutcome)
        requires
            old(self).wf(),
        ensures
            final(self).wf(),
            final(self).spec_capacity() == old(self).spec_capacity(),
            (final(self).spec_tasks(), outcome) == spec_enqueue(
                old(self).spec_tasks(),
                old(self).spec_capacity(),
                task,
            ),
    {
        if self.queue.len() < self.capacity {
            self.queue.push(task);
            EnqueueOutcome::Accepted
        } else {
            EnqueueOutcome::WouldBlock
        }
    }

    /// Dequeue the oldest task, if any: first-in, first-out.
    pub fn dequeue(&mut self) -> (task: Option<FileTask>)
        requires
            old(self).wf(),
        ensures
            final(self).wf(),
            final(self).spec_capacity() == old(self).spec_capacity(),
            old(self).spec_tasks().len() == 0 ==> task is None && *final(self) == *old(self),
            old(self).spec_tasks().len() > 0 ==> (task == Some(old(self).spec_tasks().first())
                && final(self).spec_tasks() == old(self).spec_tasks().drop_first()),
    {
        if self.queue.len() == 0 {
            None
        } else {
            let task = self.queue.remove(0);
            assert(self.queue@ =~= old(self).queue@.drop_first());
            Some(task)
        }
    }
}

} // verus!
