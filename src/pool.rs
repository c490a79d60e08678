use vstd::prelude::*;
use std::collections::VecDeque;

verus! {

/// A pool cannot be made with no workers.
#[derive(Clone, Copy, Debug, PartialEq, Eq, Structural)]
pub struct PoolCreationError;

impl PoolCreationError {
    /// A sentence that says what went wrong.
    pub fn message(&self) -> (r: &'static str)
        ensures
            r@ == "Pool cannot be created with 0 threads"@,
    {
        "Pool cannot be created with 0 threads"
    }
}

/// What a worker takes from the queue.
pub enum Message<J> {
    /// A task to run once.
    NewJob(J),
    /// Stop taking messages.
    Terminate,
}

/// `n` shutdown signals.
pub open spec fn signals<J>(n: nat) -> Seq<Message<J>> {
    Seq::new(n, |i: int| Message::Terminate)
}

/// The queue holding `q` once `jobs` are submitted to it, in order.
pub open spec fn submitted<J>(q: Seq<Message<J>>, jobs: Seq<J>) -> Seq<Message<J>> {
    q + jobs.map_values(|j: J| Message::NewJob(j))
}

/// The messages that successive takes hand out, one take each, until the
/// queue is empty.
pub open spec fn drained<J>(q: Seq<Message<J>>) -> Seq<Message<J>>
    decreases q.len(),
{
    if q.len() == 0 {
        Seq::empty()
    } else {
        seq![q[0]] + drained(q.drop_first())
    }
}

proof fn lemma_drained_is_queue<J>(q: Seq<Message<J>>)
    ensures
        drained(q) == q,
    decreases q.len(),
{
    if q.len() > 0 {
        lemma_drained_is_queue(q.drop_first());
        assert(seq![q[0]] + q.drop_first() =~= q);
    }
}

/// Every task submitted to a pool is handed to exactly one take, whatever the
/// number of tasks: draining a queue to which `jobs` were submitted hands out
/// each job once, at the place of its submission, and nothing else.
pub proof fn lemma_each_task_taken_once<J>(jobs: Seq<J>)
    ensures
        drained(submitted(Seq::empty(), jobs)).len() == jobs.len(),
        forall|i: int|
            0 <= i < jobs.len() ==> #[trigger] drained(submitted(Seq::empty(), jobs))[i]
                == Message::NewJob(jobs[i]),
{
    lemma_drained_is_queue(submitted(Seq::empty(), jobs));
}

/// Shutdown drains the work sent before it: when `jobs` are submitted and
/// then one signal per worker is queued, every job is taken before any
/// signal, and exactly `workers` signals follow them.
pub proof fn lemma_tasks_before_signals<J>(jobs: Seq<J>, workers: nat)
    ensures
        ({
            let q = drained(submitted(Seq::empty(), jobs) + signals::<J>(workers));
            &&& q.len() == jobs.len() + workers
            &&& forall|i: int| 0 <= i < jobs.len() ==> #[trigger] q[i] == Message::NewJob(jobs[i])
            &&& forall|i: int| jobs.len() <= i < q.len() ==> #[trigger] q[i] is Terminate
        }),
{
    lemma_drained_is_queue(submitted(Seq::empty(), jobs) + signals::<J>(workers));
}

/// The queue shared by a pool's workers: tasks and shutdown signals in the
/// order they were sent, for a fixed number of workers.
pub struct TaskQueue<J> {
    items: VecDeque<Message<J>>,
    workers: usize,
}

impl<J> TaskQueue<J> {
    pub closed spec fn pending(&self) -> Seq<Message<J>> {
        self.items@
    }

    pub closed spec fn worker_count(&self) -> nat {
        self.workers as nat
    }

    /// An empty queue for `size` workers; a size of zero is refused.
    pub fn new(size: usize) -> (r: Result<TaskQueue<J>, PoolCreationError>)
        ensures
            size == 0 <==> r is Err,
            r matches Ok(q) ==> q.worker_count() == size && q.pending() == Seq::<Message<J>>::empty(),
    {
        if size == 0 {
            Err(PoolCreationError)
        } else {
            Ok(TaskQueue { items: VecDeque::new(), workers: size })
        }
    }

    /// The number of workers the queue serves.
    pub fn workers(&self) -> (r: usize)
        ensures
            r == self.worker_count(),
    {
        self.workers
    }

    /// Queues a task behind everything sent before it.
    pub fn submit(&mut self, job: J)
        ensures
            final(self).pending() == old(self).pending().push(Message::NewJob(job)),
            final(self).worker_count() == old(self).worker_count(),
    {
        self.items.push_back(Message::NewJob(job));
    }

    /// Queues one shutdown signal per worker, behind everything sent before.
    pub fn shutdown(&mut self)
        ensures
            final(self).pending() == old(self).pending() + signals::<J>(old(self).worker_count()),
            final(self).worker_count() == old(self).worker_count(),
    {
        let ghost start = self.items@;
        let mut k: usize = 0;
        while k < self.workers
            invariant
                k <= self.workers,
                self.workers == old(self).workers,
                start == old(self).items@,
                self.items@ == start + signals::<J>(k as nat),
            decreases self.workers - k,
        {
            self.items.push_back(Message::Terminate);
            assert(start + signals::<J>((k + 1) as nat) =~= (start + signals::<J>(k as nat)).push(
                Message::Terminate,
            ));
            k = k + 1;
        }
    }

    /// Takes the oldest message, if any.
    pub fn take(&mut self) -> (r: Option<Message<J>>)
        ensures
            old(self).pending().len() == 0 ==> r is None && final(self).pending() == old(self).pending(),
            old(self).pending().len() > 0 ==> r == Some(old(self).pending()[0])
                && final(self).pending() == old(self).pending().drop_first(),
            final(self).worker_count() == old(self).worker_count(),
    {
        self.items.pop_front()
    }
}

} // verus!
