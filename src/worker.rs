use crate::queue::{apply_ops, Dequeued, QueueOp, QueueView};
use crate::task::{Scorer, Task};
use vstd::prelude::*;

verus! {

/// tokio's one-shot sender, the reply slot that carries a task's single reply.
#[verifier::external_type_specification]
#[verifier::external_body]
#[verifier::reject_recursive_types(T)]
pub struct ExReplySender<T>(tokio::sync::oneshot::Sender<T>);

/// Relies on tokio's `oneshot::Sender::send`: it consumes the slot and never
/// panics; when the receiver is gone it hands the value back unchanged.
pub assume_specification<T>[ tokio::sync::oneshot::Sender::<T>::send ](tx: tokio::sync::oneshot::Sender<T>, t: T) -> (r: Result<(), T>)
    ensures
        r matches Err(v) ==> v == t,
;

/// Where the worker stands between two looks at the queue.
#[derive(Clone, Copy, Debug, PartialEq, Eq, Structural)]
pub enum WorkerPhase {
    /// Ready to take the next task.
    Idle,
    /// Running one task's native call; its reply is not sent yet.
    Busy,
    /// Done for good: it takes and runs nothing more.
    Stopped,
}

/// What the worker's thread does next.
pub enum Action<S, E, N> {
    /// Write the line to the log.
    Log(String),
    /// Run the scorer on the text and send the outcome through the slot.
    Score(Scorer, String, S),
    /// Run entity extraction on the text and send the outcome through the slot.
    Extract(String, E),
    /// Send the number through the slot.
    Answer(i32, N),
    /// Nothing waits yet: block until a task arrives or the queue is closed.
    Wait,
    /// Leave the loop and release the runtime.
    Exit,
}

/// The worker's answer to what it found in the queue, and its phase after.
pub open spec fn decide<S, E, N>(phase: WorkerPhase, event: Dequeued<Task<S, E, N>>) -> (
    WorkerPhase,
    Action<S, E, N>,
) {
    if phase == WorkerPhase::Stopped {
        (WorkerPhase::Stopped, Action::Exit)
    } else {
        match event {
            Dequeued::Empty => (phase, Action::Wait),
            Dequeued::Drained => (WorkerPhase::Stopped, Action::Exit),
            Dequeued::Item(task) => match task {
                Task::Echo(s) => (phase, Action::Log(s)),
                Task::ScorePromptInjection(s, r) => (
                    WorkerPhase::Busy,
                    Action::Score(Scorer::PromptInjection, s, r),
                ),
                Task::ScoreToxicity(s, r) => (WorkerPhase::Busy, Action::Score(Scorer::Toxicity, s, r)),
                Task::PII(s, r) => (WorkerPhase::Busy, Action::Extract(s, r)),
                Task::Test(i, r) => (WorkerPhase::Busy, Action::Answer(i, r)),
                Task::Stop => (WorkerPhase::Stopped, Action::Exit),
            },
        }
    }
}

/// The decisions of the one thread that owns the native runtime. It takes one
/// task at a time, runs it to the end and sends its single reply before it
/// takes the next, and stops at the stop marker or when the queue is drained
/// and closed. Since the queue is first-in first-out, every task queued before
/// the stop marker has run when the worker stops; tasks queued after it never
/// run, and their callers see their reply slots dropped.
pub struct Worker {
    phase: WorkerPhase,
}

impl View for Worker {
    type V = WorkerPhase;

    closed spec fn view(&self) -> WorkerPhase {
        self.phase
    }
}

impl Worker {
    pub fn new() -> (r: Self)
        ensures
            r@ == WorkerPhase::Idle,
    {
        Worker { phase: WorkerPhase::Idle }
    }

    pub fn phase(&self) -> (r: WorkerPhase)
        ensures
            r == self@,
    {
        self.phase
    }

    pub fn is_stopped(&self) -> (r: bool)
        ensures
            r == (self@ == WorkerPhase::Stopped),
    {
        self.phase == WorkerPhase::Stopped
    }

    /// Decides what to do with what the queue gave. A task that needs the
    /// runtime makes the worker busy until its reply has been sent.
    pub fn on_dequeued<S, E, N>(&mut self, event: Dequeued<Task<S, E, N>>) -> (r: Action<S, E, N>)
        requires
            old(self)@ != WorkerPhase::Busy,
        ensures
            (final(self)@, r) == decide(old(self)@, event),
    {
        if self.phase == WorkerPhase::Stopped {
            return Action::Exit;
        }
        match event {
            Dequeued::Empty => Action::Wait,
            Dequeued::Drained => {
                self.phase = WorkerPhase::Stopped;
                Action::Exit
            },
            Dequeued::Item(task) => match task {
                Task::Echo(s) => Action::Log(s),
                Task::ScorePromptInjection(s, r) => {
                    self.phase = WorkerPhase::Busy;
                    Action::Score(Scorer::PromptInjection, s, r)
                },
                Task::ScoreToxicity(s, r) => {
                    self.phase = WorkerPhase::Busy;
                    Action::Score(Scorer::Toxicity, s, r)
                },
                Task::PII(s, r) => {
                    self.phase = WorkerPhase::Busy;
                    Action::Extract(s, r)
                },
                Task::Test(i, r) => {
                    self.phase = WorkerPhase::Busy;
                    Action::Answer(i, r)
                },
                Task::Stop => {
                    self.phase = WorkerPhase::Stopped;
                    Action::Exit
                },
            },
        }
    }

    /// Sends the running task's single reply through its slot and makes the
    /// worker ready for the next task. A caller that stopped waiting has
    /// dropped its receiver: the reply is then handed back and discarded, which
    /// is no error, and the worker goes on just the same.
    pub fn reply<T>(&mut self, slot: tokio::sync::oneshot::Sender<T>, value: T)
        requires
            old(self)@ == WorkerPhase::Busy,
        ensures
            final(self)@ == WorkerPhase::Idle,
    {
        let _ = slot.send(value);
        self.phase = WorkerPhase::Idle;
    }
}

/// The phase once the running task's reply has been sent. It is the same
/// whether or not the caller was still waiting for it.
pub open spec fn after_reply(phase: WorkerPhase) -> WorkerPhase {
    if phase == WorkerPhase::Busy {
        WorkerPhase::Idle
    } else {
        phase
    }
}

/// A run of the worker's loop: for each look at the queue, the decision, then
/// (for a task that needs a reply) the reply, which reached its caller when
/// the paired flag is true. Gives the final phase and the action of each step.
pub open spec fn run_worker<S, E, N>(
    phase: WorkerPhase,
    steps: Seq<(Dequeued<Task<S, E, N>>, bool)>,
) -> (WorkerPhase, Seq<Action<S, E, N>>)
    decreases steps.len(),
{
    if steps.len() == 0 {
        (phase, Seq::empty())
    } else {
        let (p1, a) = decide(phase, steps[0].0);
        let (p2, rest) = run_worker(after_reply(p1), steps.drop_first());
        (p2, seq![a] + rest)
    }
}

/// The action answers exactly the task it was decided for: the same text or
/// number, and that task's own reply slot.
pub open spec fn answers_own_task<S, E, N>(event: Dequeued<Task<S, E, N>>, a: Action<S, E, N>) -> bool {
    match a {
        Action::Exit => true,
        Action::Wait => event is Empty,
        Action::Log(s) => event == Dequeued::<Task<S, E, N>>::Item(Task::Echo(s)),
        Action::Score(Scorer::PromptInjection, s, r) => event == Dequeued::<Task<S, E, N>>::Item(
            Task::ScorePromptInjection(s, r),
        ),
        Action::Score(Scorer::Toxicity, s, r) => event == Dequeued::<Task<S, E, N>>::Item(
            Task::ScoreToxicity(s, r),
        ),
        Action::Extract(s, r) => event == Dequeued::<Task<S, E, N>>::Item(Task::PII(s, r)),
        Action::Answer(i, r) => event == Dequeued::<Task<S, E, N>>::Item(Task::Test(i, r)),
    }
}

/// No cross-talk: in any run, every action that runs or answers a task works on
/// that task's own input and replies through that task's own slot, whatever
/// the order in which the tasks came.
pub proof fn lemma_replies_reach_own_caller<S, E, N>(
    phase: WorkerPhase,
    steps: Seq<(Dequeued<Task<S, E, N>>, bool)>,
)
    ensures
        run_worker(phase, steps).1.len() == steps.len(),
        forall|j: int|
            0 <= j < steps.len() ==> answers_own_task(
                #[trigger] steps[j].0,
                run_worker(phase, steps).1[j],
            ),
    decreases steps.len(),
{
    if steps.len() > 0 {
        let (p1, a) = decide(phase, steps[0].0);
        let tail = steps.drop_first();
        lemma_replies_reach_own_caller(after_reply(p1), tail);
        let acts = run_worker(phase, steps).1;
        assert forall|j: int| 0 <= j < steps.len() implies answers_own_task(
            #[trigger] steps[j].0,
            acts[j],
        ) by {
            if j > 0 {
                assert(steps[j] == tail[j - 1]);
            }
        }
    }
}

/// A stopped worker stays stopped and runs nothing, whatever it is offered.
pub proof fn lemma_stopped_worker_runs_nothing<S, E, N>(steps: Seq<(Dequeued<Task<S, E, N>>, bool)>)
    ensures
        run_worker(WorkerPhase::Stopped, steps).0 == WorkerPhase::Stopped,
        run_worker(WorkerPhase::Stopped, steps).1.len() == steps.len(),
        forall|j: int|
            0 <= j < steps.len() ==> #[trigger] run_worker(WorkerPhase::Stopped, steps).1[j]
                is Exit,
    decreases steps.len(),
{
    if steps.len() > 0 {
        lemma_stopped_worker_runs_nothing(steps.drop_first());
        let acts = run_worker(WorkerPhase::Stopped, steps).1;
        assert forall|j: int| 0 <= j < steps.len() implies #[trigger] acts[j] is Exit by {
            if j > 0 {
                assert(acts[j] == run_worker(WorkerPhase::Stopped, steps.drop_first()).1[j - 1]);
            }
        }
    }
}

/// Once the worker has taken the stop marker it leaves the loop: the step that
/// took it exits, every later step exits, and no task offered after it is run
/// or answered. Any task taken before it was finished and replied to first,
/// since the worker takes nothing while busy.
pub proof fn lemma_nothing_runs_after_stop<S, E, N>(
    phase: WorkerPhase,
    steps: Seq<(Dequeued<Task<S, E, N>>, bool)>,
    k: int,
)
    requires
        phase != WorkerPhase::Busy,
        0 <= k < steps.len(),
        steps[k].0 == Dequeued::<Task<S, E, N>>::Item(Task::Stop),
    ensures
        run_worker(phase, steps).0 == WorkerPhase::Stopped,
        run_worker(phase, steps).1.len() == steps.len(),
        forall|j: int| k <= j < steps.len() ==> #[trigger] run_worker(phase, steps).1[j] is Exit,
    decreases k,
{
    let (p1, a) = decide(phase, steps[0].0);
    let next = after_reply(p1);
    let tail = steps.drop_first();
    if k == 0 {
        lemma_stopped_worker_runs_nothing(tail);
    } else {
        assert(tail[k - 1] == steps[k]);
        lemma_nothing_runs_after_stop(next, tail, k - 1);
    }
    let acts = run_worker(phase, steps).1;
    assert forall|j: int| k <= j < steps.len() implies #[trigger] acts[j] is Exit by {
        if j > 0 {
            assert(acts[j] == run_worker(next, tail).1[j - 1]);
        }
    }
}

/// Every task taken before the stop marker is run: from a ready worker, each
/// step that takes a task other than the marker runs or logs it, and the
/// worker is ready again once the reply is sent.
pub proof fn lemma_tasks_before_stop_run<S, E, N>(
    steps: Seq<(Dequeued<Task<S, E, N>>, bool)>,
    k: int,
)
    requires
        0 <= k <= steps.len(),
        forall|j: int|
            0 <= j < k ==> (#[trigger] steps[j].0 is Item) && !(steps[j].0 == Dequeued::<
                Task<S, E, N>,
            >::Item(Task::Stop)),
    ensures
        run_worker(WorkerPhase::Idle, steps).1.len() == steps.len(),
        forall|j: int|
            0 <= j < k ==> !(#[trigger] run_worker(WorkerPhase::Idle, steps).1[j] is Exit)
                && !(run_worker(WorkerPhase::Idle, steps).1[j] is Wait),
    decreases k,
{
    lemma_replies_reach_own_caller(WorkerPhase::Idle, steps);
    if k > 0 {
        let (p1, a) = decide(WorkerPhase::Idle, steps[0].0);
        let tail = steps.drop_first();
        assert(after_reply(p1) == WorkerPhase::Idle);
        assert forall|j: int|
            0 <= j < k - 1 implies (#[trigger] tail[j].0 is Item) && !(tail[j].0
            == Dequeued::<Task<S, E, N>>::Item(Task::Stop)) by {
            assert(tail[j] == steps[j + 1]);
        }
        lemma_tasks_before_stop_run(tail, k - 1);
        let acts = run_worker(WorkerPhase::Idle, steps).1;
        assert forall|j: int| 0 <= j < k implies !(#[trigger] acts[j] is Exit) && !(acts[j] is Wait) by {
            if j > 0 {
                assert(acts[j] == run_worker(WorkerPhase::Idle, tail).1[j - 1]);
            }
        }
    }
}

/// The steps of a worker that is handed, one by one, the tasks taken from the
/// queue, each reply reaching its caller when the paired flag is true.
pub open spec fn steps_for<S, E, N>(taken: Seq<Task<S, E, N>>, delivered: Seq<bool>) -> Seq<
    (Dequeued<Task<S, E, N>>, bool),
> {
    Seq::new(taken.len(), |j: int| (Dequeued::Item(taken[j]), delivered[j]))
}

/// Strict arrival order across the whole bridge: starting from an empty queue,
/// whatever the interleaving of producers' offers and the worker's takes, the
/// worker's j-th step works on the j-th task accepted into the queue, with
/// that task's own input and reply slot. Since the worker takes nothing while
/// a task is running, a task accepted earlier has finished before a later one
/// starts.
pub proof fn lemma_bridge_runs_in_arrival_order<S, E, N>(
    v: QueueView<Task<S, E, N>>,
    ops: Seq<QueueOp<Task<S, E, N>>>,
    delivered: Seq<bool>,
)
    requires
        v.wf(),
        v.items.len() == 0,
        delivered.len() == apply_ops(v, ops).1.len(),
    ensures
        ({
            let (w, taken, accepted) = apply_ops(v, ops);
            let acts = run_worker(WorkerPhase::Idle, steps_for(taken, delivered)).1;
            &&& taken.len() <= accepted.len()
            &&& acts.len() == taken.len()
            &&& forall|j: int|
                0 <= j < taken.len() ==> answers_own_task(
                    Dequeued::Item(accepted[j]),
                    #[trigger] acts[j],
                )
        }),
{
    crate::queue::lemma_fifo_order(v, ops);
    let (w, taken, accepted) = apply_ops(v, ops);
    let steps = steps_for(taken, delivered);
    lemma_replies_reach_own_caller(WorkerPhase::Idle, steps);
    let acts = run_worker(WorkerPhase::Idle, steps).1;
    assert forall|j: int| 0 <= j < taken.len() implies answers_own_task(
        Dequeued::Item(accepted[j]),
        #[trigger] acts[j],
    ) by {
        assert(steps[j].0 == Dequeued::Item(taken[j]));
        assert(taken[j] == accepted.take(taken.len() as int)[j]);
    }
}

/// A caller that stopped waiting changes nothing for the others: the worker's
/// decisions and its final phase do not depend on which replies reached their
/// callers.
pub proof fn lemma_abandoned_replies_block_nothing<S, E, N>(
    phase: WorkerPhase,
    steps: Seq<(Dequeued<Task<S, E, N>>, bool)>,
    delivered: Seq<bool>,
)
    requires
        delivered.len() == steps.len(),
    ensures
        run_worker(phase, steps) == run_worker(
            phase,
            Seq::new(steps.len(), |j: int| (steps[j].0, delivered[j])),
        ),
    decreases steps.len(),
{
    let other = Seq::new(steps.len(), |j: int| (steps[j].0, delivered[j]));
    if steps.len() > 0 {
        let (p1, a) = decide(phase, steps[0].0);
        let tail = steps.drop_first();
        lemma_abandoned_replies_block_nothing(after_reply(p1), tail, delivered.drop_first());
        assert(other.drop_first() =~= Seq::new(tail.len(), |j: int| (tail[j].0, delivered.drop_first()[j])));
    }
}

} // verus!
