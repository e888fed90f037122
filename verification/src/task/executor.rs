//! The executor: a task set, a ready queue of task ids, and a cache of wakers.

use super::{Progress, Task, TaskId};
use crossbeam_queue::ArrayQueue;
use std::collections::BTreeMap;
use std::sync::Arc;
use vstd::prelude::*;

verus! {

use crate::queue::{id_queue_capacity, new_id_queue, share_queue};

broadcast use vstd::laws_cmp::group_laws_cmp;

/// Number of task ids that the ready queue of an executor can hold.
pub const READY_QUEUE_CAPACITY: usize = 100;

/// The ready queue was full. The error carries the id that the queue would
/// not take.
#[derive(Debug, Clone, Copy, PartialEq, Eq, Structural)]
pub struct QueueFull(pub TaskId);

/// Capability to make one task ready again: the task's id and a handle to
/// the ready queue of its executor.
pub struct TaskWaker {
    task_id: u64,
    task_queue: Arc<ArrayQueue<u64>>,
}

impl TaskWaker {
    /// The task that this waker makes ready.
    pub closed spec fn id(&self) -> TaskId {
        TaskId(self.task_id)
    }

    /// The ready queue that this waker pushes to.
    pub closed spec fn queue(&self) -> Arc<ArrayQueue<u64>> {
        self.task_queue
    }

    /// Binds a task id to a ready queue.
    pub fn new(task_id: TaskId, task_queue: Arc<ArrayQueue<u64>>) -> (waker: TaskWaker)
        ensures
            waker.id() == task_id,
            waker.queue() == task_queue,
    {
        TaskWaker { task_id: task_id.0, task_queue }
    }

    /// Returns the id of the task that this waker makes ready.
    pub fn task_id(&self) -> (id: TaskId)
        ensures
            id == self.id(),
    {
        TaskId(self.task_id)
    }

    /// Puts the task's id on the ready queue. Never blocks and never
    /// allocates. Reports a full queue to the caller, for whom it is fatal:
    /// the error names the task that could not be made ready, which is this
    /// waker's.
    pub fn wake_task(&self) -> (woken: Result<(), QueueFull>)
        ensures
            woken matches Err(refused) ==> refused == QueueFull(self.id()),
    {
        wake_outcome(self.task_queue.push(self.task_id))
    }
}

impl Default for TaskWaker {
    /// A waker for task 0 with a queue of its own that holds one id.
    fn default() -> (waker: Self)
        ensures
            waker.id() == TaskId(0),
            id_queue_capacity(*waker.queue()) == 1,
    {
        TaskWaker { task_id: 0, task_queue: Arc::new(new_id_queue(1)) }
    }
}

impl Clone for TaskWaker {
    /// A copy wakes the same task through the same queue.
    fn clone(&self) -> (copy: Self)
        ensures
            copy.id() == self.id(),
            copy.queue() == self.queue(),
    {
        TaskWaker { task_id: self.task_id, task_queue: share_queue(&self.task_queue) }
    }
}

/// What a wake comes to, given what the ready queue said to the push: the
/// id that the queue handed back is the one that could not be made ready.
pub fn wake_outcome(pushed: Result<(), u64>) -> (woken: Result<(), QueueFull>)
    ensures
        woken == match pushed {
            Ok(()) => Ok::<(), QueueFull>(()),
            Err(id) => Err::<(), QueueFull>(QueueFull(TaskId(id))),
        },
{
    match pushed {
        Ok(()) => Ok(()),
        Err(id) => Err(QueueFull(TaskId(id))),
    }
}

/// Why a task could not be taken on.
#[derive(Debug, Clone, Copy, PartialEq, Eq, Structural)]
pub enum SpawnError {
    /// Every task id has been given out.
    IdsExhausted,
    /// The ready queue had no room for the new task's id, which the error
    /// carries.
    QueueFull(TaskId),
}

/// What the executor did with one id taken from the ready queue.
#[derive(Debug, Clone, Copy, PartialEq, Eq, Structural)]
pub enum TaskStep {
    /// No task has this id any more: a stale wake, passed over.
    Skipped,
    /// The task was resumed and finished; it has left the task set.
    Completed,
    /// The task was resumed and suspended itself again; it stays stored.
    Suspended,
}

/// What the executor does once the ready queue has been drained.
#[derive(Debug, Clone, Copy, PartialEq, Eq, Structural)]
pub enum IdleAction {
    /// Nothing is ready: wait for the next interrupt in a halted state.
    Halt,
    /// A wake arrived in the meantime: go on with the next drain pass.
    Continue,
}

/// The idle decision, given whether the ready queue was found empty while
/// interrupts were off.
pub fn idle_action(queue_empty: bool) -> (action: IdleAction)
    ensures
        action == if queue_empty {
            IdleAction::Halt
        } else {
            IdleAction::Continue
        },
{
    if queue_empty {
        IdleAction::Halt
    } else {
        IdleAction::Continue
    }
}

/// The ids of the tasks that an executor stores and of those that it keeps
/// a waker for.
pub struct TaskSets {
    pub tasks: Set<TaskId>,
    pub wakers: Set<TaskId>,
}

/// A ready id is skipped exactly when no stored task has it.
pub open spec fn step_fits(sets: TaskSets, id: TaskId, step: TaskStep) -> bool {
    step == TaskStep::Skipped <==> !sets.tasks.contains(id)
}

/// The sets after the ready id `id` has been handled with result `step`: a
/// finished task leaves both sets, a suspended one has its waker kept, a
/// skipped id changes nothing.
pub open spec fn after_step(sets: TaskSets, id: TaskId, step: TaskStep) -> TaskSets {
    match step {
        TaskStep::Skipped => sets,
        TaskStep::Completed => TaskSets {
            tasks: sets.tasks.remove(id),
            wakers: sets.wakers.remove(id),
        },
        TaskStep::Suspended => TaskSets { tasks: sets.tasks, wakers: sets.wakers.insert(id) },
    }
}

/// The sets after the ready ids of `steps` have been handled in order.
pub open spec fn after_steps(sets: TaskSets, steps: Seq<(TaskId, TaskStep)>) -> TaskSets
    decreases steps.len(),
{
    if steps.len() == 0 {
        sets
    } else {
        after_step(after_steps(sets, steps.drop_last()), steps.last().0, steps.last().1)
    }
}

/// Each step of `steps` fits the sets that the steps before it leave.
pub open spec fn steps_fit(sets: TaskSets, steps: Seq<(TaskId, TaskStep)>) -> bool
    decreases steps.len(),
{
    steps.len() == 0 || (steps_fit(sets, steps.drop_last()) && step_fits(
        after_steps(sets, steps.drop_last()),
        steps.last().0,
        steps.last().1,
    ))
}

/// A single-threaded cooperative scheduler.
pub struct Executor {
    tasks: BTreeMap<u64, Task>,
    task_queue: Arc<ArrayQueue<u64>>,
    waker_cache: BTreeMap<u64, TaskWaker>,
    next_id: u64,
}

impl Default for Executor {
    /// The same as `Executor::new`.
    fn default() -> (executor: Self)
        ensures
            executor.wf(),
            executor.task_ids() == Set::<TaskId>::empty(),
            executor.cached_wakers() == Set::<TaskId>::empty(),
            executor.next_task_id() == TaskId(0),
            id_queue_capacity(*executor.ready_queue()) == READY_QUEUE_CAPACITY,
    {
        Executor::new()
    }
}

impl Executor {
    /// Ids of the tasks that the executor holds.
    pub closed spec fn task_ids(&self) -> Set<TaskId> {
        Set::new(|id: TaskId| self.tasks@.contains_key(id.0))
    }

    /// Ids of the tasks for which a waker has been built and kept.
    pub closed spec fn cached_wakers(&self) -> Set<TaskId> {
        Set::new(|id: TaskId| self.waker_cache@.contains_key(id.0))
    }

    /// The id that the next spawned task will get.
    pub closed spec fn next_task_id(&self) -> TaskId {
        TaskId(self.next_id)
    }

    /// The ready queue that the executor drains and its wakers push to.
    pub closed spec fn ready_queue(&self) -> Arc<ArrayQueue<u64>> {
        self.task_queue
    }

    /// Every kept waker carries the id it is kept under and pushes to this
    /// executor's queue.
    pub closed spec fn wakers_bound(&self) -> bool {
        forall|id: u64| #[trigger]
            self.waker_cache@.contains_key(id) ==> self.waker_cache@[id].task_id == id
                && self.waker_cache@[id].task_queue == self.task_queue
    }

    /// Ids are given out in ascending order, so every stored task has an id
    /// below the next one; a waker is kept only for a stored task and is
    /// bound to that task and to this executor's queue.
    pub open spec fn wf(&self) -> bool {
        &&& forall|id: TaskId| #[trigger]
            self.task_ids().contains(id) ==> id.0 < self.next_task_id().0
        &&& self.cached_wakers().subset_of(self.task_ids())
        &&& self.wakers_bound()
    }

    /// Creates an executor without tasks.
    pub fn new() -> (executor: Executor)
        ensures
            executor.wf(),
            executor.task_ids() == Set::<TaskId>::empty(),
            executor.cached_wakers() == Set::<TaskId>::empty(),
            executor.next_task_id() == TaskId(0),
            id_queue_capacity(*executor.ready_queue()) == READY_QUEUE_CAPACITY,
    {
        let executor = Executor {
            tasks: BTreeMap::new(),
            task_queue: Arc::new(new_id_queue(READY_QUEUE_CAPACITY)),
            waker_cache: BTreeMap::new(),
            next_id: 0,
        };
        assert(executor.task_ids() =~= Set::<TaskId>::empty());
        assert(executor.cached_wakers() =~= Set::<TaskId>::empty());
        executor
    }

    /// Tells whether the executor holds a task with this id.
    pub fn contains(&self, id: TaskId) -> (held: bool)
        ensures
            held == self.task_ids().contains(id),
    {
        self.tasks.contains_key(&id.0)
    }

    /// Number of tasks that the executor holds.
    pub fn task_count(&self) -> (count: usize)
        ensures
            count == self.task_ids().len(),
    {
        proof {
            self.lemma_task_ids_len();
        }
        self.tasks.len()
    }

    proof fn lemma_task_ids_len(&self)
        ensures
            self.task_ids().len() == self.tasks@.dom().len(),
            self.tasks@.dom().finite(),
    {
        let dom = self.tasks@.dom();
        assert(self.task_ids() =~= dom.map(|k: u64| TaskId(k))) by {
            assert forall|id: TaskId| self.task_ids().contains(id) implies dom.map(
                |k: u64| TaskId(k),
            ).contains(id) by {
                assert(dom.contains(id.0) && TaskId(id.0) == id);
            }
        }
        vstd::set_lib::lemma_map_size(dom, self.task_ids(), |k: u64| TaskId(k));
    }

    /// Takes on a task: gives it the next id, puts that id on the ready queue
    /// and stores the task. Fails, leaving the executor as it was, when no
    /// id is left or the ready queue is full; the error then carries the id
    /// that the queue would not take, which is the one the task was to get.
    pub fn spawn(&mut self, task: Task) -> (spawned: Result<TaskId, SpawnError>)
        requires
            old(self).wf(),
        ensures
            final(self).wf(),
            final(self).ready_queue() == old(self).ready_queue(),
            final(self).cached_wakers() == old(self).cached_wakers(),
            old(self).next_task_id().0 == u64::MAX ==> spawned == Err::<TaskId, SpawnError>(
                SpawnError::IdsExhausted,
            ),
            old(self).next_task_id().0 < u64::MAX ==> spawned == Ok::<TaskId, SpawnError>(
                old(self).next_task_id(),
            ) || spawned == Err::<TaskId, SpawnError>(
                SpawnError::QueueFull(old(self).next_task_id()),
            ),
            spawned is Ok ==> final(self).task_ids() == old(self).task_ids().insert(
                old(self).next_task_id(),
            ) && !old(self).task_ids().contains(old(self).next_task_id())
                && final(self).next_task_id().0 == old(self).next_task_id().0 + 1,
            spawned is Err ==> final(self).task_ids() == old(self).task_ids()
                && final(self).next_task_id() == old(self).next_task_id(),
    {
        if self.next_id == u64::MAX {
            return Err(SpawnError::IdsExhausted);
        }
        let pushed = self.task_queue.push(self.next_id);
        self.enroll(task, pushed)
    }

    /// Second half of `spawn`: stores the task under the next id if the ready
    /// queue took that id, and turns the queue's refusal into an error that
    /// carries the id that the queue handed back.
    pub fn enroll(&mut self, task: Task, pushed: Result<(), u64>) -> (spawned: Result<
        TaskId,
        SpawnError,
    >)
        requires
            old(self).wf(),
            old(self).next_task_id().0 < u64::MAX,
        ensures
            final(self).wf(),
            final(self).ready_queue() == old(self).ready_queue(),
            final(self).cached_wakers() == old(self).cached_wakers(),
            pushed is Ok ==> spawned == Ok::<TaskId, SpawnError>(old(self).next_task_id())
                && final(self).task_ids() == old(self).task_ids().insert(old(self).next_task_id())
                && !old(self).task_ids().contains(old(self).next_task_id())
                && final(self).next_task_id().0 == old(self).next_task_id().0 + 1,
            pushed matches Err(refused) ==> spawned == Err::<TaskId, SpawnError>(
                SpawnError::QueueFull(TaskId(refused)),
            ) && final(self).task_ids() == old(self).task_ids() && final(self).next_task_id()
                == old(self).next_task_id(),
    {
        match pushed {
            Err(refused) => Err(SpawnError::QueueFull(TaskId(refused))),
            Ok(()) => {
                let id = self.next_id;
                self.tasks.insert(id, task);
                self.next_id = id + 1;
                assert(self.task_ids() =~= old(self).task_ids().insert(TaskId(id)));
                Ok(TaskId(id))
            },
        }
    }

    /// Takes the next id off the ready queue and handles it. Returns `None`
    /// when the queue was empty.
    pub fn run_ready_task(&mut self) -> (step: Option<(TaskId, TaskStep)>)
        requires
            old(self).wf(),
        ensures
            final(self).wf(),
            final(self).ready_queue() == old(self).ready_queue(),
            final(self).next_task_id() == old(self).next_task_id(),
            step is None ==> final(self).task_ids() == old(self).task_ids()
                && final(self).cached_wakers() == old(self).cached_wakers(),
            step matches Some((id, outcome)) ==> old(self).stepped(*final(self), id, outcome),
    {
        match self.task_queue.pop() {
            None => None,
            Some(id) => Some((TaskId(id), self.run_task(TaskId(id)))),
        }
    }

    /// The stored tasks and the kept wakers.
    pub open spec fn sets(&self) -> TaskSets {
        TaskSets { tasks: self.task_ids(), wakers: self.cached_wakers() }
    }

    /// `after` comes from `self` by handling the ready ids of `steps` one
    /// after the other, each with the result that `steps` gives for it.
    pub open spec fn ran(&self, after: Executor, steps: Seq<(TaskId, TaskStep)>) -> bool {
        steps_fit(self.sets(), steps) && after.sets() == after_steps(self.sets(), steps)
    }

    /// One drain pass: takes ready ids off the queue and handles each as
    /// `run_task` does, in the order in which they come, until the queue is
    /// found empty or as many ids as the queue can hold have been handled,
    /// whichever comes first. Returns how many were handled: the executor is
    /// then what that many steps have made of it. Tasks only ever leave the
    /// task set during a pass.
    pub fn run_ready_tasks(&mut self) -> (handled: usize)
        requires
            old(self).wf(),
        ensures
            final(self).wf(),
            final(self).ready_queue() == old(self).ready_queue(),
            final(self).next_task_id() == old(self).next_task_id(),
            final(self).task_ids().subset_of(old(self).task_ids()),
            handled <= READY_QUEUE_CAPACITY,
            exists|steps: Seq<(TaskId, TaskStep)>|
                steps.len() == handled && #[trigger] old(self).ran(*final(self), steps),
            handled == 0 ==> final(self).task_ids() == old(self).task_ids()
                && final(self).cached_wakers() == old(self).cached_wakers(),
    {
        let mut handled: usize = 0;
        let mut drained = false;
        let ghost mut steps: Seq<(TaskId, TaskStep)> = Seq::empty();
        while handled < READY_QUEUE_CAPACITY && !drained
            invariant
                self.wf(),
                self.ready_queue() == old(self).ready_queue(),
                self.next_task_id() == old(self).next_task_id(),
                self.task_ids().subset_of(old(self).task_ids()),
                handled <= READY_QUEUE_CAPACITY,
                steps.len() == handled,
                old(self).ran(*self, steps),
            decreases READY_QUEUE_CAPACITY - handled, if drained { 0int } else { 1int },
        {
            let ghost before = *self;
            match self.run_ready_task() {
                None => {
                    drained = true;
                },
                Some((id, step)) => {
                    proof {
                        let longer = steps.push((id, step));
                        assert(longer.drop_last() =~= steps);
                        assert(longer.last() == (id, step));
                        assert(before.stepped(*self, id, step));
                        steps = longer;
                    }
                    handled += 1;
                },
            }
        }
        handled
    }

    /// How handling the ready id `id` with result `step` changes the task set
    /// and the waker cache from `self` to `after`.
    pub open spec fn stepped(&self, after: Executor, id: TaskId, step: TaskStep) -> bool {
        match step {
            TaskStep::Skipped => {
                &&& !self.task_ids().contains(id)
                &&& after.task_ids() == self.task_ids()
                &&& after.cached_wakers() == self.cached_wakers()
            },
            TaskStep::Completed => {
                &&& self.task_ids().contains(id)
                &&& after.task_ids() == self.task_ids().remove(id)
                &&& after.cached_wakers() == self.cached_wakers().remove(id)
            },
            TaskStep::Suspended => {
                &&& self.task_ids().contains(id)
                &&& after.task_ids() == self.task_ids()
                &&& after.cached_wakers() == self.cached_wakers().insert(id)
            },
        }
    }

    /// Handles one ready id: passes over an id that no task has, else
    /// resumes the task once with its waker, built now if none was kept, and
    /// drops the task and its waker if it finished.
    pub fn run_task(&mut self, id: TaskId) -> (step: TaskStep)
        requires
            old(self).wf(),
        ensures
            final(self).wf(),
            final(self).ready_queue() == old(self).ready_queue(),
            final(self).next_task_id() == old(self).next_task_id(),
            old(self).stepped(*final(self), id, step),
            step == TaskStep::Skipped <==> !old(self).task_ids().contains(id),
    {
        match self.tasks.remove(&id.0) {
            None => {
                assert(self.tasks@ =~= old(self).tasks@);
                assert(self.task_ids() =~= old(self).task_ids());
                TaskStep::Skipped
            },
            Some(task) => {
                let mut task = task;
                if !self.waker_cache.contains_key(&id.0) {
                    let waker = TaskWaker::new(id, share_queue(&self.task_queue));
                    self.waker_cache.insert(id.0, waker);
                }
                let outcome = match self.waker_cache.get(&id.0) {
                    Some(waker) => task.poll(waker),
                    None => vstd::pervasive::unreached(),
                };
                self.tasks.insert(id.0, task);
                assert(self.task_ids() =~= old(self).task_ids());
                assert(self.cached_wakers() =~= old(self).cached_wakers().insert(id));
                let step = self.settle(id, outcome);
                assert(old(self).cached_wakers().insert(id).remove(id) =~= old(
                    self,
                ).cached_wakers().remove(id));
                step
            },
        }
    }

    /// Books the result of resuming the stored task `id`: a finished task
    /// leaves the task set together with its waker, a suspended one stays.
    pub fn settle(&mut self, id: TaskId, outcome: Progress) -> (step: TaskStep)
        requires
            old(self).wf(),
            old(self).task_ids().contains(id),
        ensures
            final(self).wf(),
            final(self).ready_queue() == old(self).ready_queue(),
            final(self).next_task_id() == old(self).next_task_id(),
            outcome == Progress::Ready ==> step == TaskStep::Completed && final(self).task_ids()
                == old(self).task_ids().remove(id) && final(self).cached_wakers() == old(
                self,
            ).cached_wakers().remove(id),
            outcome == Progress::Pending ==> step == TaskStep::Suspended && final(self).task_ids()
                == old(self).task_ids() && final(self).cached_wakers() == old(
                self,
            ).cached_wakers(),
    {
        match outcome {
            Progress::Ready => {
                self.tasks.remove(&id.0);
                self.waker_cache.remove(&id.0);
                assert(self.task_ids() =~= old(self).task_ids().remove(id));
                assert(self.cached_wakers() =~= old(self).cached_wakers().remove(id));
                TaskStep::Completed
            },
            Progress::Pending => TaskStep::Suspended,
        }
    }

    /// The idle step's decision: halt if the ready queue is empty, else go
    /// on. To be called with interrupts off, so that no wake slips in
    /// between this check and the halt.
    pub fn sleep_if_idle(&self) -> (action: IdleAction) {
        idle_action(self.task_queue.is_empty())
    }
}

/// Liveness, first half: once the id of a task that finishes when resumed
/// has been handled, the task is gone from the task set and no waker is kept
/// for it, while every other task is still there.
pub proof fn lemma_completed_task_leaves(before: Executor, after: Executor, id: TaskId)
    requires
        before.stepped(after, id, TaskStep::Completed),
    ensures
        before.task_ids().contains(id),
        !after.task_ids().contains(id),
        !after.cached_wakers().contains(id),
        forall|other: TaskId|
            other != id ==> (after.task_ids().contains(other) <==> before.task_ids().contains(
                other,
            )),
{
}

/// Liveness, second half: a task leaves the task set only by being resumed
/// to its end. Handling the id of another task, or resuming this one without
/// it finishing, or skipping a stale id, keeps it stored.
pub proof fn lemma_task_stays_until_completed(
    before: Executor,
    after: Executor,
    id: TaskId,
    handled: TaskId,
    step: TaskStep,
)
    requires
        before.task_ids().contains(id),
        before.stepped(after, handled, step),
        handled != id || step != TaskStep::Completed,
    ensures
        after.task_ids().contains(id),
{
}

} // verus!
