use rust_os::task::executor::{
    idle_action, wake_outcome, Executor, IdleAction, QueueFull, SpawnError, TaskStep, TaskWaker,
    READY_QUEUE_CAPACITY,
};
use rust_os::task::{Progress, Resume, Task, TaskId};
use std::cell::{Cell, RefCell};
use std::rc::Rc;
use std::sync::Arc;

struct Immediate {
    resumed: Rc<Cell<u32>>,
}

impl Resume for Immediate {
    fn resume(&mut self, _waker: &TaskWaker) -> Progress {
        self.resumed.set(self.resumed.get() + 1);
        Progress::Ready
    }
}

struct Countdown {
    left: u32,
    wake_self: bool,
    seen: Rc<RefCell<Vec<u64>>>,
    keep: Rc<RefCell<Vec<TaskWaker>>>,
}

impl Resume for Countdown {
    fn resume(&mut self, waker: &TaskWaker) -> Progress {
        self.seen.borrow_mut().push(waker.task_id().0);
        if self.left == 0 {
            return Progress::Ready;
        }
        self.left -= 1;
        if self.wake_self {
            waker.wake_task().unwrap();
        } else {
            self.keep.borrow_mut().push(waker.clone());
        }
        Progress::Pending
    }
}

fn immediate(counter: &Rc<Cell<u32>>) -> Task {
    Task::new(Box::new(Immediate {
        resumed: counter.clone(),
    }))
}

#[test]
fn new_executor_is_empty_and_idle() {
    let mut executor = Executor::new();
    assert_eq!(executor.task_count(), 0);
    assert!(!executor.contains(TaskId(0)));
    assert_eq!(executor.run_ready_task(), None);
    assert_eq!(executor.run_ready_tasks(), 0);
    assert_eq!(executor.sleep_if_idle(), IdleAction::Halt);
}

#[test]
fn spawn_gives_ascending_ids() {
    let counter = Rc::new(Cell::new(0));
    let mut executor = Executor::new();
    assert_eq!(executor.spawn(immediate(&counter)), Ok(TaskId(0)));
    assert_eq!(executor.spawn(immediate(&counter)), Ok(TaskId(1)));
    assert_eq!(executor.spawn(immediate(&counter)), Ok(TaskId(2)));
    assert_eq!(executor.task_count(), 3);
    assert!(executor.contains(TaskId(1)));
    assert!(!executor.contains(TaskId(3)));
    assert_eq!(counter.get(), 0);
    assert_eq!(executor.sleep_if_idle(), IdleAction::Continue);
}

#[test]
fn task_that_completes_at_once_leaves_after_one_pass() {
    let counter = Rc::new(Cell::new(0));
    let mut executor = Executor::new();
    let id = executor.spawn(immediate(&counter)).unwrap();
    assert!(executor.contains(id));
    assert_eq!(counter.get(), 0);
    assert_eq!(executor.run_ready_tasks(), 1);
    assert_eq!(counter.get(), 1);
    assert!(!executor.contains(id));
    assert_eq!(executor.task_count(), 0);
    assert_eq!(executor.run_ready_tasks(), 0);
    assert_eq!(counter.get(), 1);
    assert_eq!(executor.sleep_if_idle(), IdleAction::Halt);
}

#[test]
fn completion_is_seen_only_after_a_resume() {
    let counter = Rc::new(Cell::new(0));
    let mut executor = Executor::new();
    let id = executor.spawn(immediate(&counter)).unwrap();
    assert!(executor.contains(id));
    assert_eq!(executor.run_ready_task(), Some((id, TaskStep::Completed)));
    assert!(!executor.contains(id));
    assert_eq!(executor.run_ready_task(), None);
}

#[test]
fn suspended_task_runs_again_only_when_woken() {
    let seen = Rc::new(RefCell::new(Vec::new()));
    let keep = Rc::new(RefCell::new(Vec::new()));
    let mut executor = Executor::new();
    let id = executor
        .spawn(Task::new(Box::new(Countdown {
            left: 1,
            wake_self: false,
            seen: seen.clone(),
            keep: keep.clone(),
        })))
        .unwrap();
    assert_eq!(executor.run_ready_task(), Some((id, TaskStep::Suspended)));
    assert_eq!(executor.run_ready_task(), None);
    assert_eq!(executor.run_ready_tasks(), 0);
    assert!(executor.contains(id));
    assert_eq!(executor.sleep_if_idle(), IdleAction::Halt);
    let waker = keep.borrow_mut().pop().unwrap();
    assert_eq!(waker.task_id(), id);
    assert_eq!(waker.wake_task(), Ok(()));
    assert_eq!(executor.sleep_if_idle(), IdleAction::Continue);
    assert_eq!(executor.run_ready_task(), Some((id, TaskStep::Completed)));
    assert!(!executor.contains(id));
    assert_eq!(*seen.borrow(), vec![0, 0]);
}

#[test]
fn stale_wake_is_skipped() {
    let seen = Rc::new(RefCell::new(Vec::new()));
    let keep = Rc::new(RefCell::new(Vec::new()));
    let mut executor = Executor::new();
    let id = executor
        .spawn(Task::new(Box::new(Countdown {
            left: 1,
            wake_self: false,
            seen: seen.clone(),
            keep: keep.clone(),
        })))
        .unwrap();
    assert_eq!(executor.run_ready_tasks(), 1);
    let waker = keep.borrow_mut().pop().unwrap();
    assert_eq!(waker.wake_task(), Ok(()));
    assert_eq!(waker.wake_task(), Ok(()));
    assert_eq!(executor.run_ready_task(), Some((id, TaskStep::Completed)));
    assert_eq!(executor.run_ready_task(), Some((id, TaskStep::Skipped)));
    assert_eq!(executor.run_ready_task(), None);
    assert_eq!(seen.borrow().len(), 2);
}

#[test]
fn run_task_handles_a_given_id() {
    let counter = Rc::new(Cell::new(0));
    let mut executor = Executor::new();
    let id = executor.spawn(immediate(&counter)).unwrap();
    assert_eq!(executor.run_task(TaskId(7)), TaskStep::Skipped);
    assert_eq!(counter.get(), 0);
    assert_eq!(executor.run_task(id), TaskStep::Completed);
    assert_eq!(counter.get(), 1);
    assert_eq!(executor.run_task(id), TaskStep::Skipped);
    assert_eq!(counter.get(), 1);
}

#[test]
fn settle_books_the_outcome() {
    let counter = Rc::new(Cell::new(0));
    let mut executor = Executor::new();
    let id = executor.spawn(immediate(&counter)).unwrap();
    assert_eq!(executor.settle(id, Progress::Pending), TaskStep::Suspended);
    assert!(executor.contains(id));
    assert_eq!(executor.settle(id, Progress::Ready), TaskStep::Completed);
    assert!(!executor.contains(id));
}

#[test]
fn tasks_are_resumed_in_wake_order() {
    let seen = Rc::new(RefCell::new(Vec::new()));
    let keep = Rc::new(RefCell::new(Vec::new()));
    let mut executor = Executor::new();
    for _ in 0..3 {
        executor
            .spawn(Task::new(Box::new(Countdown {
                left: 0,
                wake_self: false,
                seen: seen.clone(),
                keep: keep.clone(),
            })))
            .unwrap();
    }
    assert_eq!(executor.run_ready_tasks(), 3);
    assert_eq!(*seen.borrow(), vec![0, 1, 2]);
    assert_eq!(executor.task_count(), 0);
}

#[test]
fn drain_pass_is_bounded_by_the_queue_capacity() {
    let seen = Rc::new(RefCell::new(Vec::new()));
    let keep = Rc::new(RefCell::new(Vec::new()));
    let mut executor = Executor::new();
    let id = executor
        .spawn(Task::new(Box::new(Countdown {
            left: 150,
            wake_self: true,
            seen: seen.clone(),
            keep: keep.clone(),
        })))
        .unwrap();
    assert_eq!(executor.run_ready_tasks(), READY_QUEUE_CAPACITY);
    assert!(executor.contains(id));
    assert_eq!(executor.sleep_if_idle(), IdleAction::Continue);
    assert_eq!(executor.run_ready_tasks(), 51);
    assert!(!executor.contains(id));
    assert_eq!(seen.borrow().len(), 151);
}

#[test]
fn spawn_fails_when_the_ready_queue_is_full() {
    let counter = Rc::new(Cell::new(0));
    let mut executor = Executor::new();
    for i in 0..READY_QUEUE_CAPACITY {
        assert_eq!(executor.spawn(immediate(&counter)), Ok(TaskId(i as u64)));
    }
    assert_eq!(
        executor.spawn(immediate(&counter)),
        Err(SpawnError::QueueFull(TaskId(100)))
    );
    assert_eq!(executor.task_count(), READY_QUEUE_CAPACITY);
    assert_eq!(executor.run_ready_tasks(), READY_QUEUE_CAPACITY);
    assert_eq!(executor.spawn(immediate(&counter)), Ok(TaskId(100)));
}

#[test]
fn wake_on_a_full_queue_is_reported() {
    let queue = Arc::new(crossbeam_queue::ArrayQueue::new(1));
    let waker = TaskWaker::new(TaskId(5), queue.clone());
    assert_eq!(waker.task_id(), TaskId(5));
    assert_eq!(waker.wake_task(), Ok(()));
    assert_eq!(waker.wake_task(), Err(QueueFull(TaskId(5))));
    assert_eq!(queue.pop(), Some(5));
    assert_eq!(waker.wake_task(), Ok(()));
}

#[test]
fn enroll_follows_the_push() {
    let counter = Rc::new(Cell::new(0));
    let mut executor = Executor::new();
    assert_eq!(
        executor.enroll(immediate(&counter), Err(0)),
        Err(SpawnError::QueueFull(TaskId(0)))
    );
    assert_eq!(executor.task_count(), 0);
    assert_eq!(executor.enroll(immediate(&counter), Ok(())), Ok(TaskId(0)));
    assert!(executor.contains(TaskId(0)));
}

#[test]
fn outcomes_of_pure_decisions() {
    assert_eq!(idle_action(true), IdleAction::Halt);
    assert_eq!(idle_action(false), IdleAction::Continue);
    assert_eq!(wake_outcome(Ok(())), Ok(()));
    assert_eq!(wake_outcome(Err(3)), Err(QueueFull(TaskId(3))));
}

#[test]
fn default_waker_has_a_queue_for_one_id() {
    let waker = TaskWaker::default();
    assert_eq!(waker.task_id(), TaskId(0));
    assert_eq!(waker.wake_task(), Ok(()));
    assert_eq!(waker.wake_task(), Err(QueueFull(TaskId(0))));
}

#[test]
fn default_executor_is_a_new_one() {
    let counter = Rc::new(Cell::new(0));
    let mut executor = Executor::default();
    assert_eq!(executor.task_count(), 0);
    for i in 0..READY_QUEUE_CAPACITY {
        assert_eq!(executor.spawn(immediate(&counter)), Ok(TaskId(i as u64)));
    }
    assert_eq!(
        executor.spawn(immediate(&counter)),
        Err(SpawnError::QueueFull(TaskId(100)))
    );
}

#[test]
fn spawned_id_is_the_one_on_the_ready_queue() {
    let counter = Rc::new(Cell::new(0));
    let mut executor = Executor::new();
    for expected in 0..5u64 {
        let id = executor.spawn(immediate(&counter)).unwrap();
        assert_eq!(id, TaskId(expected));
        assert_eq!(
            executor.run_ready_task(),
            Some((TaskId(expected), TaskStep::Completed))
        );
        assert_eq!(executor.run_ready_task(), None);
    }
    assert_eq!(counter.get(), 5);
}
