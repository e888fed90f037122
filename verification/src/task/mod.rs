//! Cooperative tasks: suspended computations that an executor resumes.

use vstd::prelude::*;

pub mod executor;
pub mod keyboard;

use executor::TaskWaker;

verus! {

/// Identifier of a task, unique within the executor that issued it.
#[derive(Debug, Clone, Copy, PartialEq, Eq, Structural)]
pub struct TaskId(pub u64);

/// What one resumption of a computation came to.
#[derive(Debug, Clone, Copy, PartialEq, Eq, Structural)]
pub enum Progress {
    /// The computation has finished and must not be resumed again.
    Ready,
    /// The computation has suspended itself; its waker will announce when it
    /// can go on.
    Pending,
}

/// A suspended computation. Each task variant brings its own logic; the
/// executor knows only how to resume it.
pub trait Resume {
    /// Drives the computation forward until it finishes or suspends. A
    /// computation that suspends keeps the waker, or a copy of it, to be woken
    /// with later.
    fn resume(&mut self, waker: &TaskWaker) -> Progress;
}

/// One owned, heap-resident suspended computation.
pub struct Task {
    /// The computation, behind the handle through which it is resumed.
    pub computation: Box<dyn Resume>,
}

impl Task {
    /// Wraps a computation so that an executor can hold it.
    pub fn new(computation: Box<dyn Resume>) -> (task: Task)
        ensures
            task == (Task { computation }),
    {
        Task { computation }
    }

    /// Resumes the computation once.
    pub(crate) fn poll(&mut self, waker: &TaskWaker) -> Progress {
        self.computation.resume(waker)
    }
}

} // verus!
