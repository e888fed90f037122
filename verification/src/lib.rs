//! Core of a small x86-64 kernel: interrupt vectors, physical frame
//! allocation, page table walks, the kernel heap's bookkeeping, a cooperative
//! task executor and the keyboard scancode stream.
//!
//! The crate holds the decisions of the kernel; touching the hardware is left
//! to the code that embeds it.

use vstd::prelude::*;

pub mod allocator;
pub mod interrupts;
pub mod memory;
pub mod paging;
pub mod queue;
pub mod task;

verus! {

/// Status that the test harness reports to the hosting virtual machine.
#[derive(Debug, Clone, Copy, PartialEq, Eq, Structural)]
pub enum QemuExitCode {
    Success,
    Failed,
}

impl QemuExitCode {
    /// The value written to the exit port for this status.
    pub open spec fn port_value(self) -> u32 {
        match self {
            QemuExitCode::Success => 0x10,
            QemuExitCode::Failed => 0x11,
        }
    }

    /// Returns the value to write to the exit port.
    pub fn code(self) -> (value: u32)
        ensures
            value == self.port_value(),
    {
        match self {
            QemuExitCode::Success => 0x10,
            QemuExitCode::Failed => 0x11,
        }
    }
}

/// A test case that the kernel's test runner can execute.
pub trait Testable {
    /// The test may be started.
    spec fn runnable(&self) -> bool;

    /// The test has run to its end.
    spec fn passed(&self) -> bool;

    /// Runs the test; returning at all means that it passed.
    fn run(&self)
        requires
            self.runnable(),
        ensures
            self.passed(),
    ;
}

impl<T: Fn()> Testable for T {
    open spec fn runnable(&self) -> bool {
        self.requires(())
    }

    open spec fn passed(&self) -> bool {
        self.ensures((), ())
    }

    fn run(&self) {
        self()
    }
}

/// Runs every test in order and returns the status to report once all of
/// them have come back.
pub fn test_runner(tests: &[&dyn Testable]) -> (code: QemuExitCode)
    requires
        forall|i: int| 0 <= i < tests@.len() ==> (#[trigger] tests@[i]).runnable(),
    ensures
        forall|i: int| 0 <= i < tests@.len() ==> (#[trigger] tests@[i]).passed(),
        code == QemuExitCode::Success,
{
    let mut i: usize = 0;
    while i < tests.len()
        invariant
            i <= tests@.len(),
            forall|k: int| 0 <= k < tests@.len() ==> (#[trigger] tests@[k]).runnable(),
            forall|k: int| 0 <= k < i ==> (#[trigger] tests@[k]).passed(),
        decreases tests@.len() - i,
    {
        tests[i].run();
        i += 1;
    }
    QemuExitCode::Success
}

} // verus!
