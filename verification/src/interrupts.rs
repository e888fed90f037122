//! Interrupt vectors: which vector belongs to which handler, and what a
//! handler owes the interrupt controller and the processor when it is done.

use vstd::prelude::*;

verus! {

/// First vector of the primary interrupt controller after remapping.
pub const PIC_1_OFFSET: u8 = 32;

/// First vector of the secondary interrupt controller after remapping.
pub const PIC_2_OFFSET: u8 = 40;

/// Number of interrupt lines of one controller.
pub const PIC_LINES: u8 = 8;

/// Slot of the interrupt stack table that holds the stack for double faults.
pub const DOUBLE_FAULT_IST_INDEX: u16 = 0;

/// Size in bytes of the stack reserved for double faults.
pub const DOUBLE_FAULT_STACK_SIZE: usize = 20480;

/// The hardware interrupts that the kernel serves.
#[derive(Debug, Clone, Copy, PartialEq, Eq, Structural)]
pub enum InterruptIndex {
    Timer,
    Keyboard,
}

impl InterruptIndex {
    /// The vector of the interrupt.
    pub open spec fn vector(self) -> u8 {
        match self {
            InterruptIndex::Timer => PIC_1_OFFSET,
            InterruptIndex::Keyboard => (PIC_1_OFFSET + 1) as u8,
        }
    }

    /// Returns the vector of the interrupt.
    pub fn as_u8(self) -> (vector: u8)
        ensures
            vector == self.vector(),
    {
        match self {
            InterruptIndex::Timer => PIC_1_OFFSET,
            InterruptIndex::Keyboard => PIC_1_OFFSET + 1,
        }
    }

    /// Returns the vector of the interrupt as an index into the vector table.
    pub fn as_usize(self) -> (index: usize)
        ensures
            index == self.vector(),
    {
        self.as_u8() as usize
    }
}

/// The handler that a vector of the interrupt table leads to.
#[derive(Debug, Clone, Copy, PartialEq, Eq, Structural)]
pub enum Handler {
    /// Breakpoint exception: reported, then execution goes on.
    Breakpoint,
    /// Double fault: fatal, handled on the stack reserved for it.
    DoubleFault,
    /// General protection fault: fatal.
    GeneralProtectionFault,
    /// Page fault: fatal.
    PageFault,
    /// Timer tick.
    Timer,
    /// Keyboard scancode ready.
    Keyboard,
    /// Any other vector: the diagnostic trap for what the kernel does not
    /// handle.
    Unhandled,
}

/// What a handler does once it has reported or forwarded its interrupt.
#[derive(Debug, Clone, Copy, PartialEq, Eq, Structural)]
pub enum Completion {
    /// Return to what was interrupted.
    Return,
    /// Signal the end of the interrupt to the controller for this vector,
    /// then return to what was interrupted.
    EndOfInterrupt(u8),
    /// Park the processor for good.
    Halt,
}

/// The controllers that must be told that an interrupt has been served.
#[derive(Debug, Clone, Copy, PartialEq, Eq, Structural)]
pub enum Acknowledge {
    /// The primary controller alone.
    Primary,
    /// The secondary controller, which raised the interrupt, and the primary
    /// one, through which it is chained.
    Both,
}

/// Who is to be told of the end of the interrupt with this vector: nobody
/// for a vector that no controller raises.
pub open spec fn acknowledge_of(vector: u8) -> Option<Acknowledge> {
    if PIC_1_OFFSET <= vector < PIC_1_OFFSET + PIC_LINES {
        Some(Acknowledge::Primary)
    } else if PIC_2_OFFSET <= vector < PIC_2_OFFSET + PIC_LINES {
        Some(Acknowledge::Both)
    } else {
        None
    }
}

/// Returns the controllers to tell of the end of the interrupt with this
/// vector.
pub fn acknowledge(vector: u8) -> (target: Option<Acknowledge>)
    ensures
        target == acknowledge_of(vector),
{
    if PIC_1_OFFSET <= vector && vector < PIC_1_OFFSET + PIC_LINES {
        Some(Acknowledge::Primary)
    } else if PIC_2_OFFSET <= vector && vector < PIC_2_OFFSET + PIC_LINES {
        Some(Acknowledge::Both)
    } else {
        None
    }
}

/// The handler of each of the 256 vectors.
pub open spec fn handler_of(vector: u8) -> Handler {
    if vector == 3 {
        Handler::Breakpoint
    } else if vector == 8 {
        Handler::DoubleFault
    } else if vector == 13 {
        Handler::GeneralProtectionFault
    } else if vector == 14 {
        Handler::PageFault
    } else if vector == InterruptIndex::Timer.vector() {
        Handler::Timer
    } else if vector == InterruptIndex::Keyboard.vector() {
        Handler::Keyboard
    } else {
        Handler::Unhandled
    }
}

/// Returns the handler that the vector leads to.
pub fn handler_for(vector: u8) -> (handler: Handler)
    ensures
        handler == handler_of(vector),
{
    if vector == 3 {
        Handler::Breakpoint
    } else if vector == 8 {
        Handler::DoubleFault
    } else if vector == 13 {
        Handler::GeneralProtectionFault
    } else if vector == 14 {
        Handler::PageFault
    } else if vector == InterruptIndex::Timer.as_u8() {
        Handler::Timer
    } else if vector == InterruptIndex::Keyboard.as_u8() {
        Handler::Keyboard
    } else {
        Handler::Unhandled
    }
}

impl Handler {
    /// Only the double fault handler runs on the reserved stack.
    pub open spec fn on_reserved_stack(self) -> bool {
        self == Handler::DoubleFault
    }

    /// What the handler owes when it is done: hardware interrupts are
    /// acknowledged, a breakpoint returns, everything else is fatal.
    pub open spec fn completion_of(self) -> Completion {
        match self {
            Handler::Breakpoint => Completion::Return,
            Handler::Timer => Completion::EndOfInterrupt(InterruptIndex::Timer.vector()),
            Handler::Keyboard => Completion::EndOfInterrupt(InterruptIndex::Keyboard.vector()),
            _ => Completion::Halt,
        }
    }

    /// Returns the slot of the interrupt stack table that the handler's
    /// entry in the vector table must name, if it needs a stack of its own.
    pub fn stack_index(self) -> (index: Option<u16>)
        ensures
            index == if self.on_reserved_stack() {
                Some(DOUBLE_FAULT_IST_INDEX)
            } else {
                None
            },
    {
        match self {
            Handler::DoubleFault => Some(DOUBLE_FAULT_IST_INDEX),
            _ => None,
        }
    }

    /// Returns what the handler does when it is done.
    pub fn completion(self) -> (completion: Completion)
        ensures
            completion == self.completion_of(),
    {
        match self {
            Handler::Breakpoint => Completion::Return,
            Handler::Timer => Completion::EndOfInterrupt(InterruptIndex::Timer.as_u8()),
            Handler::Keyboard => Completion::EndOfInterrupt(InterruptIndex::Keyboard.as_u8()),
            _ => Completion::Halt,
        }
    }
}

/// Every vector that a remapped controller can raise lies above the 32
/// vectors that the processor keeps for exceptions, and every hardware
/// interrupt that the kernel serves is acknowledged with its own vector.
pub proof fn lemma_hardware_vectors(index: InterruptIndex)
    ensures
        32 <= index.vector() < PIC_1_OFFSET + PIC_LINES,
        PIC_2_OFFSET == PIC_1_OFFSET + PIC_LINES,
        PIC_2_OFFSET + PIC_LINES == 48,
        handler_of(index.vector()).completion_of() == Completion::EndOfInterrupt(index.vector()),
        acknowledge_of(index.vector()) == Some(Acknowledge::Primary),
        !handler_of(index.vector()).on_reserved_stack(),
{
}

} // verus!
