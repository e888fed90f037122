use rust_os::interrupts::{
    acknowledge, handler_for, Acknowledge, Completion, Handler, InterruptIndex,
    DOUBLE_FAULT_IST_INDEX, DOUBLE_FAULT_STACK_SIZE, PIC_1_OFFSET, PIC_2_OFFSET,
};

#[test]
fn controllers_are_remapped_to_32_to_47() {
    assert_eq!(PIC_1_OFFSET, 32);
    assert_eq!(PIC_2_OFFSET, 40);
    assert_eq!(InterruptIndex::Timer.as_u8(), 32);
    assert_eq!(InterruptIndex::Keyboard.as_u8(), 33);
    assert_eq!(InterruptIndex::Timer.as_usize(), 32);
    assert_eq!(InterruptIndex::Keyboard.as_usize(), 33);
}

#[test]
fn fault_stack_is_large_enough() {
    assert!(DOUBLE_FAULT_STACK_SIZE >= 4096);
    assert_eq!(DOUBLE_FAULT_STACK_SIZE, 4096 * 5);
    assert_eq!(DOUBLE_FAULT_IST_INDEX, 0);
}

#[test]
fn each_vector_has_its_handler() {
    assert_eq!(handler_for(3), Handler::Breakpoint);
    assert_eq!(handler_for(8), Handler::DoubleFault);
    assert_eq!(handler_for(13), Handler::GeneralProtectionFault);
    assert_eq!(handler_for(14), Handler::PageFault);
    assert_eq!(handler_for(32), Handler::Timer);
    assert_eq!(handler_for(33), Handler::Keyboard);
    for vector in 0..=255u8 {
        if ![3, 8, 13, 14, 32, 33].contains(&vector) {
            assert_eq!(handler_for(vector), Handler::Unhandled);
        }
    }
}

#[test]
fn only_the_double_fault_has_a_stack_of_its_own() {
    for vector in 0..=255u8 {
        let expected = if vector == 8 { Some(0) } else { None };
        assert_eq!(handler_for(vector).stack_index(), expected);
    }
}

#[test]
fn hardware_interrupts_are_acknowledged_and_faults_halt() {
    assert_eq!(Handler::Breakpoint.completion(), Completion::Return);
    assert_eq!(Handler::Timer.completion(), Completion::EndOfInterrupt(32));
    assert_eq!(
        Handler::Keyboard.completion(),
        Completion::EndOfInterrupt(33)
    );
    assert_eq!(Handler::DoubleFault.completion(), Completion::Halt);
    assert_eq!(
        Handler::GeneralProtectionFault.completion(),
        Completion::Halt
    );
    assert_eq!(Handler::PageFault.completion(), Completion::Halt);
    assert_eq!(Handler::Unhandled.completion(), Completion::Halt);
}

#[test]
fn end_of_interrupt_goes_to_the_right_controllers() {
    assert_eq!(acknowledge(31), None);
    assert_eq!(acknowledge(32), Some(Acknowledge::Primary));
    assert_eq!(acknowledge(33), Some(Acknowledge::Primary));
    assert_eq!(acknowledge(39), Some(Acknowledge::Primary));
    assert_eq!(acknowledge(40), Some(Acknowledge::Both));
    assert_eq!(acknowledge(47), Some(Acknowledge::Both));
    assert_eq!(acknowledge(48), None);
    assert_eq!(acknowledge(0), None);
    assert_eq!(acknowledge(255), None);
}
