use os::dispatch::{
    classify_outcome, dispatch_fault, frame_words, DispatchOutcome, FaultClass,
    InterruptStackFrame,
};
use os::gdt::{SegmentSelector, EMERGENCY_STACK_SIZE};
use os::interrupts::{
    init_idt, ExceptionVectorEntry, ExceptionVectorTable, BREAKPOINT_VECTOR, DOUBLE_FAULT_VECTOR,
    PAGE_FAULT_VECTOR,
};

const BP_HANDLER: u64 = 0xdead_0001;
const DF_HANDLER: u64 = 0xdead_0002;
const STACK_BASE: u64 = 0x0040_0000;

#[test]
fn breakpoint_trap_invokes_handler_and_resumes() {
    // Scenario: initialize, then execute a software breakpoint trap.  The
    // registered handler is invoked exactly once, with no stack switch and
    // no escalation, and execution continues afterwards.
    let t = os::init(STACK_BASE, BP_HANDLER, DF_HANDLER);
    let out = dispatch_fault(&t.idt, &t.tss, BREAKPOINT_VECTOR, true);
    assert_eq!(
        out,
        DispatchOutcome::Invoked {
            vector: BREAKPOINT_VECTOR,
            handler: BP_HANDLER,
            emergency_stack_top: None,
            escalations: 0,
            interrupts_masked: true,
        },
    );
    assert_eq!(classify_outcome(&out), FaultClass::Recoverable);
}

#[test]
fn stack_overflow_is_contained_on_the_emergency_stack() {
    // Scenario: initialize, then exhaust the call stack.  The page fault
    // cannot push its frame on the corrupt stack, escalates once to the
    // double-fault vector, and that handler runs exactly once on the
    // dedicated stack — a deliberate halt, not a reset.
    let t = os::init(STACK_BASE, BP_HANDLER, DF_HANDLER);
    let out = dispatch_fault(&t.idt, &t.tss, PAGE_FAULT_VECTOR, false);
    assert_eq!(
        out,
        DispatchOutcome::Invoked {
            vector: DOUBLE_FAULT_VECTOR,
            handler: DF_HANDLER,
            emergency_stack_top: Some(STACK_BASE + EMERGENCY_STACK_SIZE),
            escalations: 1,
            interrupts_masked: true,
        },
    );
    assert_eq!(classify_outcome(&out), FaultClass::FatalContained);
}

#[test]
fn absent_entry_escalates_to_double_fault() {
    let t = os::init(STACK_BASE, BP_HANDLER, DF_HANDLER);
    // Vector 5 has no registered handler; the condition escalates and the
    // contained-fault handler fields it.
    let out = dispatch_fault(&t.idt, &t.tss, 5, true);
    match out {
        DispatchOutcome::Invoked { vector, handler, escalations, .. } => {
            assert_eq!(vector, DOUBLE_FAULT_VECTOR);
            assert_eq!(handler, DF_HANDLER);
            assert_eq!(escalations, 1);
        }
        DispatchOutcome::Reset => panic!("escalation must reach the double-fault handler"),
    }
}

#[test]
fn without_a_stack_switch_the_cascade_ends_in_reset() {
    // An empty vector table: the fault escalates, the escalation vector is
    // absent too, and after three consecutive escalations the hardware
    // resets — exactly the outcome the boot configuration rules out.
    let idt = ExceptionVectorTable::new();
    let mut tss = os::gdt::TaskStateStructure::new();
    let stack = os::gdt::EmergencyStackBuffer::new(STACK_BASE);
    tss.reserve_emergency_stack(0, &stack);
    let out = dispatch_fault(&idt, &tss, PAGE_FAULT_VECTOR, false);
    assert_eq!(out, DispatchOutcome::Reset);
    assert_eq!(classify_outcome(&out), FaultClass::FatalUncontained);
}

#[test]
fn double_fault_entry_uses_reserved_slot() {
    let idt = init_idt(SegmentSelector { bits: 8 }, BP_HANDLER, DF_HANDLER);
    let df: ExceptionVectorEntry = idt.entry(DOUBLE_FAULT_VECTOR);
    assert!(df.present);
    assert_eq!(df.stack_switch_index, 1);
    assert_eq!(df.handler, DF_HANDLER);
    assert_eq!(df.code_selector.bits, 8);
    let bp = idt.entry(BREAKPOINT_VECTOR);
    assert!(bp.present);
    assert_eq!(bp.stack_switch_index, 0);
    assert_eq!(bp.handler, BP_HANDLER);
    assert!(!idt.entry(0).present);
}

#[test]
fn vector_entry_encoding_is_bit_exact() {
    let e = ExceptionVectorEntry {
        handler: 0x1234_5678_90ab_cdef,
        code_selector: SegmentSelector { bits: 8 },
        stack_switch_index: 1,
        trap_gate: false,
        privilege: 0,
        present: true,
    };
    let bytes = e.encode();
    // Options word: index 1, bits 9..12 one, present.
    assert_eq!(e.options_bits(), 0x8e01);
    assert_eq!(
        bytes,
        vec![
            0xef, 0xcd, // handler bits 0..16
            0x08, 0x00, // code-segment selector
            0x01, 0x8e, // options
            0xab, 0x90, // handler bits 16..32
            0x78, 0x56, 0x34, 0x12, // handler bits 32..64
            0x00, 0x00, 0x00, 0x00, // reserved
        ],
    );
}

#[test]
fn trap_gate_and_privilege_bits() {
    let e = ExceptionVectorEntry {
        handler: 0,
        code_selector: SegmentSelector { bits: 8 },
        stack_switch_index: 0,
        trap_gate: true,
        privilege: 3,
        present: true,
    };
    // Gate type in bit 8, privilege in bits 13..15, present in bit 15.
    assert_eq!(e.options_bits(), 0x8f00 | 0x6000);
}

#[test]
fn frame_push_order() {
    let f = InterruptStackFrame {
        instruction_pointer: 1,
        code_segment: 2,
        cpu_flags: 3,
        stack_pointer: 4,
        stack_segment: 5,
    };
    assert_eq!(frame_words(&f, None), vec![5, 4, 3, 2, 1]);
    assert_eq!(frame_words(&f, Some(0)), vec![5, 4, 3, 2, 1, 0]);
}
