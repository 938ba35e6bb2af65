//! Hardware fault-dispatch model.
//!
//! A raised fault condition makes the CPU look up the vector's entry,
//! switch stacks if the entry asks for it, push an exception frame, and
//! transfer to the handler.  An absent entry — or a frame push onto an
//! invalid stack — re-raises the condition as the double-fault escalation
//! vector; after three consecutive escalations the hardware performs an
//! unconditional reset that software cannot intercept.  This module walks
//! that state machine over the tables the boot sequencer built, so that
//! containment — "the reset state is unreachable" — is a proved property of
//! the configuration rather than a hope.

use vstd::prelude::*;
use crate::gdt::TaskStateStructure;
use crate::interrupts::{ExceptionVectorEntry, ExceptionVectorTable, DOUBLE_FAULT_VECTOR, VECTOR_COUNT};

verus! {

/// Maximum number of consecutive escalations the hardware tolerates before
/// giving up and resetting.
pub const MAX_ESCALATIONS: u8 = 3;

/// What becomes of a raised fault condition.
#[derive(Debug, Clone, Copy, PartialEq, Eq)]
pub enum DispatchOutcome {
    /// A handler was reached.  `vector` is the entry that finally fired,
    /// `handler` its registered handler address, `emergency_stack_top` the
    /// interrupt-stack-table address switched to before any frame data was
    /// pushed (`None`: the interrupted stack was kept), and `escalations`
    /// how many re-raises preceded the invocation.  `interrupts_masked`
    /// says whether hardware interrupts were disabled on entry, which an
    /// interrupt-gate entry does automatically and a trap-gate entry does
    /// not.
    Invoked {
        vector: u8,
        handler: u64,
        emergency_stack_top: Option<u64>,
        escalations: u8,
        interrupts_masked: bool,
    },
    /// Three consecutive escalations: an unconditional hardware reset,
    /// entirely outside software's ability to intercept.
    Reset,
}

/// Error taxonomy of an outcome: a deliberate software trap is handled and
/// execution resumes at the following instruction; the contained cascading
/// fault runs its handler on the dedicated stack and deliberately halts;
/// the reset is beyond software.
#[derive(Debug, Clone, Copy, PartialEq, Eq, Structural)]
pub enum FaultClass {
    Recoverable,
    FatalContained,
    FatalUncontained,
}

/// Whether the CPU can transfer to `e`'s handler: the entry must be
/// present, and the frame push must find a usable stack — either the entry
/// switches to an emergency stack first, or the interrupted stack is still
/// valid.
pub open spec fn can_invoke(e: ExceptionVectorEntry, stack_valid: bool) -> bool {
    e.present && (e.stack_switch_index > 0 || stack_valid)
}

/// One step of the dispatch cascade, `escalations` deep.
pub open spec fn spec_dispatch_from(
    idt: Seq<ExceptionVectorEntry>,
    ist: Seq<u64>,
    vector: u8,
    stack_valid: bool,
    escalations: u8,
) -> DispatchOutcome
    decreases MAX_ESCALATIONS - escalations,
{
    if escalations >= MAX_ESCALATIONS {
        DispatchOutcome::Reset
    } else {
        let e = idt[vector as int];
        if can_invoke(e, stack_valid) {
            DispatchOutcome::Invoked {
                vector,
                handler: e.handler,
                emergency_stack_top: if e.stack_switch_index > 0 {
                    Some(ist[e.stack_switch_index - 1])
                } else {
                    None
                },
                escalations,
                interrupts_masked: !e.trap_gate,
            }
        } else {
            spec_dispatch_from(idt, ist, DOUBLE_FAULT_VECTOR, stack_valid, (escalations + 1) as u8)
        }
    }
}

/// The fate of a fault condition raised on `vector` while the interrupted
/// stack is (in)valid, under the given vector table and interrupt stack
/// table.
pub open spec fn spec_dispatch(
    idt: Seq<ExceptionVectorEntry>,
    ist: Seq<u64>,
    vector: u8,
    stack_valid: bool,
) -> DispatchOutcome {
    spec_dispatch_from(idt, ist, vector, stack_valid, 0)
}

/// Walks the hardware's dispatch state machine for one raised condition:
/// vector lookup, optional stack switch, frame push, handler transfer —
/// re-raising through the double-fault vector where delivery fails, and
/// giving up in a reset after three consecutive escalations.
pub fn dispatch_fault(
    idt: &ExceptionVectorTable,
    tss: &TaskStateStructure,
    vector: u8,
    stack_valid: bool,
) -> (out: DispatchOutcome)
    requires
        idt.wf(),
        tss.wf(),
    ensures
        out == spec_dispatch(idt@, tss.interrupt_stack_table@, vector, stack_valid),
{
    let mut v = vector;
    let mut escalations: u8 = 0;
    loop
        invariant
            idt.wf(),
            tss.wf(),
            escalations < MAX_ESCALATIONS,
            spec_dispatch_from(idt@, tss.interrupt_stack_table@, v, stack_valid, escalations)
                == spec_dispatch(idt@, tss.interrupt_stack_table@, vector, stack_valid),
        decreases MAX_ESCALATIONS - escalations,
    {
        let e = idt.entry(v);
        if e.present && (e.stack_switch_index > 0 || stack_valid) {
            let emergency_stack_top = if e.stack_switch_index > 0 {
                Some(tss.interrupt_stack_table[(e.stack_switch_index - 1) as usize])
            } else {
                None
            };
            return DispatchOutcome::Invoked {
                vector: v,
                handler: e.handler,
                emergency_stack_top,
                escalations,
                interrupts_masked: !e.trap_gate,
            };
        }
        if escalations == MAX_ESCALATIONS - 1 {
            proof {
                let ist = tss.interrupt_stack_table@;
                assert(spec_dispatch_from(idt@, ist, DOUBLE_FAULT_VECTOR, stack_valid, MAX_ESCALATIONS)
                    == DispatchOutcome::Reset);
                assert(spec_dispatch_from(idt@, ist, v, stack_valid, escalations)
                    == DispatchOutcome::Reset);
            }
            return DispatchOutcome::Reset;
        }
        escalations = escalations + 1;
        v = DOUBLE_FAULT_VECTOR;
    }
}

/// Classifies an outcome under the error taxonomy: the double-fault
/// handler never returns (it halts deliberately on its dedicated stack),
/// any other invoked handler returns and execution resumes, and a reset is
/// uncontained.
pub fn classify_outcome(out: &DispatchOutcome) -> (c: FaultClass)
    ensures
        c == spec_classify_outcome(*out),
{
    match out {
        DispatchOutcome::Invoked { vector, .. } => {
            if *vector == DOUBLE_FAULT_VECTOR {
                FaultClass::FatalContained
            } else {
                FaultClass::Recoverable
            }
        }
        DispatchOutcome::Reset => FaultClass::FatalUncontained,
    }
}

pub open spec fn spec_classify_outcome(out: DispatchOutcome) -> FaultClass {
    match out {
        DispatchOutcome::Invoked { vector, .. } => if vector == DOUBLE_FAULT_VECTOR {
            FaultClass::FatalContained
        } else {
            FaultClass::Recoverable
        },
        DispatchOutcome::Reset => FaultClass::FatalUncontained,
    }
}

/// The register snapshot a handler receives.  Handlers are invoked by
/// hardware, not called: they run under a convention that saves and
/// restores every register they touch, and a handler that returns normally
/// resumes the interrupted context from exactly this snapshot.
#[derive(Debug, Clone, Copy, PartialEq, Eq, Structural)]
pub struct InterruptStackFrame {
    pub instruction_pointer: u64,
    pub code_segment: u64,
    pub cpu_flags: u64,
    pub stack_pointer: u64,
    pub stack_segment: u64,
}

/// The words of the exception frame in hardware push order: the interrupted
/// stack segment and stack pointer (always, whether or not the privilege
/// level changed), the flags register, the interrupted code segment and
/// instruction pointer, and — for conditions that supply one — the
/// fault-specific error code, pushed last, nearest the new stack top.
pub open spec fn spec_frame_words(f: InterruptStackFrame, error_code: Option<u64>) -> Seq<u64> {
    let base = seq![
        f.stack_segment,
        f.stack_pointer,
        f.cpu_flags,
        f.code_segment,
        f.instruction_pointer,
    ];
    match error_code {
        Some(code) => base.push(code),
        None => base,
    }
}

/// Lays out the exception frame in hardware push order.
pub fn frame_words(f: &InterruptStackFrame, error_code: Option<u64>) -> (words: Vec<u64>)
    ensures
        words@ =~= spec_frame_words(*f, error_code),
{
    let mut words: Vec<u64> = Vec::new();
    words.push(f.stack_segment);
    words.push(f.stack_pointer);
    words.push(f.cpu_flags);
    words.push(f.code_segment);
    words.push(f.instruction_pointer);
    match error_code {
        Some(code) => {
            words.push(code);
        }
        None => {}
    }
    words
}

/// Containment: once the double-fault vector holds a present entry with a
/// nonzero stack-switch index, every raised condition — whatever its
/// vector, and however corrupt the interrupted stack — reaches a handler.
/// The uncontained hardware reset is unreachable, which is the entire
/// purpose of reserving the emergency stack slot.
pub proof fn lemma_contained_fault_never_resets(
    idt: Seq<ExceptionVectorEntry>,
    ist: Seq<u64>,
    vector: u8,
    stack_valid: bool,
)
    requires
        idt.len() == VECTOR_COUNT,
        idt[DOUBLE_FAULT_VECTOR as int].present,
        idt[DOUBLE_FAULT_VECTOR as int].stack_switch_index > 0,
    ensures
        spec_dispatch(idt, ist, vector, stack_valid) is Invoked,
{
    let df = idt[DOUBLE_FAULT_VECTOR as int];
    assert(can_invoke(df, stack_valid));
    if !can_invoke(idt[vector as int], stack_valid) {
        assert(spec_dispatch_from(idt, ist, vector, stack_valid, 0)
            == spec_dispatch_from(idt, ist, DOUBLE_FAULT_VECTOR, stack_valid, 1));
    }
}

} // verus!
