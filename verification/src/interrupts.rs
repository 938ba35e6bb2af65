//! Exception vector table.
//!
//! Maps fault and interrupt numbers to handler entries and stack-switch
//! policy.  Each entry records the handler address, the code-segment
//! selector to execute it under, whether the CPU switches to an emergency
//! stack first, whether the handler may be raised from user software,
//! the vector from software, and a present flag.  The hardware reads each
//! entry as a 16-byte record whose layout is mandated exactly; `encode`
//! emits it bit for bit.

use vstd::prelude::*;
use crate::gdt::{SegmentSelector, DOUBLE_FAULT_IST_INDEX};
use crate::layout::le_byte;

verus! {

/// Vector raised by the software breakpoint trap instruction.
pub const BREAKPOINT_VECTOR: u8 = 3;

/// Vector raised when a fault occurs while the CPU is trying to deliver
/// another fault: the escalation vector this design must contain.
pub const DOUBLE_FAULT_VECTOR: u8 = 8;

/// Vector raised on an access to unmapped memory, such as the guard page
/// at the bottom of an exhausted call stack.
pub const PAGE_FAULT_VECTOR: u8 = 14;

/// Number of entries in the vector table.
pub const VECTOR_COUNT: usize = 256;

/// Per-vector record: handler address, code-segment selector, stack-switch
/// index (0 = no switch, 1..=7 = slot of the interrupt stack table), gate
/// type (a trap gate leaves hardware interrupts enabled on entry; an
/// interrupt gate masks them), minimum privilege level for a software
/// request, and the present flag.
#[derive(Debug, Clone, Copy, PartialEq, Eq, Structural)]
pub struct ExceptionVectorEntry {
    pub handler: u64,
    pub code_selector: SegmentSelector,
    pub stack_switch_index: u8,
    pub trap_gate: bool,
    pub privilege: u8,
    pub present: bool,
}

impl ExceptionVectorEntry {
    pub open spec fn wf(&self) -> bool {
        &&& self.stack_switch_index <= 7
        &&& self.privilege <= 3
    }

    /// An absent entry: a raised condition finding it escalates to the
    /// double-fault vector.
    pub fn missing() -> (e: ExceptionVectorEntry)
        ensures
            e == ExceptionVectorEntry::spec_missing(),
    {
        ExceptionVectorEntry {
            handler: 0,
            code_selector: SegmentSelector { bits: 0 },
            stack_switch_index: 0,
            trap_gate: false,
            privilege: 0,
            present: false,
        }
    }

    pub open spec fn spec_missing() -> ExceptionVectorEntry {
        ExceptionVectorEntry {
            handler: 0,
            code_selector: SegmentSelector { bits: 0 },
            stack_switch_index: 0,
            trap_gate: false,
            privilege: 0,
            present: false,
        }
    }

    /// The 16-bit options word of the hardware entry: the low three bits
    /// hold the stack-switch index, five reserved bits stay zero, one bit
    /// says whether hardware interrupts stay enabled on entry, three bits
    /// must be set, one must be clear, two give the minimum privilege
    /// level, and the highest is the present flag.
    pub open spec fn spec_options_bits(&self) -> u16 {
        (self.stack_switch_index as u16)
            | 0xe00u16
            | (if self.trap_gate { 0x100u16 } else { 0u16 })
            | ((self.privilege as u16) << 13)
            | (if self.present { 0x8000u16 } else { 0u16 })
    }

    /// Packs the options word.
    pub fn options_bits(&self) -> (bits: u16)
        requires
            self.wf(),
        ensures
            bits == self.spec_options_bits(),
    {
        (self.stack_switch_index as u16)
            | 0xe00u16
            | (if self.trap_gate { 0x100u16 } else { 0u16 })
            | ((self.privilege as u16) << 13)
            | (if self.present { 0x8000u16 } else { 0u16 })
    }

    /// The hardware-mandated 16-byte form of the entry: handler-address
    /// bits 0..16, the code-segment selector, the options word, handler
    /// bits 16..32, handler bits 32..64, and four reserved zero bytes —
    /// each field little-endian.
    pub open spec fn spec_encoding(&self) -> Seq<u8> {
        let opts = self.spec_options_bits();
        seq![
            le_byte(self.handler, 0),
            le_byte(self.handler, 1),
            (self.code_selector.bits & 0xff) as u8,
            (self.code_selector.bits >> 8) as u8,
            (opts & 0xff) as u8,
            (opts >> 8) as u8,
            le_byte(self.handler, 2),
            le_byte(self.handler, 3),
            le_byte(self.handler, 4),
            le_byte(self.handler, 5),
            le_byte(self.handler, 6),
            le_byte(self.handler, 7),
            0u8,
            0u8,
            0u8,
            0u8,
        ]
    }

    /// Emits the 16-byte hardware entry, bit-exact: any deviation would be
    /// undetectable until the corresponding fault occurs and the CPU
    /// misinterprets the entry.
    pub fn encode(&self) -> (bytes: Vec<u8>)
        requires
            self.wf(),
        ensures
            bytes@ =~= self.spec_encoding(),
    {
        let opts = self.options_bits();
        let mut bytes: Vec<u8> = Vec::new();
        bytes.push(((self.handler >> 0) & 0xff) as u8);
        bytes.push(((self.handler >> 8) & 0xff) as u8);
        bytes.push((self.code_selector.bits & 0xff) as u8);
        bytes.push((self.code_selector.bits >> 8) as u8);
        bytes.push((opts & 0xff) as u8);
        bytes.push((opts >> 8) as u8);
        bytes.push(((self.handler >> 16) & 0xff) as u8);
        bytes.push(((self.handler >> 24) & 0xff) as u8);
        bytes.push(((self.handler >> 32) & 0xff) as u8);
        bytes.push(((self.handler >> 40) & 0xff) as u8);
        bytes.push(((self.handler >> 48) & 0xff) as u8);
        bytes.push(((self.handler >> 56) & 0xff) as u8);
        bytes.push(0);
        bytes.push(0);
        bytes.push(0);
        bytes.push(0);
        bytes
    }
}

/// Stack-switch policy and gate configuration handed to `register_handler`.
#[derive(Debug, Clone, Copy, PartialEq, Eq, Structural)]
pub struct HandlerOptions {
    pub code_selector: SegmentSelector,
    /// 0 = keep the current stack; 1..=7 = switch to that slot of the
    /// interrupt stack table before pushing any frame data.
    pub stack_switch_index: u8,
    pub trap_gate: bool,
    pub privilege: u8,
}

impl HandlerOptions {
    pub open spec fn wf(&self) -> bool {
        &&& self.stack_switch_index <= 7
        &&& self.privilege <= 3
    }

    /// The default configuration: no stack switch, interrupt gate (hardware
    /// interrupts masked on entry), kernel privilege only.
    pub fn minimal(code_selector: SegmentSelector) -> (o: HandlerOptions)
        ensures
            o == (HandlerOptions {
                code_selector,
                stack_switch_index: 0,
                trap_gate: false,
                privilege: 0,
            }),
    {
        HandlerOptions { code_selector, stack_switch_index: 0, trap_gate: false, privilege: 0 }
    }
}

/// The exception vector table: one entry per fault/interrupt number.
#[derive(Debug)]
pub struct ExceptionVectorTable {
    entries: Vec<ExceptionVectorEntry>,
}

impl View for ExceptionVectorTable {
    type V = Seq<ExceptionVectorEntry>;

    closed spec fn view(&self) -> Seq<ExceptionVectorEntry> {
        self.entries@
    }
}

impl ExceptionVectorTable {
    pub open spec fn wf(&self) -> bool {
        &&& self@.len() == VECTOR_COUNT
        &&& forall|i: int| 0 <= i < self@.len() ==> (#[trigger] self@[i]).wf()
    }

    /// Creates a table in which every entry is absent.
    pub fn new() -> (t: ExceptionVectorTable)
        ensures
            t.wf(),
            t@ =~= Seq::new(VECTOR_COUNT as nat, |_i: int| ExceptionVectorEntry::spec_missing()),
    {
        let mut entries: Vec<ExceptionVectorEntry> = Vec::new();
        let mut i: usize = 0;
        while i < VECTOR_COUNT
            invariant
                i <= VECTOR_COUNT,
                entries@ =~= Seq::new(i as nat, |_j: int| ExceptionVectorEntry::spec_missing()),
            decreases VECTOR_COUNT - i,
        {
            entries.push(ExceptionVectorEntry::missing());
            i = i + 1;
        }
        ExceptionVectorTable { entries }
    }

    /// The entry for `vector`.
    pub fn entry(&self, vector: u8) -> (e: ExceptionVectorEntry)
        requires
            self.wf(),
        ensures
            e == self@[vector as int],
    {
        self.entries[vector as usize]
    }

    /// Installs a present entry binding `vector` to `handler` under the
    /// given stack-switch policy; every other vector keeps its entry.
    pub fn register_handler(&mut self, vector: u8, handler: u64, options: HandlerOptions)
        requires
            old(self).wf(),
            options.wf(),
        ensures
            final(self).wf(),
            final(self)@ =~= old(self)@.update(
                vector as int,
                registered_entry(handler, options),
            ),
    {
        let e = ExceptionVectorEntry {
            handler,
            code_selector: options.code_selector,
            stack_switch_index: options.stack_switch_index,
            trap_gate: options.trap_gate,
            privilege: options.privilege,
            present: true,
        };
        self.entries.set(vector as usize, e);
    }
}

/// The entry that `register_handler` installs.
pub open spec fn registered_entry(handler: u64, options: HandlerOptions) -> ExceptionVectorEntry {
    ExceptionVectorEntry {
        handler,
        code_selector: options.code_selector,
        stack_switch_index: options.stack_switch_index,
        trap_gate: options.trap_gate,
        privilege: options.privilege,
        present: true,
    }
}

/// The vector table the boot sequencer activates: the software breakpoint
/// trap bound to its handler on the current stack, and the double-fault
/// vector bound to the contained-fault handler with a stack switch to the
/// reserved emergency-stack slot.
pub open spec fn spec_initial_vector_table(
    code_selector: SegmentSelector,
    breakpoint_handler: u64,
    double_fault_handler: u64,
) -> Seq<ExceptionVectorEntry> {
    Seq::new(VECTOR_COUNT as nat, |_i: int| ExceptionVectorEntry::spec_missing())
        .update(
            BREAKPOINT_VECTOR as int,
            registered_entry(
                breakpoint_handler,
                HandlerOptions { code_selector, stack_switch_index: 0, trap_gate: false, privilege: 0 },
            ),
        )
        .update(
            DOUBLE_FAULT_VECTOR as int,
            registered_entry(
                double_fault_handler,
                HandlerOptions {
                    code_selector,
                    stack_switch_index: (DOUBLE_FAULT_IST_INDEX + 1) as u8,
                    trap_gate: false,
                    privilege: 0,
                },
            ),
        )
}

/// Builds the exception vector table: the breakpoint trap handled on the
/// current stack, and the double fault handled on the dedicated emergency
/// stack, so that the cascade page fault → double fault never escalates to
/// an uncontained reset.
pub fn init_idt(
    code_selector: SegmentSelector,
    breakpoint_handler: u64,
    double_fault_handler: u64,
) -> (idt: ExceptionVectorTable)
    ensures
        idt.wf(),
        idt@ =~= spec_initial_vector_table(
            code_selector,
            breakpoint_handler,
            double_fault_handler,
        ),
{
    let mut idt = ExceptionVectorTable::new();
    idt.register_handler(
        BREAKPOINT_VECTOR,
        breakpoint_handler,
        HandlerOptions::minimal(code_selector),
    );
    idt.register_handler(
        DOUBLE_FAULT_VECTOR,
        double_fault_handler,
        HandlerOptions {
            code_selector,
            stack_switch_index: DOUBLE_FAULT_IST_INDEX as u8 + 1,
            trap_gate: false,
            privilege: 0,
        },
    );
    idt
}

} // verus!
