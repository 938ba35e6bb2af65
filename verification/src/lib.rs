//! Hardware fault-isolation layer of a minimal bare-metal kernel.
//!
//! The library builds the processor's descriptor tables: the segment
//! descriptor table and the task-state structure (which let the processor
//! switch to a known-good stack before invoking a fault handler), and the
//! exception vector table that binds fault conditions to handler code and
//! stack-switch policy.  Construction is explicit and single-threaded; the
//! irreversible hardware register loads are left to the embedding program,
//! which feeds the table words computed here into the CPU.

pub mod dispatch;
pub mod gdt;
pub mod interrupts;
pub mod layout;
pub mod vga_buffer;

use vstd::prelude::*;
use crate::dispatch::{
    spec_classify_outcome, spec_dispatch, DispatchOutcome, FaultClass,
};
use crate::gdt::{
    selector_targets, tss_descriptor_high, tss_descriptor_low, Descriptor, EmergencyStackBuffer,
    GlobalDescriptorTable, SegmentSelector, TaskStateHandle, TaskStateStructure,
    DOUBLE_FAULT_IST_INDEX, EMERGENCY_STACK_SIZE, TSS_SIZE_BYTES,
};
use crate::interrupts::{
    init_idt, spec_initial_vector_table, ExceptionVectorTable, BREAKPOINT_VECTOR,
    DOUBLE_FAULT_VECTOR, PAGE_FAULT_VECTOR,
};

verus! {

/// The raw word of the 64-bit kernel code segment descriptor.
pub const KERNEL_CODE_DESCRIPTOR: u64 = 0x00af9b000000ffff;

/// Process-wide singleton tables: exactly one descriptor table and one
/// task-state structure may be active in the CPU's table and task registers
/// at a time, so the whole set is built once, during the single-threaded
/// boot phase, and owned by one context value.
#[derive(Debug)]
pub struct KernelTables {
    /// The segment descriptor table.
    pub gdt: GlobalDescriptorTable,
    /// The task-state structure whose interrupt stack table holds the
    /// emergency stack top.
    pub tss: TaskStateStructure,
    /// Where the hardware task-state record lives.
    pub tss_handle: TaskStateHandle,
    /// Selector of the kernel code segment descriptor.
    pub code_selector: SegmentSelector,
    /// Selector of the task-state descriptor.
    pub tss_selector: SegmentSelector,
    /// The exception vector table.
    pub idt: ExceptionVectorTable,
}

/// Exactly the table set that `init` builds from an emergency stack buffer
/// and the two handler addresses: the descriptor table holding the null
/// word, the kernel code descriptor and the two-word task-state descriptor;
/// the selectors naming them; the task-state structure whose reserved
/// interrupt-stack slot holds the buffer's top; and the vector table with
/// the breakpoint and double-fault bindings.
pub open spec fn is_boot_configuration(
    t: KernelTables,
    stack: EmergencyStackBuffer,
    breakpoint_handler: u64,
    double_fault_handler: u64,
) -> bool {
    &&& t.gdt.wf()
    &&& t.tss.wf()
    &&& t.idt.wf()
    &&& t.gdt@ =~= seq![
        0u64,
        KERNEL_CODE_DESCRIPTOR,
        tss_descriptor_low(t.tss_handle.base, TSS_SIZE_BYTES),
        tss_descriptor_high(t.tss_handle.base),
    ]
    &&& t.code_selector == (SegmentSelector { bits: 8 })
    &&& t.tss_selector == (SegmentSelector { bits: 16 })
    &&& t.tss.privilege_stack_table@ =~= seq![0u64, 0u64, 0u64]
    &&& t.tss.interrupt_stack_table@ =~= seq![
        (stack.base + stack.size) as u64,
        0u64, 0u64, 0u64, 0u64, 0u64, 0u64,
    ]
    &&& t.tss.iomap_base == TSS_SIZE_BYTES
    &&& t.idt@ =~= spec_initial_vector_table(
        t.code_selector,
        breakpoint_handler,
        double_fault_handler,
    )
}

/// Boot sequencer, the one entry point: builds the descriptor table and the
/// task-state structure (in that order — the task-state descriptor must
/// exist in the descriptor table before it can be referenced), then the
/// exception vector table.  Must run, and its tables must be activated,
/// before any code path that could trigger a fault.
///
/// `emergency_stack_base` is the lowest address of the statically reserved
/// emergency stack buffer; `breakpoint_handler` and `double_fault_handler`
/// are the addresses of the two registered handlers, compiled under the
/// convention that saves and restores every register they touch.
pub fn init(
    emergency_stack_base: u64,
    breakpoint_handler: u64,
    double_fault_handler: u64,
) -> (t: KernelTables)
    requires
        emergency_stack_base + EMERGENCY_STACK_SIZE <= u64::MAX,
    ensures
        is_boot_configuration(
            t,
            EmergencyStackBuffer { base: emergency_stack_base, size: EMERGENCY_STACK_SIZE },
            breakpoint_handler,
            double_fault_handler,
        ),
        selector_targets(t.gdt@, t.code_selector, Descriptor::UserSegment(KERNEL_CODE_DESCRIPTOR)),
        selector_targets(t.gdt@, t.tss_selector, Descriptor::SystemSegment(
            tss_descriptor_low(t.tss_handle.base, TSS_SIZE_BYTES),
            tss_descriptor_high(t.tss_handle.base),
        )),
        t.tss.interrupt_stack_table@[DOUBLE_FAULT_IST_INDEX as int]
            == emergency_stack_base + EMERGENCY_STACK_SIZE,
{
    let stack = EmergencyStackBuffer::new(emergency_stack_base);
    let mut tss = TaskStateStructure::new();
    let _top = tss.reserve_emergency_stack(DOUBLE_FAULT_IST_INDEX as usize, &stack);
    let (tss_handle, tss_desc) = gdt::allocate_task_state(&tss);
    let mut table = GlobalDescriptorTable::new();
    let code_descriptor = Descriptor::kernel_code_segment();
    proof {
        assert(((0x00af9b000000ffffu64 >> 45) & 3) == 0) by (bit_vector);
    }
    let code_selector = table.append(code_descriptor);
    let ghost after_code = table@;
    proof {
        let limit = gdt::tss_descriptor_limit(tss.iomap_base);
        let base = tss_handle.base;
        assert(limit < 0x10000);
        assert((((limit | (0x9u64 << 40) | (1u64 << 47) | ((base & 0xffffff) << 16)
            | (((base >> 24) & 0xff) << 56)) >> 45) & 3) == 0) by (bit_vector)
            requires limit < 0x10000u64,
        ;
    }
    let tss_selector = table.append(tss_desc);
    proof {
        assert(table@.subrange(0, after_code.len() as int) =~= after_code);
        gdt::lemma_selector_stable(after_code, table@, code_selector, code_descriptor);
    }
    let idt = init_idt(code_selector, breakpoint_handler, double_fault_handler);
    KernelTables { gdt: table, tss, tss_handle, code_selector, tss_selector, idt }
}

/// One irreversible hardware register load of the activation sequence.
/// The loads themselves are performed by the embedding program; each is a
/// one-shot transition that cannot be expressed as ordinary computation.
#[derive(Debug, Clone, Copy, PartialEq, Eq, Structural)]
pub enum ActivationStep {
    /// Install the descriptor table in the CPU's table register.  This does
    /// not, by itself, change which descriptor the processor's segment
    /// registers use.
    LoadDescriptorTable,
    /// Point the code-segment register at the named selector.
    SetCodeSegment(SegmentSelector),
    /// Load the task register with the named selector, so the CPU knows
    /// where to find the interrupt stack table.
    LoadTaskRegister(SegmentSelector),
    /// Install the exception vector table as the CPU's dispatch table.
    LoadVectorTable,
}

impl KernelTables {
    /// The order in which the built tables must be activated: descriptor
    /// table first, then the code-segment register, then the task register
    /// (the task-state descriptor must already be in the active descriptor
    /// table), and the exception vector table last.
    pub fn activation_plan(&self) -> (plan: Vec<ActivationStep>)
        ensures
            plan@ =~= seq![
                ActivationStep::LoadDescriptorTable,
                ActivationStep::SetCodeSegment(self.code_selector),
                ActivationStep::LoadTaskRegister(self.tss_selector),
                ActivationStep::LoadVectorTable,
            ],
    {
        let mut plan: Vec<ActivationStep> = Vec::new();
        plan.push(ActivationStep::LoadDescriptorTable);
        plan.push(ActivationStep::SetCodeSegment(self.code_selector));
        plan.push(ActivationStep::LoadTaskRegister(self.tss_selector));
        plan.push(ActivationStep::LoadVectorTable);
        plan
    }
}

/// A software breakpoint trap raised after initialization invokes the
/// registered breakpoint handler — that handler, exactly once, with no
/// escalation and no stack switch — and, the breakpoint being a recoverable
/// condition, execution resumes at the following instruction when the
/// handler returns.
pub proof fn lemma_breakpoint_trap_resumes(
    t: KernelTables,
    stack: EmergencyStackBuffer,
    breakpoint_handler: u64,
    double_fault_handler: u64,
)
    requires
        is_boot_configuration(t, stack, breakpoint_handler, double_fault_handler),
    ensures
        spec_dispatch(t.idt@, t.tss.interrupt_stack_table@, BREAKPOINT_VECTOR, true)
            == (DispatchOutcome::Invoked {
                vector: BREAKPOINT_VECTOR,
                handler: breakpoint_handler,
                emergency_stack_top: None,
                escalations: 0,
                interrupts_masked: true,
            }),
        spec_classify_outcome(
            spec_dispatch(t.idt@, t.tss.interrupt_stack_table@, BREAKPOINT_VECTOR, true),
        ) == FaultClass::Recoverable,
{
}

/// Exhausting the call stack makes the frame push for the resulting fault
/// fail on the corrupt stack, so the condition escalates — once — to the
/// double-fault vector.  Its entry switches to the dedicated emergency
/// stack (the reserved buffer's top address) strictly before any frame data
/// is pushed, so the contained-fault handler runs, exactly once, and the
/// outcome is a deliberate halt rather than a second escalation or a reset.
pub proof fn lemma_stack_overflow_contained(
    t: KernelTables,
    stack: EmergencyStackBuffer,
    breakpoint_handler: u64,
    double_fault_handler: u64,
)
    requires
        is_boot_configuration(t, stack, breakpoint_handler, double_fault_handler),
        stack.wf(),
    ensures
        spec_dispatch(t.idt@, t.tss.interrupt_stack_table@, PAGE_FAULT_VECTOR, false)
            == (DispatchOutcome::Invoked {
                vector: DOUBLE_FAULT_VECTOR,
                handler: double_fault_handler,
                emergency_stack_top: Some((stack.base + stack.size) as u64),
                escalations: 1,
                interrupts_masked: true,
            }),
        spec_classify_outcome(
            spec_dispatch(t.idt@, t.tss.interrupt_stack_table@, PAGE_FAULT_VECTOR, false),
        ) == FaultClass::FatalContained,
{
    let ist = t.tss.interrupt_stack_table@;
    assert(spec_dispatch(t.idt@, ist, PAGE_FAULT_VECTOR, false)
        == dispatch::spec_dispatch_from(t.idt@, ist, DOUBLE_FAULT_VECTOR, false, 1));
}

/// After initialization the uncontained path is closed: whatever vector is
/// raised, and however corrupt the interrupted stack, dispatch reaches a
/// handler and never the hardware reset.
pub proof fn lemma_no_reset_after_init(
    t: KernelTables,
    stack: EmergencyStackBuffer,
    breakpoint_handler: u64,
    double_fault_handler: u64,
    vector: u8,
    stack_valid: bool,
)
    requires
        is_boot_configuration(t, stack, breakpoint_handler, double_fault_handler),
    ensures
        spec_dispatch(t.idt@, t.tss.interrupt_stack_table@, vector, stack_valid) is Invoked,
        spec_classify_outcome(
            spec_dispatch(t.idt@, t.tss.interrupt_stack_table@, vector, stack_valid),
        ) != FaultClass::FatalUncontained,
{
    dispatch::lemma_contained_fault_never_resets(
        t.idt@,
        t.tss.interrupt_stack_table@,
        vector,
        stack_valid,
    );
}

/// Construction is idempotent: any two table sets built from the same
/// inputs, with the task-state record at the same address, are the same
/// tables — entry for entry, selector for selector.  Re-running the
/// construction step before first activation therefore yields one single
/// shared configuration, and repeated lookups after activation return
/// identical selectors and addresses.
pub proof fn lemma_construction_idempotent(
    a: KernelTables,
    b: KernelTables,
    stack: EmergencyStackBuffer,
    breakpoint_handler: u64,
    double_fault_handler: u64,
)
    requires
        is_boot_configuration(a, stack, breakpoint_handler, double_fault_handler),
        is_boot_configuration(b, stack, breakpoint_handler, double_fault_handler),
        a.tss_handle == b.tss_handle,
    ensures
        a.gdt@ == b.gdt@,
        a.code_selector == b.code_selector,
        a.tss_selector == b.tss_selector,
        a.tss.privilege_stack_table@ == b.tss.privilege_stack_table@,
        a.tss.interrupt_stack_table@ == b.tss.interrupt_stack_table@,
        a.tss.iomap_base == b.tss.iomap_base,
        a.idt@ == b.idt@,
{
}

/// Exit value handed to the emulator's debug exit device.
///
/// The device reports `(value << 1) | 1` as the process exit status.
#[derive(Debug, Clone, Copy, PartialEq, Eq, Structural)]
pub enum QemuExitCode {
    Success,
    Failed,
}

impl QemuExitCode {
    /// The 32-bit value written to the exit device's port.
    pub fn value(self) -> (v: u32)
        ensures
            self is Success ==> v == 0x10,
            self is Failed ==> v == 0x11,
    {
        match self {
            QemuExitCode::Success => 0x10,
            QemuExitCode::Failed => 0x11,
        }
    }
}

} // verus!
