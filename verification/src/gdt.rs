//! Segment descriptor table and task-state structure.
//!
//! The descriptor table is assembled one descriptor at a time; `append`
//! returns a selector that keeps naming the same descriptor for the life of
//! the table.  The task-state structure owns the interrupt stack table whose
//! reserved slot holds the top address of a dedicated emergency stack, so
//! that the processor can switch to a known-good stack before it pushes any
//! exception frame data.

use vstd::prelude::*;
use crate::layout::{le_bytes, push_le_u64, push_zero_bytes, zero_bytes};

verus! {

/// Interrupt-stack-table slot reserved for the contained (double) fault.
pub const DOUBLE_FAULT_IST_INDEX: u16 = 0;

/// Size in bytes of the dedicated emergency stack buffer: several pages,
/// sized generously above ordinary handler stack usage.
pub const EMERGENCY_STACK_SIZE: u64 = 4096 * 5;

/// Number of 8-byte entries the descriptor table can hold.
pub const GDT_MAX_ENTRIES: usize = 8;

/// A segment descriptor, given by its raw 8-byte table words.
#[derive(Debug, Clone, Copy, PartialEq, Eq, Structural)]
pub enum Descriptor {
    /// Descriptor for a code or data segment: one table word.
    UserSegment(u64),
    /// A system segment descriptor, such as a task-state descriptor: two
    /// table words.
    SystemSegment(u64, u64),
}

impl Descriptor {
    /// Number of table words the descriptor occupies.
    pub open spec fn entry_count(self) -> int {
        match self {
            Descriptor::UserSegment(_) => 1,
            Descriptor::SystemSegment(_, _) => 2,
        }
    }

    /// The raw words, in table order.
    pub open spec fn entry_words(self) -> Seq<u64> {
        match self {
            Descriptor::UserSegment(v) => seq![v],
            Descriptor::SystemSegment(low, high) => seq![low, high],
        }
    }

    /// The word holding the descriptor's flag bits.
    pub open spec fn low_word(self) -> u64 {
        match self {
            Descriptor::UserSegment(v) => v,
            Descriptor::SystemSegment(low, _) => low,
        }
    }

    /// Descriptor privilege level: bits 45..47 of the low word.
    pub open spec fn dpl(self) -> u64 {
        (self.low_word() >> 45) & 3
    }

    /// The 64-bit kernel code segment descriptor.
    pub fn kernel_code_segment() -> (d: Descriptor)
        ensures
            d == Descriptor::UserSegment(0x00af9b000000ffffu64),
    {
        Descriptor::UserSegment(ex_kernel_code_descriptor())
    }
}

/// Relies on x86_64's `Descriptor::kernel_code_segment`: the constant
/// descriptor word `DescriptorFlags::KERNEL_CODE64` (flags ACCESSED,
/// WRITABLE, EXECUTABLE, USER_SEGMENT, PRESENT, LONG_MODE, GRANULARITY and
/// the maximal limit field).
#[verifier::external_body]
fn ex_kernel_code_descriptor() -> (bits: u64)
    ensures
        bits == 0x00af9b000000ffffu64,
{
    match x86_64::structures::gdt::Descriptor::kernel_code_segment() {
        x86_64::structures::gdt::Descriptor::UserSegment(v) => v,
        x86_64::structures::gdt::Descriptor::SystemSegment(v, _) => v,
    }
}

/// Relies on x86_64's `SegmentSelector::new`, which packs the table index
/// into bits 3.. and the requested privilege level into bits 0..2 (the
/// table-indicator bit 2 stays clear).  `PrivilegeLevel::from_u16` panics
/// for levels above 3, and the shift would overflow for indices of 0x2000
/// and above, so those inputs are excluded.
#[verifier::external_body]
fn ex_segment_selector(index: u16, rpl: u16) -> (bits: u16)
    requires
        index < 0x2000,
        rpl < 4,
    ensures
        bits == 8 * index + rpl,
{
    x86_64::registers::segmentation::SegmentSelector::new(
        index,
        x86_64::PrivilegeLevel::from_u16(rpl),
    ).0
}

/// The index-plus-privilege-bits value that names a descriptor in the table.
///
/// Selectors are opaque to callers: once a descriptor is appended, its
/// selector never changes.
#[derive(Debug, Clone, Copy, PartialEq, Eq, Structural)]
pub struct SegmentSelector {
    pub bits: u16,
}

impl SegmentSelector {
    /// The descriptor-table index the selector points at.
    pub open spec fn index(self) -> int {
        self.bits as int / 8
    }

    /// The requested privilege level (bits 0..3).
    pub open spec fn rpl(self) -> int {
        self.bits as int % 8
    }
}

/// Whether `sel` names descriptor `d` inside the table words `table`.
pub open spec fn selector_targets(table: Seq<u64>, sel: SegmentSelector, d: Descriptor) -> bool {
    &&& sel.index() + d.entry_count() <= table.len()
    &&& table.subrange(sel.index(), sel.index() + d.entry_count()) == d.entry_words()
}

/// The segment descriptor table, assembled during boot and then loaded into
/// the CPU's table register as a whole.
#[derive(Debug)]
pub struct GlobalDescriptorTable {
    table: Vec<u64>,
}

impl View for GlobalDescriptorTable {
    type V = Seq<u64>;

    closed spec fn view(&self) -> Seq<u64> {
        self.table@
    }
}

impl GlobalDescriptorTable {
    /// A table is well formed when it starts with the mandatory null
    /// descriptor and fits the fixed hardware capacity.
    pub open spec fn wf(&self) -> bool {
        &&& 1 <= self@.len() <= GDT_MAX_ENTRIES
        &&& self@[0] == 0u64
    }

    /// Creates an empty table holding only the null descriptor.
    pub fn new() -> (g: GlobalDescriptorTable)
        ensures
            g.wf(),
            g@ =~= seq![0u64],
    {
        let mut table: Vec<u64> = Vec::new();
        table.push(0);
        GlobalDescriptorTable { table }
    }

    /// Number of table words in use.
    pub fn len(&self) -> (n: usize)
        ensures
            n == self@.len(),
    {
        self.table.len()
    }

    /// The raw table word at `index`.
    pub fn entry(&self, index: usize) -> (w: u64)
        requires
            index < self@.len(),
        ensures
            w == self@[index as int],
    {
        self.table[index]
    }

    /// Inserts a descriptor and returns a selector usable immediately and
    /// stable for the life of the table.
    pub fn append(&mut self, d: Descriptor) -> (sel: SegmentSelector)
        requires
            old(self).wf(),
            old(self)@.len() + d.entry_count() <= GDT_MAX_ENTRIES,
        ensures
            final(self).wf(),
            final(self)@ =~= old(self)@ + d.entry_words(),
            sel.bits == 8 * old(self)@.len() + d.dpl(),
            sel.index() == old(self)@.len(),
            sel.rpl() == d.dpl(),
            selector_targets(final(self)@, sel, d),
    {
        let index = self.table.len();
        let low: u64 = match d {
            Descriptor::UserSegment(v) => v,
            Descriptor::SystemSegment(l, _) => l,
        };
        let rpl: u16 = ((low >> 45) & 3) as u16;
        assert(((low >> 45) & 3) < 4) by (bit_vector);
        match d {
            Descriptor::UserSegment(v) => {
                self.table.push(v);
            }
            Descriptor::SystemSegment(l, h) => {
                self.table.push(l);
                self.table.push(h);
            }
        }
        let bits = ex_segment_selector(index as u16, rpl);
        let sel = SegmentSelector { bits };
        proof {
            assert(sel.bits == 8 * index + d.dpl());
            assert((8 * index + d.dpl()) / 8 == index && (8 * index + d.dpl()) % 8 == d.dpl())
                by (nonlinear_arith)
                requires 0 <= index, 0 <= d.dpl() < 4;
            assert(self@.subrange(sel.index(), sel.index() + d.entry_count())
                =~= d.entry_words());
        }
        sel
    }

    /// The limit word of the table pointer handed to the CPU's load
    /// instruction: one less than the table's size in bytes.  Loading reads
    /// the table and changes no entry; which descriptor is in active use
    /// only changes when a segment register is later pointed at a selector.
    pub fn load_limit(&self) -> (limit: u16)
        requires
            self.wf(),
        ensures
            limit == 8 * self@.len() - 1,
    {
        self.table.len() as u16 * 8 - 1
    }
}

/// A statically reserved, fixed-size byte region with process lifetime,
/// never freed and never reused, referenced only through the task-state
/// structure.  `base` is the address of its lowest byte; the embedding
/// program guarantees that `size` bytes are genuinely mapped there.
#[derive(Debug, Clone, Copy, PartialEq, Eq, Structural)]
pub struct EmergencyStackBuffer {
    pub base: u64,
    pub size: u64,
}

impl EmergencyStackBuffer {
    /// The buffer must not wrap around the top of the address space.
    pub open spec fn wf(&self) -> bool {
        self.base + self.size <= u64::MAX
    }

    /// Describes the emergency stack region starting at `base`.
    pub fn new(base: u64) -> (b: EmergencyStackBuffer)
        requires
            base + EMERGENCY_STACK_SIZE <= u64::MAX,
        ensures
            b.wf(),
            b.base == base,
            b.size == EMERGENCY_STACK_SIZE,
    {
        EmergencyStackBuffer { base, size: EMERGENCY_STACK_SIZE }
    }

    /// The stack-top address: base address plus buffer length.  Stacks grow
    /// downward, so this — not the base — is what a stack pointer is set to.
    pub fn top(&self) -> (top: u64)
        requires
            self.wf(),
        ensures
            top == self.base + self.size,
    {
        self.base + self.size
    }
}

/// Byte size of the hardware task-state record; also the initial value of
/// `iomap_base`, which marks the I/O permission map as empty.
pub const TSS_SIZE_BYTES: u16 = 104;

/// Fixed-layout record holding the privilege stack table (three stack-top
/// addresses, used on privilege-level change) and the interrupt stack table
/// (seven stack-top addresses, selected by an exception vector entry's
/// stack-switch index).
#[derive(Debug)]
pub struct TaskStateStructure {
    /// Stack tops used when the privilege level changes; unused in this
    /// design but mandated by the record's layout.
    pub privilege_stack_table: Vec<u64>,
    /// Stack tops the CPU may switch to before invoking a handler.
    pub interrupt_stack_table: Vec<u64>,
    /// Offset of the I/O permission map from the record's base.
    pub iomap_base: u16,
}

impl TaskStateStructure {
    pub open spec fn wf(&self) -> bool {
        &&& self.privilege_stack_table@.len() == 3
        &&& self.interrupt_stack_table@.len() == 7
    }

    /// Creates a record with zeroed stack tables and an empty I/O map.
    pub fn new() -> (t: TaskStateStructure)
        ensures
            t.wf(),
            t.privilege_stack_table@ =~= seq![0u64, 0u64, 0u64],
            t.interrupt_stack_table@ =~= seq![0u64, 0u64, 0u64, 0u64, 0u64, 0u64, 0u64],
            t.iomap_base == TSS_SIZE_BYTES,
    {
        let mut privilege_stack_table: Vec<u64> = Vec::new();
        let mut interrupt_stack_table: Vec<u64> = Vec::new();
        let mut i: usize = 0;
        while i < 3
            invariant
                i <= 3,
                privilege_stack_table@ =~= Seq::new(i as nat, |_j: int| 0u64),
            decreases 3 - i,
        {
            privilege_stack_table.push(0);
            i = i + 1;
        }
        let mut j: usize = 0;
        while j < 7
            invariant
                j <= 7,
                interrupt_stack_table@ =~= Seq::new(j as nat, |_k: int| 0u64),
            decreases 7 - j,
        {
            interrupt_stack_table.push(0);
            j = j + 1;
        }
        let t = TaskStateStructure {
            privilege_stack_table,
            interrupt_stack_table,
            iomap_base: TSS_SIZE_BYTES,
        };
        proof {
            assert(t.privilege_stack_table@ =~= seq![0u64, 0u64, 0u64]);
            assert(t.interrupt_stack_table@
                =~= seq![0u64, 0u64, 0u64, 0u64, 0u64, 0u64, 0u64]);
        }
        t
    }

    /// The hardware-mandated byte image of the record: four reserved bytes,
    /// the privilege stack table, eight reserved bytes, the interrupt stack
    /// table, ten reserved bytes, and the 16-bit I/O-map base address —
    /// every field little-endian.
    pub open spec fn spec_layout(&self) -> Seq<u8> {
        zero_bytes(4)
            + le_bytes(self.privilege_stack_table@[0])
            + le_bytes(self.privilege_stack_table@[1])
            + le_bytes(self.privilege_stack_table@[2])
            + zero_bytes(8)
            + le_bytes(self.interrupt_stack_table@[0])
            + le_bytes(self.interrupt_stack_table@[1])
            + le_bytes(self.interrupt_stack_table@[2])
            + le_bytes(self.interrupt_stack_table@[3])
            + le_bytes(self.interrupt_stack_table@[4])
            + le_bytes(self.interrupt_stack_table@[5])
            + le_bytes(self.interrupt_stack_table@[6])
            + zero_bytes(10)
            + seq![(self.iomap_base & 0xff) as u8, (self.iomap_base >> 8) as u8]
    }

    /// Emits the record's byte image, bit-exact: the hardware reads the
    /// record directly in this layout.
    pub fn layout_bytes(&self) -> (bytes: Vec<u8>)
        requires
            self.wf(),
        ensures
            bytes@ =~= self.spec_layout(),
            bytes@.len() == TSS_SIZE_BYTES,
    {
        let mut bytes: Vec<u8> = Vec::new();
        push_zero_bytes(&mut bytes, 4);
        push_le_u64(&mut bytes, self.privilege_stack_table[0]);
        push_le_u64(&mut bytes, self.privilege_stack_table[1]);
        push_le_u64(&mut bytes, self.privilege_stack_table[2]);
        push_zero_bytes(&mut bytes, 8);
        push_le_u64(&mut bytes, self.interrupt_stack_table[0]);
        push_le_u64(&mut bytes, self.interrupt_stack_table[1]);
        push_le_u64(&mut bytes, self.interrupt_stack_table[2]);
        push_le_u64(&mut bytes, self.interrupt_stack_table[3]);
        push_le_u64(&mut bytes, self.interrupt_stack_table[4]);
        push_le_u64(&mut bytes, self.interrupt_stack_table[5]);
        push_le_u64(&mut bytes, self.interrupt_stack_table[6]);
        push_zero_bytes(&mut bytes, 10);
        bytes.push((self.iomap_base & 0xff) as u8);
        bytes.push((self.iomap_base >> 8) as u8);
        bytes
    }

    /// Stores the top address of the given emergency stack buffer in slot
    /// `slot_index` of the interrupt stack table and returns that address.
    ///
    /// Once the record is installed and activated, the CPU switches the
    /// stack pointer to this address before pushing any exception-frame
    /// data for a handler configured to use this slot — even if the
    /// previously active stack pointer is corrupt or exhausted.
    pub fn reserve_emergency_stack(
        &mut self,
        slot_index: usize,
        stack: &EmergencyStackBuffer,
    ) -> (top: u64)
        requires
            old(self).wf(),
            slot_index < 7,
            stack.wf(),
        ensures
            final(self).wf(),
            top == stack.base + stack.size,
            final(self).interrupt_stack_table@
                =~= old(self).interrupt_stack_table@.update(slot_index as int, top),
            final(self).privilege_stack_table@ == old(self).privilege_stack_table@,
            final(self).iomap_base == old(self).iomap_base,
    {
        let top = stack.top();
        self.interrupt_stack_table.set(slot_index, top);
        top
    }
}

/// Low word of the two-word system descriptor for a task-state record at
/// address `base`: limit in bits 0..16, base bits 0..24 in bits 16..40,
/// type 0b1001 (available 64-bit task-state) in bits 40..44, present bit
/// 47, base bits 24..32 in bits 56..64.
pub open spec fn tss_descriptor_low(base: u64, iomap_base: u16) -> u64 {
    tss_descriptor_limit(iomap_base)
        | (0x9u64 << 40)
        | (1u64 << 47)
        | ((base & 0xffffff) << 16)
        | (((base >> 24) & 0xff) << 56)
}

/// The descriptor's limit field: one less than the record's extent, which
/// is the record itself or the end of its I/O map, whichever lies further.
pub open spec fn tss_descriptor_limit(iomap_base: u16) -> u64 {
    if iomap_base > TSS_SIZE_BYTES {
        (iomap_base - 1) as u64
    } else {
        (TSS_SIZE_BYTES - 1) as u64
    }
}

/// High word of the descriptor: base bits 32..64 in bits 0..32.
pub open spec fn tss_descriptor_high(base: u64) -> u64 {
    base >> 32
}

/// Computes the two-word system descriptor for a task-state record living
/// at `base`, in the hardware-mandated layout.
pub fn tss_descriptor(base: u64, iomap_base: u16) -> (d: Descriptor)
    ensures
        d == Descriptor::SystemSegment(
            tss_descriptor_low(base, iomap_base),
            tss_descriptor_high(base),
        ),
{
    let limit: u64 = if iomap_base > TSS_SIZE_BYTES {
        (iomap_base - 1) as u64
    } else {
        (TSS_SIZE_BYTES - 1) as u64
    };
    let low: u64 = limit
        | (0x9u64 << 40)
        | (1u64 << 47)
        | ((base & 0xffffff) << 16)
        | (((base >> 24) & 0xff) << 56);
    Descriptor::SystemSegment(low, base >> 32)
}

/// Handle to the hardware task-state record: the address where the record
/// genuinely lives for the rest of the process.  Values of this type come
/// only from `allocate_task_state`, the sole sanctioned way to obtain one.
#[derive(Debug, Clone, Copy, PartialEq, Eq, Structural)]
pub struct TaskStateHandle {
    pub base: u64,
}

/// Materialises the task-state record in memory that lives for the rest of
/// the process, and returns its handle together with the system descriptor
/// that points at it.
pub fn allocate_task_state(tss: &TaskStateStructure) -> (r: (TaskStateHandle, Descriptor))
    requires
        tss.wf(),
    ensures
        r.1 == Descriptor::SystemSegment(
            tss_descriptor_low(r.0.base, tss.iomap_base),
            tss_descriptor_high(r.0.base),
        ),
{
    let (base, low, high) = ex_allocate_task_state(tss);
    (TaskStateHandle { base }, Descriptor::SystemSegment(low, high))
}

/// Relies on x86_64's `TaskStateSegment` and `Descriptor::tss_segment`: the
/// record is written to a fresh leaked allocation, and the returned
/// descriptor words are computed from that allocation's address — low word
/// holding the present bit, type 0b1001, the limit (the record size or the
/// I/O map offset, whichever is larger, less one) and base bits 0..32;
/// high word holding base bits 32..64.  The address itself depends on the
/// allocator, so nothing is stated about it.
#[verifier::external_body]
fn ex_allocate_task_state(tss: &TaskStateStructure) -> (r: (u64, u64, u64))
    requires
        tss.wf(),
    ensures
        r.1 == tss_descriptor_low(r.0, tss.iomap_base),
        r.2 == tss_descriptor_high(r.0),
{
    let mut hw = x86_64::structures::tss::TaskStateSegment::new();
    for i in 0..3 {
        hw.privilege_stack_table[i] = x86_64::VirtAddr::new_truncate(tss.privilege_stack_table[i]);
    }
    for i in 0..7 {
        hw.interrupt_stack_table[i] = x86_64::VirtAddr::new_truncate(tss.interrupt_stack_table[i]);
    }
    hw.iomap_base = tss.iomap_base;
    let hw_ref: &'static x86_64::structures::tss::TaskStateSegment = Box::leak(Box::new(hw));
    let base = x86_64::VirtAddr::from_ptr(hw_ref).as_u64();
    match x86_64::structures::gdt::Descriptor::tss_segment(hw_ref) {
        x86_64::structures::gdt::Descriptor::SystemSegment(low, high) => (base, low, high),
        x86_64::structures::gdt::Descriptor::UserSegment(low) => (base, low, 0),
    }
}

/// Once a selector names a descriptor, it keeps naming the same descriptor
/// in every later state of the table that the builder can reach: appending
/// further descriptors only extends the table, and loading it changes no
/// entry.  So the selector returned by `append` identifies the same
/// descriptor after `load`.
pub proof fn lemma_selector_stable(
    before: Seq<u64>,
    after: Seq<u64>,
    sel: SegmentSelector,
    d: Descriptor,
)
    requires
        before.len() <= after.len(),
        after.subrange(0, before.len() as int) == before,
        selector_targets(before, sel, d),
    ensures
        selector_targets(after, sel, d),
{
    assert(after.subrange(sel.index(), sel.index() + d.entry_count())
        =~= before.subrange(sel.index(), sel.index() + d.entry_count()));
}

} // verus!
