use os::gdt::{
    allocate_task_state, tss_descriptor, Descriptor, EmergencyStackBuffer, GlobalDescriptorTable,
    TaskStateStructure, DOUBLE_FAULT_IST_INDEX, EMERGENCY_STACK_SIZE, TSS_SIZE_BYTES,
};
use os::{ActivationStep, KERNEL_CODE_DESCRIPTOR};

#[test]
fn kernel_code_descriptor_word() {
    // The descriptor obtained through the hardware crate is exactly the
    // documented constant word.
    let d = Descriptor::kernel_code_segment();
    assert_eq!(d, Descriptor::UserSegment(KERNEL_CODE_DESCRIPTOR));
    assert_eq!(KERNEL_CODE_DESCRIPTOR, 0x00af9b000000ffff);
}

#[test]
fn append_returns_stable_selectors() {
    let mut gdt = GlobalDescriptorTable::new();
    assert_eq!(gdt.len(), 1);
    assert_eq!(gdt.entry(0), 0);

    let code = gdt.append(Descriptor::kernel_code_segment());
    assert_eq!(code.bits, 8);
    assert_eq!(gdt.entry(1), KERNEL_CODE_DESCRIPTOR);

    let sys = gdt.append(Descriptor::SystemSegment(0xabcd, 0x1234));
    assert_eq!(sys.bits, 16);

    // The earlier selector still names the same descriptor after more
    // descriptors were appended and the table pointer was computed (the
    // load step reads the table without changing it).
    assert_eq!(gdt.entry(1), KERNEL_CODE_DESCRIPTOR);
    assert_eq!(gdt.entry(2), 0xabcd);
    assert_eq!(gdt.entry(3), 0x1234);
    assert_eq!(gdt.load_limit(), 4 * 8 - 1);
    assert_eq!(gdt.entry(1), KERNEL_CODE_DESCRIPTOR);
}

#[test]
fn emergency_stack_slot_holds_top() {
    // The address stored for the reserved slot is base + length: the top.
    let stack = EmergencyStackBuffer::new(0x0010_0000);
    assert_eq!(stack.size, EMERGENCY_STACK_SIZE);
    let mut tss = TaskStateStructure::new();
    let top = tss.reserve_emergency_stack(DOUBLE_FAULT_IST_INDEX as usize, &stack);
    assert_eq!(top, 0x0010_0000 + 4096 * 5);
    assert_eq!(tss.interrupt_stack_table[DOUBLE_FAULT_IST_INDEX as usize], top);
    assert_eq!(tss.interrupt_stack_table[1], 0);
    assert_eq!(tss.iomap_base, TSS_SIZE_BYTES);
}

#[test]
fn tss_descriptor_matches_hardware_crate() {
    // The verified descriptor encoding agrees with the words the hardware
    // crate computes for the record it allocated.
    let mut tss = TaskStateStructure::new();
    let stack = EmergencyStackBuffer::new(0x2000);
    tss.reserve_emergency_stack(0, &stack);
    let (handle, d) = allocate_task_state(&tss);
    assert_ne!(handle.base, 0);
    assert_eq!(d, tss_descriptor(handle.base, TSS_SIZE_BYTES));
    match d {
        Descriptor::SystemSegment(low, high) => {
            // limit 103, type 0b1001, present, and the base bits in place.
            assert_eq!(low & 0xffff, 103);
            assert_eq!((low >> 40) & 0xf, 0b1001);
            assert_eq!((low >> 47) & 1, 1);
            assert_eq!((low >> 16) & 0xffffff, handle.base & 0xffffff);
            assert_eq!(low >> 56, (handle.base >> 24) & 0xff);
            assert_eq!(high, handle.base >> 32);
        }
        Descriptor::UserSegment(_) => panic!("task-state descriptor must be a system segment"),
    }
}

#[test]
fn tss_layout_is_bit_exact() {
    let mut tss = TaskStateStructure::new();
    tss.privilege_stack_table[0] = 0x1122_3344_5566_7788;
    let stack = EmergencyStackBuffer::new(0xAABB_CC00);
    tss.reserve_emergency_stack(0, &stack);
    let bytes = tss.layout_bytes();
    assert_eq!(bytes.len(), 104);
    // Four reserved bytes.
    assert_eq!(&bytes[0..4], &[0, 0, 0, 0]);
    // First privilege stack entry, little-endian, at offset 4.
    assert_eq!(&bytes[4..12], &[0x88, 0x77, 0x66, 0x55, 0x44, 0x33, 0x22, 0x11]);
    // Remaining privilege entries and the reserved quadword are zero.
    assert_eq!(&bytes[12..36], &[0u8; 24][..]);
    // First interrupt stack entry at offset 36: 0xAABBCC00 + 20480.
    let top: u64 = 0xAABB_CC00 + 4096 * 5;
    let expect = top.to_le_bytes();
    assert_eq!(&bytes[36..44], &expect[..]);
    // Remaining interrupt entries and the reserved bytes are zero.
    assert_eq!(&bytes[44..102], &[0u8; 58][..]);
    // I/O-map base: 104, little-endian.
    assert_eq!(&bytes[102..104], &[104, 0]);
}

#[test]
fn init_builds_the_boot_configuration() {
    let t = os::init(0x0040_0000, 0x1111, 0x2222);
    assert_eq!(t.code_selector.bits, 8);
    assert_eq!(t.tss_selector.bits, 16);
    assert_eq!(t.gdt.len(), 4);
    assert_eq!(t.gdt.entry(0), 0);
    assert_eq!(t.gdt.entry(1), KERNEL_CODE_DESCRIPTOR);
    match tss_descriptor(t.tss_handle.base, TSS_SIZE_BYTES) {
        Descriptor::SystemSegment(low, high) => {
            assert_eq!(t.gdt.entry(2), low);
            assert_eq!(t.gdt.entry(3), high);
        }
        Descriptor::UserSegment(_) => panic!("task-state descriptor must be a system segment"),
    }
    assert_eq!(
        t.tss.interrupt_stack_table[DOUBLE_FAULT_IST_INDEX as usize],
        0x0040_0000 + EMERGENCY_STACK_SIZE,
    );
}

#[test]
fn construction_is_idempotent() {
    // Re-running the construction step yields the same tables, selector for
    // selector and entry for entry (the task-state record address is the
    // one machine-chosen input).
    let a = os::init(0x0040_0000, 0x1111, 0x2222);
    let b = os::init(0x0040_0000, 0x1111, 0x2222);
    assert_eq!(a.code_selector, b.code_selector);
    assert_eq!(a.tss_selector, b.tss_selector);
    assert_eq!(a.gdt.len(), b.gdt.len());
    assert_eq!(a.gdt.entry(0), b.gdt.entry(0));
    assert_eq!(a.gdt.entry(1), b.gdt.entry(1));
    assert_eq!(
        a.tss.interrupt_stack_table[0],
        b.tss.interrupt_stack_table[0],
    );
    for v in 0..=255u8 {
        assert_eq!(a.idt.entry(v), b.idt.entry(v));
    }
    // Repeated lookups return identical selectors and addresses.
    assert_eq!(a.gdt.entry(1), a.gdt.entry(1));
    assert_eq!(a.idt.entry(3), a.idt.entry(3));
}

#[test]
fn activation_plan_orders_the_loads() {
    let t = os::init(0x0040_0000, 0x1111, 0x2222);
    let plan = t.activation_plan();
    assert_eq!(
        plan,
        vec![
            ActivationStep::LoadDescriptorTable,
            ActivationStep::SetCodeSegment(t.code_selector),
            ActivationStep::LoadTaskRegister(t.tss_selector),
            ActivationStep::LoadVectorTable,
        ],
    );
}

#[test]
fn qemu_exit_codes() {
    assert_eq!(os::QemuExitCode::Success.value(), 0x10);
    assert_eq!(os::QemuExitCode::Failed.value(), 0x11);
}
