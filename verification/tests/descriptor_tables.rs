use kernel::gdt::{
    DescriptorTables, LoadStep, SegSelectors, SegmentRegisters, TaskState,
    DOUBLE_FAULT_IST_INDEX, STACK_SIZE,
};

#[test]
fn build_resolves_the_documented_selectors() {
    let tables = DescriptorTables::build(0x0);
    let sels = tables.selectors();
    // Kernel code in slot 1, kernel data in slot 2, TSS in slot 6, all at
    // ring 0.
    assert_eq!(sels.kcode(), 0x08);
    assert_eq!(sels.kdata(), 0x10);
    assert_eq!(sels.tss(), 0x30);
}

#[test]
fn build_lays_out_the_flat_segments() {
    let tables = DescriptorTables::build(0x0);
    assert_eq!(tables.len(), 8);
    assert_eq!(tables.descriptor(0), 0); // null
    assert_eq!(tables.descriptor(1), 0x00af_9b00_0000_ffff); // kernel code
    assert_eq!(tables.descriptor(2), 0x00cf_9300_0000_ffff); // kernel data
    assert_eq!(tables.descriptor(3), 0); // empty user slot
    assert_eq!(tables.descriptor(4), 0x00af_fb00_0000_ffff); // user code
    assert_eq!(tables.descriptor(5), 0x00cf_f300_0000_ffff); // user data
}

#[test]
fn tss_descriptor_encodes_the_base_address() {
    let base: u64 = 0x1122_3344_5566_7788;
    let tables = DescriptorTables::build(base);
    let low = tables.descriptor(6);
    let high = tables.descriptor(7);
    // Limit: the TSS size less one.
    assert_eq!(low & 0xffff, 0x67);
    // Base bits 0..24 at 16..40, bits 24..32 at 56..64.
    assert_eq!((low >> 16) & 0xff_ffff, 0x66_7788);
    assert_eq!(low >> 56, 0x55);
    // Type 0b1001 (available 64-bit TSS) and the present bit.
    assert_eq!((low >> 40) & 0xf, 0x9);
    assert_eq!((low >> 47) & 1, 1);
    // Base bits 32..64 in the high quadword.
    assert_eq!(high, 0x1122_3344);
}

#[test]
fn load_sequence_orders_table_code_data_task_register() {
    let tables = DescriptorTables::build(0x9000);
    let sels = tables.selectors();
    let steps = tables.load_sequence();
    assert_eq!(
        steps,
        vec![
            LoadStep::LoadTable,
            LoadStep::SetCs(sels.kcode()),
            LoadStep::SetDs(sels.kdata()),
            LoadStep::SetEs(sels.kdata()),
            LoadStep::SetFs(sels.kdata()),
            LoadStep::SetGs(sels.kdata()),
            LoadStep::SetSs(sels.kdata()),
            LoadStep::LoadTaskRegister(sels.tss()),
        ]
    );
    // The code-segment register receives the selector resolved at build
    // time, after the table and before the task register.
    assert_eq!(steps[1], LoadStep::SetCs(0x08));
}

#[test]
fn selectors_round_trip() {
    let s = SegSelectors::new(0x08, 0x10, 0x30);
    assert_eq!(s.kcode(), 0x08);
    assert_eq!(s.kdata(), 0x10);
    assert_eq!(s.tss(), 0x30);
}

#[test]
fn fault_stack_occupies_slot_zero() {
    let t = TaskState::with_fault_stack(0x44_0000);
    assert_eq!(t.ist_entry(DOUBLE_FAULT_IST_INDEX as usize), 0x44_0000 + STACK_SIZE);
    for i in 1..7 {
        assert_eq!(t.ist_entry(i), 0);
    }
}

#[test]
fn read_back_selectors_after_load() {
    // Build, load, read back: the active code-segment selector equals the
    // one build resolved, and the task register holds the TSS selector.
    let tables = DescriptorTables::build(0x3000);
    let mut regs = SegmentRegisters::reset();
    tables.load_into(&mut regs);
    assert!(regs.table_loaded);
    assert_eq!(regs.cs, tables.selectors().kcode());
    assert_eq!(regs.ds, tables.selectors().kdata());
    assert_eq!(regs.ss, tables.selectors().kdata());
    assert_eq!(regs.tr, tables.selectors().tss());
}
