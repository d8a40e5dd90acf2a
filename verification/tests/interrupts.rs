use kernel::ints::{
    breakpoint_h, decode_page_fault_code, dispatch, double_fault_h, init, keyboard_h,
    page_fault_h, timer_h, DispatchResult, Disposition, HandlerKind, IntIndex,
    InterruptVectorTable, KernelState, KeyInput, PicController, TrapEvent, TrapFrame,
    VectorEntry, BREAKPOINT_VECTOR, DOUBLE_FAULT_VECTOR, PAGE_FAULT_VECTOR, PIC_1_OFFSET,
    PIC_2_OFFSET,
};

fn frame() -> TrapFrame {
    TrapFrame {
        instruction_pointer: 0x1000,
        code_segment: 0x08,
        cpu_flags: 0x202,
        stack_pointer: 0x7000,
        stack_segment: 0x10,
    }
}

#[test]
fn init_binds_exactly_the_required_vectors() {
    let table = init();
    assert_eq!(
        table.entry(BREAKPOINT_VECTOR),
        VectorEntry::Bound { handler: HandlerKind::Breakpoint, ist_index: None }
    );
    assert_eq!(
        table.entry(DOUBLE_FAULT_VECTOR),
        VectorEntry::Bound { handler: HandlerKind::DoubleFault, ist_index: Some(0) }
    );
    assert_eq!(
        table.entry(PAGE_FAULT_VECTOR),
        VectorEntry::Bound { handler: HandlerKind::PageFault, ist_index: None }
    );
    assert_eq!(
        table.entry(IntIndex::Timer.vector()),
        VectorEntry::Bound { handler: HandlerKind::Timer, ist_index: None }
    );
    assert_eq!(
        table.entry(IntIndex::Keyboard.vector()),
        VectorEntry::Bound { handler: HandlerKind::Keyboard, ist_index: None }
    );
    for v in 0..=255u8 {
        if v != BREAKPOINT_VECTOR && v != DOUBLE_FAULT_VECTOR && v != PAGE_FAULT_VECTOR && v
            != IntIndex::Timer.vector() && v != IntIndex::Keyboard.vector()
        {
            assert!(!table.is_bound(v));
        }
    }
}

#[test]
fn sparse_table_reports_every_other_vector_unbound() {
    // Only breakpoint, double fault and timer bound: no accidental handler
    // leakage onto any other vector.
    let mut table = InterruptVectorTable::new();
    table.bind(BREAKPOINT_VECTOR, HandlerKind::Breakpoint, None);
    table.bind(DOUBLE_FAULT_VECTOR, HandlerKind::DoubleFault, Some(0));
    table.bind(IntIndex::Timer.vector(), HandlerKind::Timer, None);
    for v in 0..=255u8 {
        let expect_bound =
            v == BREAKPOINT_VECTOR || v == DOUBLE_FAULT_VECTOR || v == IntIndex::Timer.vector();
        assert_eq!(table.is_bound(v), expect_bound);
    }
    // Dispatching on the unbound keyboard vector reports it unbound and
    // runs nothing.
    let mut state = KernelState::new();
    let r = dispatch(&mut state, &table, TrapEvent::Keyboard(frame(), 0x1e));
    assert!(matches!(r, DispatchResult::Unbound(v) if v == IntIndex::Keyboard.vector()));
    assert_eq!(state.get_ticks(), 0);
    assert_eq!(state.pics().eoi_count(IntIndex::Keyboard.vector()), 0);
}

#[test]
fn timer_increments_ticks_and_acknowledges_once_per_delivery() {
    let mut state = KernelState::new();
    let n = 25u128;
    for _ in 0..n {
        let d = timer_h(&mut state, &frame());
        assert_eq!(d, Disposition::Resume);
    }
    assert_eq!(state.get_ticks(), n);
    assert_eq!(state.pics().eoi_count(IntIndex::Timer.vector()), n as u64);
    assert_eq!(state.pics().eoi_count(IntIndex::Keyboard.vector()), 0);
}

#[test]
fn breakpoint_resumes_and_leaves_ticks_alone() {
    let mut state = KernelState::new();
    timer_h(&mut state, &frame());
    let before = state.get_ticks();
    let d = breakpoint_h(&mut state, &frame());
    assert_eq!(d, Disposition::Resume);
    assert_eq!(state.get_ticks(), before);
    assert_eq!(state.pics().eoi_count(IntIndex::Timer.vector()), 1);
}

#[test]
fn double_fault_is_fatal() {
    let mut state = KernelState::new();
    let d = double_fault_h(&mut state, &frame(), 0);
    assert_eq!(d, Disposition::Fatal);
    assert_eq!(state.get_ticks(), 0);
}

#[test]
fn page_fault_halts_and_decodes_the_violation() {
    let mut state = KernelState::new();
    let (d, info) = page_fault_h(&mut state, &frame(), 0b00011, 0xdead_beef);
    assert_eq!(d, Disposition::Halt);
    assert!(info.protection_violation);
    assert!(info.caused_by_write);
    assert!(!info.user_mode);
    assert!(!info.malformed_table);
    assert!(!info.instruction_fetch);
    let all = decode_page_fault_code(0b10100);
    assert!(!all.protection_violation);
    assert!(!all.caused_by_write);
    assert!(all.user_mode);
    assert!(!all.malformed_table);
    assert!(all.instruction_fetch);
}

#[test]
fn keyboard_decodes_a_press_and_always_acknowledges() {
    let mut state = KernelState::new();
    // Scancode set 1: 0x1e is the 'a' key going down.
    let (d, key) = keyboard_h(&mut state, &frame(), 0x1e);
    assert_eq!(d, Disposition::Resume);
    assert!(matches!(key, Some(KeyInput::Unicode('a'))));
    // The release byte decodes to no printable input, but the line is
    // acknowledged on that path too.
    let (d2, key2) = keyboard_h(&mut state, &frame(), 0x9e);
    assert_eq!(d2, Disposition::Resume);
    assert!(key2.is_none());
    assert_eq!(state.pics().eoi_count(IntIndex::Keyboard.vector()), 2);
    assert_eq!(state.get_ticks(), 0);
}

#[test]
fn dispatch_runs_the_bound_handlers() {
    let table = init();
    let mut state = KernelState::new();
    let r = dispatch(&mut state, &table, TrapEvent::Timer(frame()));
    assert!(matches!(r, DispatchResult::Handled(Disposition::Resume, None, None)));
    assert_eq!(state.get_ticks(), 1);
    let r = dispatch(&mut state, &table, TrapEvent::Breakpoint(frame()));
    assert!(matches!(r, DispatchResult::Handled(Disposition::Resume, None, None)));
    assert_eq!(state.get_ticks(), 1);
    let r = dispatch(&mut state, &table, TrapEvent::PageFault(frame(), 0b100, 0x40));
    match r {
        DispatchResult::Handled(d, key, Some(info)) => {
            assert_eq!(d, Disposition::Halt);
            assert!(key.is_none());
            assert!(info.user_mode);
        },
        other => panic!("unexpected dispatch result: {:?}", other),
    }
    let r = dispatch(&mut state, &table, TrapEvent::DoubleFault(frame(), 0));
    assert!(matches!(r, DispatchResult::Handled(Disposition::Fatal, None, None)));
    let r = dispatch(&mut state, &table, TrapEvent::Keyboard(frame(), 0x1e));
    assert!(matches!(
        r,
        DispatchResult::Handled(Disposition::Resume, Some(KeyInput::Unicode('a')), None)
    ));
    assert_eq!(state.pics().eoi_count(IntIndex::Timer.vector()), 1);
    assert_eq!(state.pics().eoi_count(IntIndex::Keyboard.vector()), 1);
}

#[test]
fn controller_owns_its_sixteen_vectors() {
    let mut pics = PicController::new(PIC_1_OFFSET, PIC_2_OFFSET);
    assert!(!pics.handles_interrupt(31));
    assert!(pics.handles_interrupt(32));
    assert!(pics.handles_interrupt(39));
    assert!(pics.handles_interrupt(40));
    assert!(pics.handles_interrupt(47));
    assert!(!pics.handles_interrupt(48));
    // An end-of-interrupt for a vector neither controller owns is ignored.
    pics.notify_end_of_interrupt(5);
    assert_eq!(pics.eoi_count(5), 0);
    pics.notify_end_of_interrupt(44);
    assert_eq!(pics.eoi_count(44), 1);
    pics.initialize();
    assert_eq!(pics.eoi_count(44), 1);
}

#[test]
fn only_the_handled_lines_are_unmasked() {
    let mut pics = PicController::new(PIC_1_OFFSET, PIC_2_OFFSET);
    assert!(!pics.is_unmasked(IntIndex::Timer.vector()));
    pics.unmask(IntIndex::Timer.vector());
    assert!(pics.is_unmasked(IntIndex::Timer.vector()));
    assert!(!pics.is_unmasked(IntIndex::Keyboard.vector()));

    // Boot-time initialization unmasks exactly the timer and the keyboard.
    let mut state = KernelState::new();
    state.initialize_pics();
    for v in 0..=255u8 {
        let expect = v == IntIndex::Timer.vector() || v == IntIndex::Keyboard.vector();
        assert_eq!(state.pics().is_unmasked(v), expect);
    }
}
