use kernel::boot::{boot_plan, BootStep};
use kernel::monitor::RgbColor;
use kernel::test_runner::{eq_assertion, memory_allocation_vectors};

#[test]
fn boot_plan_installs_tables_before_enabling_interrupts() {
    let steps = boot_plan();
    assert_eq!(
        steps,
        vec![
            BootStep::SetupMonitor,
            BootStep::LoadDescriptorTables,
            BootStep::LoadVectorTable,
            BootStep::InitializeController,
            BootStep::EnableInterrupts,
            BootStep::ActivatePaging,
            BootStep::CreateFrameAllocator,
            BootStep::PageHeap,
        ]
    );
    let enable = steps.iter().position(|s| *s == BootStep::EnableInterrupts).unwrap();
    for installing in [
        BootStep::LoadDescriptorTables,
        BootStep::LoadVectorTable,
        BootStep::InitializeController,
    ] {
        let at = steps.iter().position(|s| *s == installing).unwrap();
        assert!(at < enable);
    }
}

#[test]
fn colors_pack_into_pixel_byte_order() {
    let c = RgbColor::new(10, 20, 30);
    assert_eq!(c.r, 10);
    assert_eq!(c.g, 20);
    assert_eq!(c.b, 30);
    assert_eq!(c.into_array(), [10, 20, 30, 0]);
    assert_eq!(c.into_reversed_array(), [30, 20, 10, 0]);
}

#[test]
fn self_checks_run() {
    eq_assertion();
    memory_allocation_vectors();
}
