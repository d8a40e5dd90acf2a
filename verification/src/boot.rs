//! The boot sequence.
//!
//! Bringing the machine up is a fixed order of stages, and the order is a
//! correctness requirement: the descriptor tables and the vector table must
//! be installed, and the controllers remapped, before the interrupt-enable
//! flag is set, or an early interrupt hits an unhandled vector. The plan is
//! produced here with that order pinned down; the privileged code outside
//! the core executes it step by step.

use vstd::prelude::*;

verus! {

/// One stage of bringing the machine up.
#[derive(Clone, Copy, PartialEq, Eq, Structural, Debug)]
pub enum BootStep {
    /// Wire the console and serial sinks.
    SetupMonitor,
    /// Build the GDT and TSS, install them and load the segment registers.
    LoadDescriptorTables,
    /// Build and install the interrupt vector table.
    LoadVectorTable,
    /// Remap and unmask the interrupt controllers.
    InitializeController,
    /// Set the interrupt-enable flag.
    EnableInterrupts,
    /// Locate the active level-4 table and build the offset-mapped view.
    ActivatePaging,
    /// Build the frame allocator over the firmware memory map.
    CreateFrameAllocator,
    /// Page the heap region using translation and frame allocation.
    PageHeap,
}

/// The order in which the kernel boots.
pub open spec fn spec_boot_plan() -> Seq<BootStep> {
    seq![
        BootStep::SetupMonitor,
        BootStep::LoadDescriptorTables,
        BootStep::LoadVectorTable,
        BootStep::InitializeController,
        BootStep::EnableInterrupts,
        BootStep::ActivatePaging,
        BootStep::CreateFrameAllocator,
        BootStep::PageHeap,
    ]
}

/// The fixed boot order: console first, then tables, controller, interrupt
/// enable, and only then paging, the allocator and the heap.
pub fn boot_plan() -> (steps: Vec<BootStep>)
    ensures
        steps@ =~= spec_boot_plan(),
{
    let mut steps: Vec<BootStep> = Vec::new();
    steps.push(BootStep::SetupMonitor);
    steps.push(BootStep::LoadDescriptorTables);
    steps.push(BootStep::LoadVectorTable);
    steps.push(BootStep::InitializeController);
    steps.push(BootStep::EnableInterrupts);
    steps.push(BootStep::ActivatePaging);
    steps.push(BootStep::CreateFrameAllocator);
    steps.push(BootStep::PageHeap);
    steps
}

/// Handler installation completes before interrupts are enabled: every
/// table-installing or controller step of the plan comes strictly before
/// the step that sets the interrupt-enable flag.
pub proof fn lemma_tables_before_interrupts()
    ensures
        forall|i: int, j: int|
            0 <= i < spec_boot_plan().len() && 0 <= j < spec_boot_plan().len() && (
            #[trigger] spec_boot_plan()[i]) is EnableInterrupts && ((
            #[trigger] spec_boot_plan()[j]) is LoadDescriptorTables || spec_boot_plan()[j]
                is LoadVectorTable || spec_boot_plan()[j] is InitializeController) ==> j < i,
{
}

} // verus!
