//! Descriptor-table construction: the flat segment layout, the task state
//! with its dedicated double-fault stack, and the order in which the table
//! and the segment registers must be installed.
//!
//! The descriptor encoding is the wire protocol between this kernel and the
//! processor: every field (access byte, privilege level, present bit) must
//! match the architecture's layout exactly, since a malformed descriptor
//! triple-faults the machine with nothing left to observe it.

use vstd::prelude::*;

verus! {

/// Interrupt-stack-table slot reserved for the double-fault handler.
pub const DOUBLE_FAULT_IST_INDEX: u16 = 0;

/// Size in bytes of the dedicated double-fault stack region.
pub const STACK_SIZE: u64 = 4096 * 5;

/// Descriptor privilege level: bits 45 and 46 of a descriptor.
pub open spec fn descriptor_dpl(bits: u64) -> u64 {
    (bits >> 45) & 3
}

/// Selector for the descriptor at `index`, with the requested privilege as
/// its low two bits.
pub open spec fn spec_selector(index: u64, rpl: u64) -> u16 {
    (index * 8 + rpl) as u16
}

/// A descriptor is present when bit 47 is set.
pub open spec fn descriptor_present(bits: u64) -> bool {
    bits & (1u64 << 47) != 0
}

/// System descriptors (such as a TSS descriptor) have bit 44 clear;
/// code and data descriptors have it set.
pub open spec fn is_system_descriptor(bits: u64) -> bool {
    descriptor_present(bits) && bits & (1u64 << 44) == 0
}

/// Low quadword of the TSS descriptor for a task state at `base`: limit
/// 0x67 (the TSS size less one), base bits 0..24 at 16..40, type 0b1001
/// (available 64-bit TSS) at 40..44, present bit 47, base bits 24..32 at
/// 56..64.
pub open spec fn tss_descriptor_low(base: u64) -> u64 {
    0x67u64 | ((base & 0xff_ffff) << 16) | (0x9u64 << 40) | (1u64 << 47) | (((base >> 24)
        & 0xff) << 56)
}

/// High quadword of the TSS descriptor: base bits 32..64.
pub open spec fn tss_descriptor_high(base: u64) -> u64 {
    base >> 32
}

/// Relies on x86_64's `DescriptorFlags::KERNEL_CODE64` constant: the flat
/// 64-bit kernel code segment descriptor.
#[verifier::external_body]
fn kernel_code_descriptor() -> (bits: u64)
    ensures
        bits == 0x00af_9b00_0000_ffffu64,
{
    x86_64::structures::gdt::DescriptorFlags::KERNEL_CODE64.bits()
}

/// Relies on x86_64's `DescriptorFlags::KERNEL_DATA` constant: the flat
/// kernel data segment descriptor.
#[verifier::external_body]
fn kernel_data_descriptor() -> (bits: u64)
    ensures
        bits == 0x00cf_9300_0000_ffffu64,
{
    x86_64::structures::gdt::DescriptorFlags::KERNEL_DATA.bits()
}

/// Relies on x86_64's `DescriptorFlags::USER_CODE64` constant: the flat
/// 64-bit ring-3 code segment descriptor.
#[verifier::external_body]
fn user_code_descriptor() -> (bits: u64)
    ensures
        bits == 0x00af_fb00_0000_ffffu64,
{
    x86_64::structures::gdt::DescriptorFlags::USER_CODE64.bits()
}

/// Relies on x86_64's `DescriptorFlags::USER_DATA` constant: the flat
/// ring-3 data segment descriptor.
#[verifier::external_body]
fn user_data_descriptor() -> (bits: u64)
    ensures
        bits == 0x00cf_f300_0000_ffffu64,
{
    x86_64::structures::gdt::DescriptorFlags::USER_DATA.bits()
}

/// The selectors resolved once at build time: kernel code, kernel data and
/// the task-state selector. Immutable thereafter.
#[derive(Clone, Copy, PartialEq, Eq, Structural, Debug)]
pub struct SegSelectors {
    kcode: u16,
    kdata: u16,
    tss: u16,
}

impl SegSelectors {
    pub closed spec fn kcode_spec(&self) -> u16 {
        self.kcode
    }

    pub closed spec fn kdata_spec(&self) -> u16 {
        self.kdata
    }

    pub closed spec fn tss_spec(&self) -> u16 {
        self.tss
    }

    pub fn new(kcode: u16, kdata: u16, tss: u16) -> (s: Self)
        ensures
            s.kcode_spec() == kcode,
            s.kdata_spec() == kdata,
            s.tss_spec() == tss,
    {
        Self { kcode, kdata, tss }
    }

    pub fn kcode(&self) -> (r: u16)
        ensures
            r == self.kcode_spec(),
    {
        self.kcode
    }

    pub fn kdata(&self) -> (r: u16)
        ensures
            r == self.kdata_spec(),
    {
        self.kdata
    }

    pub fn tss(&self) -> (r: u16)
        ensures
            r == self.tss_spec(),
    {
        self.tss
    }
}

/// The task state: seven interrupt-stack-table slots, each the top address
/// of an alternate stack, with slot 0 reserved for the double-fault stack.
pub struct TaskState {
    ist: Vec<u64>,
}

impl TaskState {
    pub closed spec fn ist_spec(&self) -> Seq<u64> {
        self.ist@
    }

    /// A task state whose double-fault slot holds the top of the dedicated
    /// stack region starting at `stack_start`; the stack grows downward from
    /// there, so the recorded address is `stack_start + STACK_SIZE`.
    pub fn with_fault_stack(stack_start: u64) -> (t: TaskState)
        requires
            stack_start + STACK_SIZE <= u64::MAX,
        ensures
            t.ist_spec().len() == 7,
            t.ist_spec()[DOUBLE_FAULT_IST_INDEX as int] == stack_start + STACK_SIZE,
            forall|i: int| 0 < i < 7 ==> t.ist_spec()[i] == 0,
    {
        let mut ist: Vec<u64> = Vec::new();
        ist.push(stack_start + STACK_SIZE);
        ist.push(0);
        ist.push(0);
        ist.push(0);
        ist.push(0);
        ist.push(0);
        ist.push(0);
        TaskState { ist }
    }

    /// The recorded stack top for an interrupt-stack-table slot.
    pub fn ist_entry(&self, index: usize) -> (r: u64)
        requires
            index < self.ist_spec().len(),
        ensures
            r == self.ist_spec()[index as int],
    {
        self.ist[index]
    }
}

/// The segment descriptor table under construction: slot 0 is the null
/// descriptor; the table never exceeds the architecture's 8 slots.
pub struct GlobalDescriptorTable {
    table: Vec<u64>,
}

impl GlobalDescriptorTable {
    pub closed spec fn table_spec(&self) -> Seq<u64> {
        self.table@
    }

    /// An empty table holding only the null descriptor.
    pub fn new() -> (g: Self)
        ensures
            g.table_spec() =~= seq![0u64],
    {
        let mut table: Vec<u64> = Vec::new();
        table.push(0);
        GlobalDescriptorTable { table }
    }

    /// Appends a code or data descriptor, returning its selector with the
    /// descriptor's own privilege level as the requested privilege.
    pub fn add_entry(&mut self, bits: u64) -> (sel: u16)
        requires
            old(self).table_spec().len() < 8,
        ensures
            final(self).table_spec() == old(self).table_spec().push(bits),
            sel == spec_selector(old(self).table_spec().len() as u64, descriptor_dpl(bits)),
    {
        let index = self.table.len() as u64;
        self.table.push(bits);
        let dpl = (bits >> 45) & 3;
        assert((bits >> 45) & 3 < 4) by (bit_vector);
        (index * 8 + dpl) as u16
    }

    /// Appends the two quadwords of a system descriptor, returning the
    /// selector of its first slot.
    pub fn add_tss_entry(&mut self, low: u64, high: u64) -> (sel: u16)
        requires
            old(self).table_spec().len() <= 6,
        ensures
            final(self).table_spec() == old(self).table_spec().push(low).push(high),
            sel == spec_selector(old(self).table_spec().len() as u64, descriptor_dpl(low)),
    {
        let index = self.table.len() as u64;
        self.table.push(low);
        self.table.push(high);
        let dpl = (low >> 45) & 3;
        assert((low >> 45) & 3 < 4) by (bit_vector);
        (index * 8 + dpl) as u16
    }
}

/// The descriptor layout this kernel always builds: null, kernel code,
/// kernel data, an empty user slot, user code, user data, then the two
/// quadwords of the TSS descriptor for the task state at `tss_base`.
pub open spec fn spec_built_table(tss_base: u64) -> Seq<u64> {
    seq![
        0u64,
        0x00af_9b00_0000_ffffu64,
        0x00cf_9300_0000_ffffu64,
        0u64,
        0x00af_fb00_0000_ffffu64,
        0x00cf_f300_0000_ffffu64,
        tss_descriptor_low(tss_base),
        tss_descriptor_high(tss_base),
    ]
}

/// The built table with its resolved selectors, constructed exactly once at
/// boot and immutable afterwards.
pub struct DescriptorTables {
    gdt: GlobalDescriptorTable,
    selectors: SegSelectors,
}

/// One step of installing the tables into the processor. The table itself
/// must be installed before any selector referring to it is loaded, and the
/// task register last, because loading it requires the TSS descriptor to be
/// reachable through the freshly loaded table.
#[derive(Clone, Copy, PartialEq, Eq, Structural, Debug)]
pub enum LoadStep {
    LoadTable,
    SetCs(u16),
    SetDs(u16),
    SetEs(u16),
    SetFs(u16),
    SetGs(u16),
    SetSs(u16),
    LoadTaskRegister(u16),
}

impl DescriptorTables {
    pub closed spec fn table_spec(&self) -> Seq<u64> {
        self.gdt.table_spec()
    }

    pub closed spec fn selectors_spec(&self) -> SegSelectors {
        self.selectors
    }

    /// Builds the flat segment layout for the task state at `tss_base`.
    /// The kernel code selector is 0x08 (slot 1, ring 0), the kernel data
    /// selector 0x10 (slot 2, ring 0) and the TSS selector 0x30 (slot 6,
    /// ring 0).
    pub fn build(tss_base: u64) -> (r: DescriptorTables)
        ensures
            r.table_spec() =~= spec_built_table(tss_base),
            r.selectors_spec().kcode_spec() == 0x08,
            r.selectors_spec().kdata_spec() == 0x10,
            r.selectors_spec().tss_spec() == 0x30,
    {
        let mut gdt = GlobalDescriptorTable::new();
        let kcode = gdt.add_entry(kernel_code_descriptor());
        let kdata = gdt.add_entry(kernel_data_descriptor());
        gdt.add_entry(0);
        gdt.add_entry(user_code_descriptor());
        gdt.add_entry(user_data_descriptor());
        let low = tss_low(tss_base);
        let high = tss_high(tss_base);
        let tss = gdt.add_tss_entry(low, high);
        proof {
            assert((0x00af_9b00_0000_ffffu64 >> 45) & 3 == 0) by (bit_vector);
            assert((0x00cf_9300_0000_ffffu64 >> 45) & 3 == 0) by (bit_vector);
            assert(forall|b: u64| (tss_descriptor_low(b) >> 45) & 3 == 0) by (bit_vector);
        }
        DescriptorTables { gdt, selectors: SegSelectors::new(kcode, kdata, tss) }
    }

    /// The selectors resolved at build time.
    pub fn selectors(&self) -> (s: SegSelectors)
        ensures
            s == self.selectors_spec(),
    {
        self.selectors
    }

    /// The raw descriptor quadword at a slot, for the code that installs the
    /// table.
    pub fn descriptor(&self, index: usize) -> (r: u64)
        requires
            index < self.table_spec().len(),
        ensures
            r == self.table_spec()[index as int],
    {
        self.gdt.table[index]
    }

    /// Number of slots in use.
    pub fn len(&self) -> (n: usize)
        ensures
            n == self.table_spec().len(),
    {
        self.gdt.table.len()
    }

    /// The exact order in which the table and the registers are installed:
    /// the table first, then the code segment, then the data-like segments,
    /// and the task register last.
    pub fn load_sequence(&self) -> (steps: Vec<LoadStep>)
        ensures
            steps@ =~= seq![
                LoadStep::LoadTable,
                LoadStep::SetCs(self.selectors_spec().kcode_spec()),
                LoadStep::SetDs(self.selectors_spec().kdata_spec()),
                LoadStep::SetEs(self.selectors_spec().kdata_spec()),
                LoadStep::SetFs(self.selectors_spec().kdata_spec()),
                LoadStep::SetGs(self.selectors_spec().kdata_spec()),
                LoadStep::SetSs(self.selectors_spec().kdata_spec()),
                LoadStep::LoadTaskRegister(self.selectors_spec().tss_spec()),
            ],
    {
        let mut steps: Vec<LoadStep> = Vec::new();
        steps.push(LoadStep::LoadTable);
        steps.push(LoadStep::SetCs(self.selectors.kcode));
        steps.push(LoadStep::SetDs(self.selectors.kdata));
        steps.push(LoadStep::SetEs(self.selectors.kdata));
        steps.push(LoadStep::SetFs(self.selectors.kdata));
        steps.push(LoadStep::SetGs(self.selectors.kdata));
        steps.push(LoadStep::SetSs(self.selectors.kdata));
        steps.push(LoadStep::LoadTaskRegister(self.selectors.tss));
        steps
    }
}


/// The processor's segment-register file as the load sequence drives it:
/// the model against which "read back the active selector" is stated.
#[derive(Clone, Copy, PartialEq, Eq, Structural, Debug)]
pub struct SegmentRegisters {
    pub table_loaded: bool,
    pub cs: u16,
    pub ds: u16,
    pub es: u16,
    pub fs: u16,
    pub gs: u16,
    pub ss: u16,
    pub tr: u16,
}

impl SegmentRegisters {
    /// The register file before any load: nothing installed.
    pub fn reset() -> (r: Self)
        ensures
            !r.table_loaded,
            r.cs == 0 && r.ds == 0 && r.es == 0 && r.fs == 0 && r.gs == 0 && r.ss == 0
                && r.tr == 0,
    {
        SegmentRegisters {
            table_loaded: false,
            cs: 0,
            ds: 0,
            es: 0,
            fs: 0,
            gs: 0,
            ss: 0,
            tr: 0,
        }
    }

    /// The register file after one load step.
    pub open spec fn spec_apply(self, step: LoadStep) -> SegmentRegisters {
        match step {
            LoadStep::LoadTable => SegmentRegisters { table_loaded: true, ..self },
            LoadStep::SetCs(sel) => SegmentRegisters { cs: sel, ..self },
            LoadStep::SetDs(sel) => SegmentRegisters { ds: sel, ..self },
            LoadStep::SetEs(sel) => SegmentRegisters { es: sel, ..self },
            LoadStep::SetFs(sel) => SegmentRegisters { fs: sel, ..self },
            LoadStep::SetGs(sel) => SegmentRegisters { gs: sel, ..self },
            LoadStep::SetSs(sel) => SegmentRegisters { ss: sel, ..self },
            LoadStep::LoadTaskRegister(sel) => SegmentRegisters { tr: sel, ..self },
        }
    }

    /// Performs one load step on the register file.
    pub fn apply(&mut self, step: LoadStep)
        ensures
            *final(self) == old(self).spec_apply(step),
    {
        match step {
            LoadStep::LoadTable => self.table_loaded = true,
            LoadStep::SetCs(sel) => self.cs = sel,
            LoadStep::SetDs(sel) => self.ds = sel,
            LoadStep::SetEs(sel) => self.es = sel,
            LoadStep::SetFs(sel) => self.fs = sel,
            LoadStep::SetGs(sel) => self.gs = sel,
            LoadStep::SetSs(sel) => self.ss = sel,
            LoadStep::LoadTaskRegister(sel) => self.tr = sel,
        }
    }
}

impl DescriptorTables {
    /// Executes the load sequence on a register file. Afterwards the
    /// active code-segment selector read back from the file equals exactly
    /// the code selector resolved at build time, the data-like registers
    /// the data selector, and the task register the TSS selector — and the
    /// table was installed before any of them.
    pub fn load_into(&self, regs: &mut SegmentRegisters)
        ensures
            final(regs).table_loaded,
            final(regs).cs == self.selectors_spec().kcode_spec(),
            final(regs).ds == self.selectors_spec().kdata_spec(),
            final(regs).es == self.selectors_spec().kdata_spec(),
            final(regs).fs == self.selectors_spec().kdata_spec(),
            final(regs).gs == self.selectors_spec().kdata_spec(),
            final(regs).ss == self.selectors_spec().kdata_spec(),
            final(regs).tr == self.selectors_spec().tss_spec(),
    {
        let steps = self.load_sequence();
        regs.apply(steps[0]);
        regs.apply(steps[1]);
        regs.apply(steps[2]);
        regs.apply(steps[3]);
        regs.apply(steps[4]);
        regs.apply(steps[5]);
        regs.apply(steps[6]);
        regs.apply(steps[7]);
    }
}

fn tss_low(base: u64) -> (r: u64)
    ensures
        r == tss_descriptor_low(base),
{
    0x67u64 | ((base & 0xff_ffff) << 16) | (0x9u64 << 40) | (1u64 << 47) | (((base >> 24)
        & 0xff) << 56)
}

fn tss_high(base: u64) -> (r: u64)
    ensures
        r == tss_descriptor_high(base),
{
    base >> 32
}

/// The built table holds exactly one TSS descriptor (one present system
/// descriptor), and the TSS selector returned by build addresses exactly
/// that slot.
pub proof fn lemma_single_tss_descriptor(tss_base: u64)
    ensures
        forall|i: int|
            0 <= i < spec_built_table(tss_base).len()
                ==> (is_system_descriptor(#[trigger] spec_built_table(tss_base)[i]) <==> i == 6),
        0x30u16 / 8 == 6,
{
    assert(!is_system_descriptor(0u64)) by (bit_vector);
    assert(!is_system_descriptor(0x00af_9b00_0000_ffffu64)) by (bit_vector);
    assert(!is_system_descriptor(0x00cf_9300_0000_ffffu64)) by (bit_vector);
    assert(!is_system_descriptor(0x00af_fb00_0000_ffffu64)) by (bit_vector);
    assert(!is_system_descriptor(0x00cf_f300_0000_ffffu64)) by (bit_vector);
    assert(forall|b: u64| is_system_descriptor(tss_descriptor_low(b))) by (bit_vector);
    assert(forall|b: u64| !is_system_descriptor(tss_descriptor_high(b))) by (bit_vector);
}

/// In the load sequence of built descriptor tables, the code-segment
/// register receives exactly the selector resolved at build time: one SetCs
/// step exists, it carries the built kernel code selector, it comes after
/// the table is installed and before the task register is loaded.
pub proof fn lemma_load_installs_built_code_selector(t: &DescriptorTables, steps: Seq<LoadStep>)
    requires
        steps =~= seq![
            LoadStep::LoadTable,
            LoadStep::SetCs(t.selectors_spec().kcode_spec()),
            LoadStep::SetDs(t.selectors_spec().kdata_spec()),
            LoadStep::SetEs(t.selectors_spec().kdata_spec()),
            LoadStep::SetFs(t.selectors_spec().kdata_spec()),
            LoadStep::SetGs(t.selectors_spec().kdata_spec()),
            LoadStep::SetSs(t.selectors_spec().kdata_spec()),
            LoadStep::LoadTaskRegister(t.selectors_spec().tss_spec()),
        ],
    ensures
        steps[1] == LoadStep::SetCs(t.selectors_spec().kcode_spec()),
        forall|i: int| 0 <= i < steps.len() && steps[i] is SetCs ==> i == 1,
        steps[0] is LoadTable,
        steps[steps.len() - 1] is LoadTaskRegister,
{
    assert forall|i: int| 0 <= i < steps.len() && steps[i] is SetCs implies i == 1 by {
        if i != 1 {
            assert(!(steps[i] is SetCs));
        }
    }
}

} // verus!
