//! The interrupt vector table, the trap dispatcher and the interrupt
//! controller model.
//!
//! Exceptions and hardware interrupts are modelled as events delivered to
//! handler functions over an explicit kernel state: the tick counter, the
//! chained-controller record and the scancode decoder. Each handler's
//! contract pins down its disposition (resume, park in the idle loop, or
//! never return) and its exact effect on the state — in particular that
//! every hardware-interrupt handler signals end-of-interrupt exactly once,
//! on every path, before returning.

use vstd::prelude::*;
use crate::gdt::DOUBLE_FAULT_IST_INDEX;

verus! {

/// Vector at which the first controller's eight lines start, directly above
/// the processor's reserved exception vectors.
pub const PIC_1_OFFSET: u8 = 32;

/// Vector at which the second controller's eight lines start.
pub const PIC_2_OFFSET: u8 = PIC_1_OFFSET + 8;

/// I/O port from which the keyboard scancode byte is read.
pub const KEYBOARD_PORT: u16 = 0x60;

/// Vector of the breakpoint exception.
pub const BREAKPOINT_VECTOR: u8 = 3;

/// Vector of the double-fault exception.
pub const DOUBLE_FAULT_VECTOR: u8 = 8;

/// Vector of the page-fault exception.
pub const PAGE_FAULT_VECTOR: u8 = 14;

/// The hardware interrupt lines this kernel unmasks, named by their vector.
#[derive(Clone, Copy, PartialEq, Eq, PartialOrd, Ord, Structural, Debug)]
pub enum IntIndex {
    Timer,
    Keyboard,
}

impl IntIndex {
    /// CPU vector this line is remapped to.
    pub open spec fn vector_spec(self) -> u8 {
        match self {
            IntIndex::Timer => PIC_1_OFFSET,
            IntIndex::Keyboard => (PIC_1_OFFSET + 1) as u8,
        }
    }

    /// CPU vector this line is remapped to.
    pub fn vector(self) -> (v: u8)
        ensures
            v == self.vector_spec(),
    {
        match self {
            IntIndex::Timer => PIC_1_OFFSET,
            IntIndex::Keyboard => PIC_1_OFFSET + 1,
        }
    }
}

/// A 64-bit acknowledgement counter counts up, saturating at the top of
/// its range.
pub open spec fn sat_inc64(c: u64) -> u64 {
    if c == u64::MAX {
        c
    } else {
        (c + 1) as u64
    }
}

/// Model of the chained pair of legacy interrupt controllers: the two
/// vector-range offsets, which lines have been unmasked, and one
/// acknowledgement counter per line. The port program that actually remaps
/// and acknowledges the hardware runs outside the verified core and mirrors
/// exactly what this record says; handlers prove their acknowledgement
/// discipline against it.
pub struct PicController {
    master_offset: u8,
    slave_offset: u8,
    initialized: bool,
    unmasked: Vec<u8>,
    eoi_counts: Vec<u64>,
}

impl PicController {
    pub closed spec fn master_offset_spec(&self) -> u8 {
        self.master_offset
    }

    pub closed spec fn slave_offset_spec(&self) -> u8 {
        self.slave_offset
    }

    pub closed spec fn initialized_spec(&self) -> bool {
        self.initialized
    }

    /// The vectors whose interrupt lines have been unmasked.
    pub closed spec fn unmasked_spec(&self) -> Seq<u8> {
        self.unmasked@
    }

    /// End-of-interrupt counters, one per line: the first controller's
    /// eight lines at 0..8, the second's at 8..16.
    pub closed spec fn eoi_counts_spec(&self) -> Seq<u64> {
        self.eoi_counts@
    }

    /// One counter per line of the two controllers.
    pub open spec fn wf(&self) -> bool {
        self.eoi_counts_spec().len() == 16
    }

    /// Whether one of the two controllers owns this vector.
    pub open spec fn spec_handles(&self, vector: u8) -> bool {
        (self.master_offset_spec() <= vector < self.master_offset_spec() + 8) || (
        self.slave_offset_spec() <= vector < self.slave_offset_spec() + 8)
    }

    /// The counter slot a handled vector maps to.
    pub open spec fn line_index(&self, vector: u8) -> int {
        if self.master_offset_spec() <= vector < self.master_offset_spec() + 8 {
            vector - self.master_offset_spec()
        } else {
            8 + (vector - self.slave_offset_spec())
        }
    }

    /// End-of-interrupts recorded so far for a vector; zero for a vector
    /// neither controller owns.
    pub open spec fn spec_eoi_count(&self, vector: u8) -> u64 {
        if self.spec_handles(vector) {
            self.eoi_counts_spec()[self.line_index(vector)]
        } else {
            0
        }
    }

    /// A controller pair whose lines sit at the two given vector offsets:
    /// not yet remapped, every line still masked, nothing acknowledged.
    pub fn new(master_offset: u8, slave_offset: u8) -> (p: Self)
        ensures
            p.wf(),
            p.master_offset_spec() == master_offset,
            p.slave_offset_spec() == slave_offset,
            !p.initialized_spec(),
            p.unmasked_spec() =~= Seq::<u8>::empty(),
            forall|v: u8| p.spec_eoi_count(v) == 0,
    {
        let mut eoi_counts: Vec<u64> = Vec::new();
        let mut i: usize = 0;
        while i < 16
            invariant
                i <= 16,
                eoi_counts@.len() == i,
                forall|j: int| 0 <= j < i ==> eoi_counts@[j] == 0,
            decreases 16 - i,
        {
            eoi_counts.push(0);
            i = i + 1;
        }
        PicController {
            master_offset,
            slave_offset,
            initialized: false,
            unmasked: Vec::new(),
            eoi_counts,
        }
    }

    /// Remaps both controllers to their configured offsets. Must happen
    /// before interrupts are enabled; the handled lines are unmasked
    /// separately, one by one.
    pub fn initialize(&mut self)
        ensures
            final(self).initialized_spec(),
            final(self).master_offset_spec() == old(self).master_offset_spec(),
            final(self).slave_offset_spec() == old(self).slave_offset_spec(),
            final(self).unmasked_spec() == old(self).unmasked_spec(),
            final(self).eoi_counts_spec() == old(self).eoi_counts_spec(),
    {
        self.initialized = true;
    }

    /// Unmasks one line, recording its vector: the controller delivers
    /// interrupts only on unmasked lines.
    pub fn unmask(&mut self, vector: u8)
        ensures
            final(self).master_offset_spec() == old(self).master_offset_spec(),
            final(self).slave_offset_spec() == old(self).slave_offset_spec(),
            final(self).initialized_spec() == old(self).initialized_spec(),
            final(self).eoi_counts_spec() == old(self).eoi_counts_spec(),
            final(self).unmasked_spec() =~= old(self).unmasked_spec().push(vector),
    {
        self.unmasked.push(vector);
    }

    /// Whether a line's vector has been unmasked.
    pub fn is_unmasked(&self, vector: u8) -> (r: bool)
        ensures
            r == self.unmasked_spec().contains(vector),
    {
        let mut i: usize = 0;
        while i < self.unmasked.len()
            invariant
                i <= self.unmasked_spec().len(),
                forall|j: int| 0 <= j < i ==> self.unmasked_spec()[j] != vector,
            decreases self.unmasked_spec().len() - i,
        {
            if self.unmasked[i] == vector {
                return true;
            }
            i = i + 1;
        }
        false
    }

    /// Whether one of the two controllers owns this vector.
    pub fn handles_interrupt(&self, vector: u8) -> (r: bool)
        ensures
            r == self.spec_handles(vector),
    {
        (vector >= self.master_offset && vector - self.master_offset < 8) || (vector
            >= self.slave_offset && vector - self.slave_offset < 8)
    }

    /// Records the end-of-interrupt for a vector one of the controllers
    /// owns, stepping that line's counter; a vector neither owns is
    /// ignored, as the hardware ignores it. No allocation: the counters
    /// are fixed at construction, as an interrupt path requires.
    pub fn notify_end_of_interrupt(&mut self, vector: u8)
        requires
            old(self).wf(),
        ensures
            final(self).wf(),
            final(self).master_offset_spec() == old(self).master_offset_spec(),
            final(self).slave_offset_spec() == old(self).slave_offset_spec(),
            final(self).initialized_spec() == old(self).initialized_spec(),
            final(self).unmasked_spec() == old(self).unmasked_spec(),
            old(self).spec_handles(vector) ==> final(self).eoi_counts_spec() =~= old(
                self,
            ).eoi_counts_spec().update(
                old(self).line_index(vector),
                sat_inc64(old(self).eoi_counts_spec()[old(self).line_index(vector)]),
            ),
            !old(self).spec_handles(vector) ==> final(self).eoi_counts_spec() == old(
                self,
            ).eoi_counts_spec(),
    {
        if vector >= self.master_offset && vector - self.master_offset < 8 {
            let i = (vector - self.master_offset) as usize;
            let c = self.eoi_counts[i];
            if c < u64::MAX {
                self.eoi_counts.set(i, c + 1);
            }
        } else if vector >= self.slave_offset && vector - self.slave_offset < 8 {
            let i = 8 + (vector - self.slave_offset) as usize;
            let c = self.eoi_counts[i];
            if c < u64::MAX {
                self.eoi_counts.set(i, c + 1);
            }
        }
    }

    /// End-of-interrupts recorded for a vector; zero for one neither
    /// controller owns.
    pub fn eoi_count(&self, vector: u8) -> (n: u64)
        requires
            self.wf(),
        ensures
            n == self.spec_eoi_count(vector),
    {
        if vector >= self.master_offset && vector - self.master_offset < 8 {
            self.eoi_counts[(vector - self.master_offset) as usize]
        } else if vector >= self.slave_offset && vector - self.slave_offset < 8 {
            self.eoi_counts[8 + (vector - self.slave_offset) as usize]
        } else {
            0
        }
    }
}

/// Snapshot the processor saves when a trap fires, as the handler sees it.
#[derive(Clone, Copy, PartialEq, Eq, Structural, Debug)]
pub struct TrapFrame {
    pub instruction_pointer: u64,
    pub code_segment: u64,
    pub cpu_flags: u64,
    pub stack_pointer: u64,
    pub stack_segment: u64,
}

/// How a handler leaves the machine.
#[derive(Clone, Copy, PartialEq, Eq, Structural, Debug)]
pub enum Disposition {
    /// Non-fatal: execution resumes at the interrupted instruction.
    Resume,
    /// Degraded but alive: the faulting context is parked in the idle loop,
    /// while interrupts keep being serviced.
    Halt,
    /// Unrecoverable: the machine halts or panics and never resumes.
    Fatal,
}

/// The access-violation error code of a page fault, decoded bit by bit.
#[derive(Clone, Copy, PartialEq, Eq, Structural, Debug)]
pub struct PageFaultInfo {
    pub protection_violation: bool,
    pub caused_by_write: bool,
    pub user_mode: bool,
    pub malformed_table: bool,
    pub instruction_fetch: bool,
}

/// The decoding of a page-fault error code.
pub open spec fn spec_decode_page_fault(code: u64) -> PageFaultInfo {
    PageFaultInfo {
        protection_violation: code & 1 != 0,
        caused_by_write: code & 2 != 0,
        user_mode: code & 4 != 0,
        malformed_table: code & 8 != 0,
        instruction_fetch: code & 16 != 0,
    }
}

/// Decodes the access-violation error code the processor pushes with a
/// page fault.
pub fn decode_page_fault_code(code: u64) -> (r: PageFaultInfo)
    ensures
        r == spec_decode_page_fault(code),
{
    PageFaultInfo {
        protection_violation: code & 1 != 0,
        caused_by_write: code & 2 != 0,
        user_mode: code & 4 != 0,
        malformed_table: code & 8 != 0,
        instruction_fetch: code & 16 != 0,
    }
}

/// Tick value after one timer interrupt: the counter only ever counts up,
/// saturating at the top of its 128-bit range.
pub open spec fn sat_inc(t: u128) -> u128 {
    if t == u128::MAX {
        t
    } else {
        (t + 1) as u128
    }
}

/// The kernel's interrupt-time state, owned as one explicit value with a
/// defined initialization point rather than as ambient globals: the
/// monotonic tick counter and the controller record.
pub struct KernelState {
    ticks: u128,
    pics: PicController,
    keyboard: ScancodeDecoder,
}

impl KernelState {
    /// Ticks counted since interrupts were enabled.
    pub closed spec fn ticks_spec(&self) -> u128 {
        self.ticks
    }

    pub closed spec fn pics_spec(&self) -> PicController {
        self.pics
    }

    pub closed spec fn keyboard_spec(&self) -> ScancodeDecoder {
        self.keyboard
    }

    /// The controllers sit at the kernel's fixed offsets, one counter per
    /// line.
    pub open spec fn wf(&self) -> bool {
        self.pics_spec().wf() && self.pics_spec().master_offset_spec() == PIC_1_OFFSET
            && self.pics_spec().slave_offset_spec() == PIC_2_OFFSET
    }

    /// Fresh boot-time state: zero ticks, controllers at the kernel's
    /// offsets, nothing acknowledged yet.
    pub fn new() -> (s: Self)
        ensures
            s.wf(),
            s.ticks_spec() == 0,
            !s.pics_spec().initialized_spec(),
            s.pics_spec().unmasked_spec() =~= Seq::<u8>::empty(),
            forall|v: u8| s.pics_spec().spec_eoi_count(v) == 0,
    {
        KernelState {
            ticks: 0,
            pics: PicController::new(PIC_1_OFFSET, PIC_2_OFFSET),
            keyboard: new_keyboard(),
        }
    }

    /// Monotonic tick count; readable from any context, written only by the
    /// timer handler.
    pub fn get_ticks(&self) -> (t: u128)
        ensures
            t == self.ticks_spec(),
    {
        self.ticks
    }

    /// The controller record, for inspection.
    pub fn pics(&self) -> (r: &PicController)
        ensures
            r == self.pics_spec(),
    {
        &self.pics
    }

    /// Remaps the controllers and unmasks exactly the lines this kernel
    /// handles — the timer and the keyboard — leaving every other line
    /// masked. Part of the boot sequence, before interrupts are enabled.
    pub fn initialize_pics(&mut self)
        ensures
            final(self).wf() == old(self).wf(),
            final(self).ticks_spec() == old(self).ticks_spec(),
            final(self).pics_spec().initialized_spec(),
            final(self).pics_spec().master_offset_spec() == old(
                self,
            ).pics_spec().master_offset_spec(),
            final(self).pics_spec().slave_offset_spec() == old(
                self,
            ).pics_spec().slave_offset_spec(),
            final(self).pics_spec().eoi_counts_spec() == old(self).pics_spec().eoi_counts_spec(),
            final(self).pics_spec().unmasked_spec() =~= old(
                self,
            ).pics_spec().unmasked_spec().push(IntIndex::Timer.vector_spec()).push(
                IntIndex::Keyboard.vector_spec(),
            ),
            final(self).keyboard_spec() == old(self).keyboard_spec(),
    {
        self.pics.initialize();
        self.pics.unmask(IntIndex::Timer.vector());
        self.pics.unmask(IntIndex::Keyboard.vector());
    }
}

/// Handles a breakpoint exception: purely diagnostic. Execution resumes at
/// the instruction after the trap, and no kernel state — in particular not
/// the tick counter — is altered.
pub fn breakpoint_h(state: &mut KernelState, _frame: &TrapFrame) -> (d: Disposition)
    ensures
        d is Resume,
        *final(state) == *old(state),
{
    Disposition::Resume
}

/// Handles a double fault: unrecoverable. The handler runs on the dedicated
/// fault stack (the regular stack may be corrupt) and the machine never
/// resumes the faulted context. Kernel state is left untouched.
pub fn double_fault_h(state: &mut KernelState, _frame: &TrapFrame, _error_code: u64) -> (d:
    Disposition)
    ensures
        d is Fatal,
        *final(state) == *old(state),
{
    Disposition::Fatal
}

/// Handles a page fault: decodes the access violation, then parks the
/// faulting context — degraded but alive, no demand paging is attempted.
/// Kernel state is left untouched.
pub fn page_fault_h(
    state: &mut KernelState,
    _frame: &TrapFrame,
    error_code: u64,
    _fault_address: u64,
) -> (r: (Disposition, PageFaultInfo))
    ensures
        r.0 is Halt,
        r.1 == spec_decode_page_fault(error_code),
        *final(state) == *old(state),
{
    let info = decode_page_fault_code(error_code);
    (Disposition::Halt, info)
}

/// Handles a timer interrupt: counts the tick and signals end-of-interrupt
/// for the timer line — exactly once, on every path, before returning.
pub fn timer_h(state: &mut KernelState, _frame: &TrapFrame) -> (d: Disposition)
    requires
        old(state).wf(),
    ensures
        final(state).wf(),
        d is Resume,
        final(state).ticks_spec() == sat_inc(old(state).ticks_spec()),
        final(state).pics_spec().spec_eoi_count(IntIndex::Timer.vector_spec()) == sat_inc64(
            old(state).pics_spec().spec_eoi_count(IntIndex::Timer.vector_spec()),
        ),
        forall|v: u8|
            v != IntIndex::Timer.vector_spec() ==> final(state).pics_spec().spec_eoi_count(v)
                == old(state).pics_spec().spec_eoi_count(v),
        final(state).pics_spec().unmasked_spec() == old(state).pics_spec().unmasked_spec(),
        final(state).pics_spec().master_offset_spec() == old(
            state,
        ).pics_spec().master_offset_spec(),
        final(state).pics_spec().slave_offset_spec() == old(
            state,
        ).pics_spec().slave_offset_spec(),
        final(state).pics_spec().initialized_spec() == old(
            state,
        ).pics_spec().initialized_spec(),
        final(state).keyboard_spec() == old(state).keyboard_spec(),
{
    if state.ticks < u128::MAX {
        state.ticks = state.ticks + 1;
    }
    state.pics.notify_end_of_interrupt(IntIndex::Timer.vector());
    Disposition::Resume
}

/// Tick value after `n` timer deliveries.
pub open spec fn ticks_after(t: u128, n: nat) -> u128
    decreases n,
{
    if n == 0 {
        t
    } else {
        sat_inc(ticks_after(t, (n - 1) as nat))
    }
}

/// A line's acknowledgement counter after `n` deliveries.
pub open spec fn eoi_count_after(c: u64, n: nat) -> u64
    decreases n,
{
    if n == 0 {
        c
    } else {
        sat_inc64(eoi_count_after(c, (n - 1) as nat))
    }
}

/// Delivering the timer interrupt `n` times (below the counters' saturation
/// bounds) advances the tick count by exactly `n`, and the timer line's
/// end-of-interrupt is recorded exactly once per delivery: its counter also
/// advances by exactly `n`.
pub proof fn lemma_timer_deliveries(t: u128, c: u64, n: nat)
    requires
        t + n <= u128::MAX,
        c + n <= u64::MAX,
    ensures
        ticks_after(t, n) == t + n,
        eoi_count_after(c, n) == c + n,
    decreases n,
{
    if n > 0 {
        lemma_timer_deliveries(t, c, (n - 1) as nat);
    }
}

/// Relies on x86_64's `hlt` instruction wrapper: halts the processor until
/// the next hardware interrupt arrives. No effect on any kernel value.
#[verifier::external_body]
pub fn wait_int() {
    x86_64::instructions::hlt();
}

/// What a vector is bound to in the interrupt vector table.
#[derive(Clone, Copy, PartialEq, Eq, Debug)]
pub enum VectorEntry {
    /// Unset: such a vector faults by default when it fires.
    Unbound,
    /// Bound to a handler, optionally forced onto an alternate stack by an
    /// interrupt-stack-table index.
    Bound { handler: HandlerKind, ist_index: Option<u16> },
}

/// The handler bodies this kernel installs.
#[derive(Clone, Copy, PartialEq, Eq, Structural, Debug)]
pub enum HandlerKind {
    Breakpoint,
    DoubleFault,
    PageFault,
    Timer,
    Keyboard,
}

/// The 256-entry table mapping each vector to a handler binding.
pub struct InterruptVectorTable {
    entries: Vec<VectorEntry>,
}

impl InterruptVectorTable {
    pub closed spec fn entries_spec(&self) -> Seq<VectorEntry> {
        self.entries@
    }

    pub open spec fn wf(&self) -> bool {
        self.entries_spec().len() == 256
    }

    pub open spec fn entry_spec(&self, vector: u8) -> VectorEntry {
        self.entries_spec()[vector as int]
    }

    /// A table with every vector unset.
    pub fn new() -> (t: Self)
        ensures
            t.wf(),
            forall|v: int| 0 <= v < 256 ==> t.entries_spec()[v] is Unbound,
    {
        let mut entries: Vec<VectorEntry> = Vec::new();
        let mut i: usize = 0;
        while i < 256
            invariant
                i <= 256,
                entries@.len() == i,
                forall|v: int| 0 <= v < i ==> entries@[v] is Unbound,
            decreases 256 - i,
        {
            entries.push(VectorEntry::Unbound);
            i = i + 1;
        }
        InterruptVectorTable { entries }
    }

    /// Binds one vector to a handler, leaving every other vector as it was.
    pub fn bind(&mut self, vector: u8, handler: HandlerKind, ist_index: Option<u16>)
        requires
            old(self).wf(),
        ensures
            final(self).wf(),
            final(self).entries_spec() =~= old(self).entries_spec().update(
                vector as int,
                (VectorEntry::Bound { handler, ist_index }),
            ),
    {
        self.entries.set(vector as usize, VectorEntry::Bound { handler, ist_index });
    }

    /// The binding of a vector.
    pub fn entry(&self, vector: u8) -> (e: VectorEntry)
        requires
            self.wf(),
        ensures
            e == self.entry_spec(vector),
    {
        self.entries[vector as usize]
    }

    /// Whether a vector has a handler bound.
    pub fn is_bound(&self, vector: u8) -> (r: bool)
        requires
            self.wf(),
        ensures
            r == (self.entry_spec(vector) is Bound),
    {
        matches!(self.entries[vector as usize], VectorEntry::Bound { .. })
    }
}

/// The binding the kernel's table gives each vector: breakpoint, double
/// fault (on the dedicated fault stack), page fault, timer and keyboard —
/// every other vector stays unset and faults by default.
pub open spec fn spec_init_entry(v: int) -> VectorEntry {
    if v == BREAKPOINT_VECTOR as int {
        VectorEntry::Bound { handler: HandlerKind::Breakpoint, ist_index: None }
    } else if v == DOUBLE_FAULT_VECTOR as int {
        VectorEntry::Bound {
            handler: HandlerKind::DoubleFault,
            ist_index: Some(DOUBLE_FAULT_IST_INDEX),
        }
    } else if v == PAGE_FAULT_VECTOR as int {
        VectorEntry::Bound { handler: HandlerKind::PageFault, ist_index: None }
    } else if v == IntIndex::Timer.vector_spec() as int {
        VectorEntry::Bound { handler: HandlerKind::Timer, ist_index: None }
    } else if v == IntIndex::Keyboard.vector_spec() as int {
        VectorEntry::Bound { handler: HandlerKind::Keyboard, ist_index: None }
    } else {
        VectorEntry::Unbound
    }
}

/// Builds the kernel's interrupt vector table, binding exactly the five
/// required vectors; the double-fault entry carries the fault-stack index
/// resolved at descriptor-table build time.
pub fn init() -> (t: InterruptVectorTable)
    ensures
        t.wf(),
        forall|v: int| 0 <= v < 256 ==> t.entries_spec()[v] == spec_init_entry(v),
{
    let mut t = InterruptVectorTable::new();
    t.bind(BREAKPOINT_VECTOR, HandlerKind::Breakpoint, None);
    t.bind(DOUBLE_FAULT_VECTOR, HandlerKind::DoubleFault, Some(DOUBLE_FAULT_IST_INDEX));
    t.bind(PAGE_FAULT_VECTOR, HandlerKind::PageFault, None);
    t.bind(IntIndex::Timer.vector(), HandlerKind::Timer, None);
    t.bind(IntIndex::Keyboard.vector(), HandlerKind::Keyboard, None);
    t
}

/// The scancode decoder state — pc_keyboard's `Keyboard` for scancode set
/// 1 and the US 104-key layout — held opaquely behind this struct, since
/// the generic type's outside trait bounds cannot be declared to the
/// verifier. Only the trusted wrappers below look inside.
#[verifier::external_body]
pub struct ScancodeDecoder {
    inner: pc_keyboard::Keyboard<pc_keyboard::layouts::Us104Key, pc_keyboard::ScancodeSet1>,
}

#[verifier::external_type_specification]
#[verifier::external_body]
pub struct ExKeyEvent(pc_keyboard::KeyEvent);

#[verifier::external_type_specification]
#[verifier::external_body]
pub struct ExDecodedKey(pc_keyboard::DecodedKey);

#[verifier::external_type_specification]
#[verifier::external_body]
pub struct ExKeyCode(pc_keyboard::KeyCode);

#[verifier::external_type_specification]
#[verifier::external_body]
pub struct ExPcKeyboardError(pc_keyboard::Error);

/// Relies on pc_keyboard's `Keyboard::new`: a fresh scancode-set-1 decoder
/// for the US 104-key layout, with control keys passed through unchanged.
#[verifier::external_body]
fn new_keyboard() -> ScancodeDecoder {
    ScancodeDecoder {
        inner: pc_keyboard::Keyboard::new(
            pc_keyboard::ScancodeSet1::new(),
            pc_keyboard::layouts::Us104Key,
            pc_keyboard::HandleControl::Ignore,
        ),
    }
}

/// Relies on pc_keyboard's `Keyboard::add_byte`: advances the decoder by
/// one scancode byte, yielding a completed key event or a decode error.
/// What comes back depends on the decoder's accumulated state, so nothing
/// is assumed of it.
#[verifier::external_body]
fn kb_add_byte(kb: &mut ScancodeDecoder, byte: u8) -> Result<
    Option<pc_keyboard::KeyEvent>,
    pc_keyboard::Error,
> {
    kb.inner.add_byte(byte)
}

/// Relies on pc_keyboard's `Keyboard::process_keyevent`: turns a completed
/// key event into a decoded key according to the layout and the modifier
/// state the decoder tracks.
#[verifier::external_body]
fn kb_process_keyevent(kb: &mut ScancodeDecoder, ev: pc_keyboard::KeyEvent) -> Option<
    pc_keyboard::DecodedKey,
> {
    kb.inner.process_keyevent(ev)
}

/// Decoded keyboard input as the kernel forwards it to the console sink.
#[derive(Clone, Copy, Debug)]
pub enum KeyInput {
    /// A character with a Unicode meaning.
    Unicode(char),
    /// A key without one, forwarded raw.
    Raw(pc_keyboard::KeyCode),
}

/// Relies on pc_keyboard's `DecodedKey` having exactly the two variants
/// repacked here; each arm only moves the payload across.
#[verifier::external_body]
fn decoded_to_input(k: pc_keyboard::DecodedKey) -> KeyInput {
    match k {
        pc_keyboard::DecodedKey::Unicode(c) => KeyInput::Unicode(c),
        pc_keyboard::DecodedKey::RawKey(rk) => KeyInput::Raw(rk),
    }
}

/// Handles a keyboard interrupt: feeds the scancode byte (read from the
/// keyboard port by the trap entry) to the decoder, yields the decoded
/// input for the console sink when a key completed, and signals
/// end-of-interrupt for the keyboard line — exactly once, on every path.
/// The tick counter is untouched.
pub fn keyboard_h(state: &mut KernelState, _frame: &TrapFrame, scancode: u8) -> (r: (
    Disposition,
    Option<KeyInput>,
))
    requires
        old(state).wf(),
    ensures
        final(state).wf(),
        r.0 is Resume,
        final(state).ticks_spec() == old(state).ticks_spec(),
        final(state).pics_spec().spec_eoi_count(IntIndex::Keyboard.vector_spec()) == sat_inc64(
            old(state).pics_spec().spec_eoi_count(IntIndex::Keyboard.vector_spec()),
        ),
        forall|v: u8|
            v != IntIndex::Keyboard.vector_spec() ==> final(state).pics_spec().spec_eoi_count(
                v,
            ) == old(state).pics_spec().spec_eoi_count(v),
        final(state).pics_spec().unmasked_spec() == old(state).pics_spec().unmasked_spec(),
        final(state).pics_spec().master_offset_spec() == old(
            state,
        ).pics_spec().master_offset_spec(),
        final(state).pics_spec().slave_offset_spec() == old(
            state,
        ).pics_spec().slave_offset_spec(),
        final(state).pics_spec().initialized_spec() == old(
            state,
        ).pics_spec().initialized_spec(),
{
    let mut out: Option<KeyInput> = None;
    let step = kb_add_byte(&mut state.keyboard, scancode);
    match step {
        Ok(Some(ev)) => {
            match kb_process_keyevent(&mut state.keyboard, ev) {
                Some(k) => {
                    out = Some(decoded_to_input(k));
                },
                None => {},
            }
        },
        _ => {},
    }
    state.pics.notify_end_of_interrupt(IntIndex::Keyboard.vector());
    (Disposition::Resume, out)
}

/// An exception or hardware interrupt as delivered to the dispatcher, with
/// what the processor and the trap entry hand over beside the vector.
#[derive(Clone, Copy, PartialEq, Eq, Structural, Debug)]
pub enum TrapEvent {
    Breakpoint(TrapFrame),
    /// Frame and error code.
    DoubleFault(TrapFrame, u64),
    /// Frame, error code, and the faulting address read from the control
    /// register.
    PageFault(TrapFrame, u64, u64),
    Timer(TrapFrame),
    /// Frame and the scancode byte read from the keyboard port.
    Keyboard(TrapFrame, u8),
}

impl TrapEvent {
    /// The vector this event fires on.
    pub open spec fn vector_spec(self) -> u8 {
        match self {
            TrapEvent::Breakpoint(..) => BREAKPOINT_VECTOR,
            TrapEvent::DoubleFault(..) => DOUBLE_FAULT_VECTOR,
            TrapEvent::PageFault(..) => PAGE_FAULT_VECTOR,
            TrapEvent::Timer(..) => IntIndex::Timer.vector_spec(),
            TrapEvent::Keyboard(..) => IntIndex::Keyboard.vector_spec(),
        }
    }

    /// The handler this kernel installs for the event's vector.
    pub open spec fn handler_kind_spec(self) -> HandlerKind {
        match self {
            TrapEvent::Breakpoint(..) => HandlerKind::Breakpoint,
            TrapEvent::DoubleFault(..) => HandlerKind::DoubleFault,
            TrapEvent::PageFault(..) => HandlerKind::PageFault,
            TrapEvent::Timer(..) => HandlerKind::Timer,
            TrapEvent::Keyboard(..) => HandlerKind::Keyboard,
        }
    }

    /// The vector this event fires on.
    pub fn vector(&self) -> (v: u8)
        ensures
            v == self.vector_spec(),
    {
        match self {
            TrapEvent::Breakpoint(..) => BREAKPOINT_VECTOR,
            TrapEvent::DoubleFault(..) => DOUBLE_FAULT_VECTOR,
            TrapEvent::PageFault(..) => PAGE_FAULT_VECTOR,
            TrapEvent::Timer(..) => IntIndex::Timer.vector(),
            TrapEvent::Keyboard(..) => IntIndex::Keyboard.vector(),
        }
    }

    /// The handler this kernel pairs with the event's vector.
    pub fn handler_kind(&self) -> (h: HandlerKind)
        ensures
            h == self.handler_kind_spec(),
    {
        match self {
            TrapEvent::Breakpoint(..) => HandlerKind::Breakpoint,
            TrapEvent::DoubleFault(..) => HandlerKind::DoubleFault,
            TrapEvent::PageFault(..) => HandlerKind::PageFault,
            TrapEvent::Timer(..) => HandlerKind::Timer,
            TrapEvent::Keyboard(..) => HandlerKind::Keyboard,
        }
    }
}

/// What dispatching one delivered event produced.
#[derive(Clone, Copy, Debug)]
pub enum DispatchResult {
    /// The vector was unset: the event escalates as a fault, the default
    /// for an unbound vector. No handler ran.
    Unbound(u8),
    /// The bound handler ran: its disposition, the decoded keyboard input
    /// if any, and the decoded page-fault information if any.
    Handled(Disposition, Option<KeyInput>, Option<PageFaultInfo>),
}

/// Routes one delivered event through the vector table: an unset vector is
/// reported unbound with the state untouched; a bound vector runs its
/// handler, whose exact effect per event kind the contract repeats. The
/// table is expected to bind each vector, where it binds it at all, to the
/// handler this kernel pairs with that vector — as the table built by
/// `init` does.
pub fn dispatch(state: &mut KernelState, table: &InterruptVectorTable, event: TrapEvent) -> (r:
    DispatchResult)
    requires
        old(state).wf(),
        table.wf(),
        table.entry_spec(event.vector_spec()) matches VectorEntry::Bound { handler, .. }
            ==> handler == event.handler_kind_spec(),
    ensures
        final(state).wf(),
        table.entry_spec(event.vector_spec()) is Unbound ==> r == DispatchResult::Unbound(
            event.vector_spec(),
        ) && *final(state) == *old(state),
        (table.entry_spec(event.vector_spec()) is Bound && event is Breakpoint) ==> (r
            matches DispatchResult::Handled(d, key, fault) && d is Resume && key is None
            && fault is None) && *final(state) == *old(state),
        (table.entry_spec(event.vector_spec()) is Bound && event is DoubleFault) ==> (r
            matches DispatchResult::Handled(d, key, fault) && d is Fatal && key is None
            && fault is None) && *final(state) == *old(state),
        event matches TrapEvent::PageFault(_, code, _) ==> (table.entry_spec(
            event.vector_spec(),
        ) is Bound ==> (r matches DispatchResult::Handled(d, key, fault) && d is Halt && key
            is None && fault == Some(spec_decode_page_fault(code)))
            && *final(state) == *old(state)),
        (table.entry_spec(event.vector_spec()) is Bound && event is Timer) ==> (r matches
            DispatchResult::Handled(d, key, fault) && d is Resume && key is None && fault
            is None) && final(state).ticks_spec() == sat_inc(old(state).ticks_spec())
            && final(state).pics_spec().spec_eoi_count(IntIndex::Timer.vector_spec())
            == sat_inc64(old(state).pics_spec().spec_eoi_count(IntIndex::Timer.vector_spec())),
        (table.entry_spec(event.vector_spec()) is Bound && event is Keyboard) ==> (r matches
            DispatchResult::Handled(d, _key, fault) && d is Resume && fault is None)
            && final(state).ticks_spec() == old(state).ticks_spec()
            && final(state).pics_spec().spec_eoi_count(IntIndex::Keyboard.vector_spec())
            == sat_inc64(old(state).pics_spec().spec_eoi_count(IntIndex::Keyboard.vector_spec())),
{
    let vector = event.vector();
    if !table.is_bound(vector) {
        return DispatchResult::Unbound(vector);
    }
    match event {
        TrapEvent::Breakpoint(frame) => {
            let d = breakpoint_h(state, &frame);
            DispatchResult::Handled(d, None, None)
        },
        TrapEvent::DoubleFault(frame, code) => {
            let d = double_fault_h(state, &frame, code);
            DispatchResult::Handled(d, None, None)
        },
        TrapEvent::PageFault(frame, code, addr) => {
            let (d, info) = page_fault_h(state, &frame, code, addr);
            DispatchResult::Handled(d, None, Some(info))
        },
        TrapEvent::Timer(frame) => {
            let d = timer_h(state, &frame);
            DispatchResult::Handled(d, None, None)
        },
        TrapEvent::Keyboard(frame, scancode) => {
            let (d, key) = keyboard_h(state, &frame, scancode);
            DispatchResult::Handled(d, key, None)
        },
    }
}


} // verus!
