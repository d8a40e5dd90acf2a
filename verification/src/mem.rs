//! Physical-frame allocation from the firmware-reported memory map.
//!
//! The bootstrap environment reports physical memory as a list of regions,
//! each tagged with a kind. The allocator enumerates the page-aligned frame
//! addresses inside the usable regions and hands them out in order, keeping
//! only a cursor: the frame for a given cursor value is re-derived from the
//! map every time, so the same index always resolves to the same frame.

use vstd::prelude::*;
use vstd::arithmetic::div_mod::lemma_fundamental_div_mod;
use vstd::arithmetic::div_mod::lemma_mod_multiples_vanish;

verus! {

/// Size in bytes of one physical page frame.
pub const PAGE_SIZE: u64 = 4096;

/// What a firmware-reported region of physical memory may be used for.
#[derive(Clone, Copy, PartialEq, Eq, Structural, Debug)]
pub enum MemoryRegionKind {
    /// Free for the kernel to allocate from.
    Usable,
    /// Reserved by firmware or hardware; never allocated.
    Reserved,
    /// Holds bootloader structures that are still live.
    Bootloader,
    /// Reported with a kind this kernel does not interpret.
    Unknown,
}

/// One firmware-reported region: the half-open byte range `start..end`.
#[derive(Clone, Copy, PartialEq, Eq, Structural, Debug)]
pub struct MemoryRegion {
    pub start: u64,
    pub end: u64,
    pub kind: MemoryRegionKind,
}

/// Smallest page-aligned address at or above `addr`, as an unbounded
/// integer: it lies one page past the top of the address space when `addr`
/// is unaligned and within a page of the top.
pub open spec fn round_up_to_page(addr: u64) -> int {
    if addr % 4096 == 0 {
        addr as int
    } else {
        addr - addr % 4096 + 4096
    }
}

/// How many page-aligned addresses lie in `start..end`.
pub open spec fn region_frame_count(r: MemoryRegion) -> nat {
    if round_up_to_page(r.start) < r.end {
        (((r.end - round_up_to_page(r.start) - 1) / 4096) + 1) as nat
    } else {
        0
    }
}

/// The frames a single region contributes: none unless it is usable,
/// otherwise every page-aligned address inside `start..end`, in order.
pub open spec fn region_frames(r: MemoryRegion) -> Seq<u64> {
    if r.kind is Usable {
        Seq::new(region_frame_count(r), |i: int| (round_up_to_page(r.start) + 4096 * i) as u64)
    } else {
        Seq::empty()
    }
}

/// The full allocation order: the concatenation of every region's frames,
/// in the order the firmware reported the regions.
pub open spec fn usable_frames(regions: Seq<MemoryRegion>) -> Seq<u64>
    decreases regions.len(),
{
    if regions.len() == 0 {
        Seq::empty()
    } else {
        region_frames(regions[0]) + usable_frames(regions.skip(1))
    }
}

/// The frame a cursor value resolves to, or `None` once the map is exhausted.
pub open spec fn frame_at(regions: Seq<MemoryRegion>, k: nat) -> Option<u64> {
    if k < usable_frames(regions).len() {
        Some(usable_frames(regions)[k as int])
    } else {
        None
    }
}

/// No two usable regions overlap.
pub open spec fn usable_regions_disjoint(regions: Seq<MemoryRegion>) -> bool {
    forall|i: int, j: int|
        0 <= i < j < regions.len() && (#[trigger] regions[i]).kind is Usable
            && (#[trigger] regions[j]).kind is Usable
            ==> (regions[i].end <= regions[j].start || regions[j].end <= regions[i].start)
}

/// Walks the memory map lazily, handing out one never-before-returned usable
/// frame per call. Only the next cursor index is stored; no issued-frame set.
pub struct BootInfoFrameAllocator {
    memory_map: Vec<MemoryRegion>,
    next: usize,
}

impl BootInfoFrameAllocator {
    /// The memory map this allocator draws from.
    pub closed spec fn memory_map_spec(&self) -> Seq<MemoryRegion> {
        self.memory_map@
    }

    /// How many frames have been requested so far.
    pub closed spec fn cursor(&self) -> nat {
        self.next as nat
    }

    /// The allocation order this allocator enumerates.
    pub open spec fn frames(&self) -> Seq<u64> {
        usable_frames(self.memory_map_spec())
    }

    pub fn new(memory_map: Vec<MemoryRegion>) -> (a: Self)
        ensures
            a.memory_map_spec() == memory_map@,
            a.cursor() == 0,
    {
        BootInfoFrameAllocator { memory_map, next: 0 }
    }

    /// How many frames have been requested so far.
    pub fn cursor_value(&self) -> (n: usize)
        ensures
            n as nat == self.cursor(),
    {
        self.next
    }

    /// Returns the next usable frame, or `None` when the map is exhausted.
    /// The cursor only ever increases, so no frame is returned twice.
    pub fn allocate_frame(&mut self) -> (r: Option<u64>)
        requires
            old(self).cursor() < usize::MAX,
        ensures
            final(self).memory_map_spec() == old(self).memory_map_spec(),
            final(self).cursor() == old(self).cursor() + 1,
            r == frame_at(old(self).memory_map_spec(), old(self).cursor()),
    {
        let r = nth_usable_frame(&self.memory_map, self.next);
        self.next = self.next + 1;
        r
    }
}

fn region_first_frame(r: &MemoryRegion) -> (f: Option<u64>)
    ensures
        match f {
            Some(a) => a as int == round_up_to_page(r.start),
            None => round_up_to_page(r.start) > u64::MAX,
        },
{
    let rem = r.start % 4096;
    if rem == 0 {
        Some(r.start)
    } else if r.start <= u64::MAX - (4096 - rem) {
        Some(r.start - rem + 4096)
    } else {
        None
    }
}

fn region_count(r: &MemoryRegion) -> (n: u64)
    ensures
        n as nat == region_frame_count(*r),
{
    match region_first_frame(r) {
        Some(first) => {
            if r.end > first {
                let steps = (r.end - first - 1) / 4096;
                assert(steps < u64::MAX) by {
                    lemma_fundamental_div_mod((r.end - first - 1) as int, 4096);
                }
                steps + 1
            } else {
                0
            }
        },
        None => 0,
    }
}

fn nth_usable_frame(regions: &Vec<MemoryRegion>, k: usize) -> (r: Option<u64>)
    ensures
        r == frame_at(regions@, k as nat),
{
    let mut i: usize = 0;
    let mut rem: u64 = k as u64;
    proof {
        assert(regions@.skip(0) =~= regions@);
    }
    while i < regions.len()
        invariant
            i <= regions@.len(),
            frame_at(regions@, k as nat) == frame_at(regions@.skip(i as int), rem as nat),
        decreases regions@.len() - i,
    {
        let reg = regions[i];
        let cnt = region_count(&reg);
        proof {
            assert(regions@.skip(i as int)[0] == regions@[i as int]);
            assert(regions@.skip(i as int).skip(1) =~= regions@.skip(i as int + 1));
        }
        let usable = matches!(reg.kind, MemoryRegionKind::Usable);
        if usable && rem < cnt {
            proof {
                lemma_frame_value_in_range(reg, rem as nat);
            }
            let first = match region_first_frame(&reg) {
                Some(f) => f,
                None => {
                    assert(false);
                    0
                },
            };
            return Some(first + 4096 * rem);
        }
        if usable {
            rem = rem - cnt;
        }
        i = i + 1;
    }
    None
}

/// An in-bounds frame of a usable region is page-aligned and lies inside
/// the region: at or above its start and below its end.
proof fn lemma_frame_value_in_range(r: MemoryRegion, k: nat)
    requires
        r.kind is Usable,
        k < region_frame_count(r),
    ensures
        r.start <= round_up_to_page(r.start) + 4096 * k < r.end,
        (round_up_to_page(r.start) + 4096 * k) % 4096 == 0,
        region_frames(r)[k as int] == (round_up_to_page(r.start) + 4096 * k) as u64,
{
    let first = round_up_to_page(r.start);
    let span = r.end - first - 1;
    lemma_fundamental_div_mod(span, 4096);
    assert(4096 * k <= 4096 * (region_frame_count(r) - 1));
    assert(4096 * ((span / 4096) as int) <= span);
    lemma_fundamental_div_mod(r.start as int, 4096);
    if r.start % 4096 == 0 {
        lemma_mod_multiples_vanish(k as int, r.start as int, 4096);
    } else {
        assert(first == 4096 * (r.start as int / 4096) + 4096);
        assert(first + 4096 * k == 4096 * (r.start as int / 4096 + 1 + k));
        lemma_mod_multiples_vanish(r.start as int / 4096 + 1 + k, 0, 4096);
    }
}

/// Every frame in the allocation order is page-aligned and lies inside some
/// usable region of the map.
pub proof fn lemma_frame_in_usable_region(regions: Seq<MemoryRegion>, k: int)
    requires
        0 <= k < usable_frames(regions).len(),
    ensures
        usable_frames(regions)[k] % 4096 == 0,
        exists|i: int|
            0 <= i < regions.len() && (#[trigger] regions[i]).kind is Usable
                && regions[i].start <= usable_frames(regions)[k] < regions[i].end,
    decreases regions.len(),
{
    let r0 = regions[0];
    let head = region_frames(r0);
    if k < head.len() {
        assert(r0.kind is Usable);
        lemma_frame_value_in_range(r0, k as nat);
        assert(usable_frames(regions)[k] == head[k]);
        assert(0 <= 0 < regions.len() && regions[0].kind is Usable && regions[0].start
            <= usable_frames(regions)[k] < regions[0].end);
    } else {
        let rest = regions.skip(1);
        let k2 = k - head.len();
        assert(usable_frames(regions)[k] == usable_frames(rest)[k2]);
        lemma_frame_in_usable_region(rest, k2);
        let w = choose|i: int|
            0 <= i < rest.len() && (#[trigger] rest[i]).kind is Usable
                && rest[i].start <= usable_frames(rest)[k2] < rest[i].end;
        assert(rest[w] == regions[w + 1]);
        assert(0 <= w + 1 < regions.len() && regions[w + 1].kind is Usable
            && regions[w + 1].start <= usable_frames(regions)[k] < regions[w + 1].end);
    }
}

/// Two different cursor values always resolve to two different frames: over
/// a map whose usable regions do not overlap, no frame is ever handed out
/// twice.
pub proof fn lemma_frames_distinct(regions: Seq<MemoryRegion>, k1: int, k2: int)
    requires
        usable_regions_disjoint(regions),
        0 <= k1 < k2 < usable_frames(regions).len(),
    ensures
        usable_frames(regions)[k1] != usable_frames(regions)[k2],
    decreases regions.len(),
{
    let r0 = regions[0];
    let head = region_frames(r0);
    let rest = regions.skip(1);
    assert(usable_regions_disjoint(rest)) by {
        assert(forall|i: int| 0 <= i < rest.len() ==> #[trigger] rest[i] == regions[i + 1]);
    }
    if k2 < head.len() {
        assert(r0.kind is Usable);
        assert(usable_frames(regions)[k1] == head[k1]);
        assert(usable_frames(regions)[k2] == head[k2]);
        lemma_frame_value_in_range(r0, k1 as nat);
        lemma_frame_value_in_range(r0, k2 as nat);
        assert(round_up_to_page(r0.start) + 4096 * k1 < round_up_to_page(r0.start) + 4096
            * k2);
    } else if k1 < head.len() {
        assert(r0.kind is Usable);
        lemma_frame_value_in_range(r0, k1 as nat);
        let f1 = usable_frames(regions)[k1];
        assert(f1 == head[k1]);
        assert(r0.start <= f1 < r0.end);
        let j2 = k2 - head.len();
        let f2 = usable_frames(regions)[k2];
        assert(f2 == usable_frames(rest)[j2]);
        lemma_frame_in_usable_region(rest, j2);
        let w = choose|i: int|
            0 <= i < rest.len() && (#[trigger] rest[i]).kind is Usable
                && rest[i].start <= usable_frames(rest)[j2] < rest[i].end;
        assert(rest[w] == regions[w + 1]);
        assert(regions[w + 1].end <= regions[0].start || regions[0].end <= regions[w
            + 1].start);
    } else {
        let j1 = k1 - head.len();
        let j2 = k2 - head.len();
        assert(usable_frames(regions)[k1] == usable_frames(rest)[j1]);
        assert(usable_frames(regions)[k2] == usable_frames(rest)[j2]);
        lemma_frames_distinct(rest, j1, j2);
    }
}

/// The frame an allocator returns is a function of the memory map and the
/// cursor alone: two allocators over the same map and cursor agree, so
/// re-deriving the sequence from scratch reproduces the original answers.
pub proof fn lemma_allocation_deterministic(
    a: &BootInfoFrameAllocator,
    b: &BootInfoFrameAllocator,
)
    requires
        a.memory_map_spec() == b.memory_map_spec(),
        a.cursor() == b.cursor(),
    ensures
        frame_at(a.memory_map_spec(), a.cursor()) == frame_at(b.memory_map_spec(), b.cursor()),
{
}

} // verus!
