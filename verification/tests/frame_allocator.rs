use kernel::mem::{BootInfoFrameAllocator, MemoryRegion, MemoryRegionKind, PAGE_SIZE};

fn region(start: u64, end: u64, kind: MemoryRegionKind) -> MemoryRegion {
    MemoryRegion { start, end, kind }
}

#[test]
fn scenario_reserved_then_usable() {
    // Memory map: one reserved page, then usable memory up to 0x10000.
    let map = vec![
        region(0x0, 0x1000, MemoryRegionKind::Reserved),
        region(0x1000, 0x10000, MemoryRegionKind::Usable),
    ];
    let mut alloc = BootInfoFrameAllocator::new(map);
    for i in 0..15u64 {
        let frame = alloc.allocate_frame();
        assert_eq!(frame, Some(0x1000 + i * PAGE_SIZE));
    }
    // 0x1000..0xF000 inclusive were handed out; the sixteenth call reports
    // exhaustion.
    assert_eq!(alloc.allocate_frame(), None);
}

#[test]
fn frames_distinct_and_inside_usable() {
    let map = vec![
        region(0x4000, 0x8000, MemoryRegionKind::Usable),
        region(0x8000, 0x9000, MemoryRegionKind::Bootloader),
        region(0x20000, 0x23000, MemoryRegionKind::Usable),
    ];
    let mut alloc = BootInfoFrameAllocator::new(map.clone());
    let mut seen: Vec<u64> = Vec::new();
    while let Some(f) = alloc.allocate_frame() {
        assert_eq!(f % PAGE_SIZE, 0);
        assert!(
            map.iter().any(
                |r| r.kind == MemoryRegionKind::Usable && r.start <= f && f < r.end
            )
        );
        assert!(!seen.contains(&f));
        seen.push(f);
    }
    assert_eq!(seen.len(), 4 + 3);
}

#[test]
fn rederivation_is_deterministic() {
    let map = vec![
        region(0x1000, 0x5000, MemoryRegionKind::Usable),
        region(0x10000, 0x12000, MemoryRegionKind::Usable),
    ];
    let mut first = BootInfoFrameAllocator::new(map.clone());
    let mut original: Vec<Option<u64>> = Vec::new();
    for _ in 0..8 {
        original.push(first.allocate_frame());
    }
    // A freshly reset cursor advanced to index k yields the k-th original
    // answer: the sequence is re-derived from the map, not cached.
    for k in 0..8 {
        let mut fresh = BootInfoFrameAllocator::new(map.clone());
        let mut frame = None;
        for _ in 0..=k {
            frame = fresh.allocate_frame();
        }
        assert_eq!(frame, original[k]);
    }
}

#[test]
fn empty_map_is_exhausted_at_once() {
    let mut alloc = BootInfoFrameAllocator::new(Vec::new());
    assert_eq!(alloc.allocate_frame(), None);
    assert_eq!(alloc.allocate_frame(), None);
}

#[test]
fn empty_and_reserved_regions_contribute_nothing() {
    let map = vec![
        region(0x3000, 0x3000, MemoryRegionKind::Usable),
        region(0x5000, 0x9000, MemoryRegionKind::Reserved),
        region(0xa000, 0xb000, MemoryRegionKind::Unknown),
        region(0xc000, 0xd000, MemoryRegionKind::Usable),
    ];
    let mut alloc = BootInfoFrameAllocator::new(map);
    assert_eq!(alloc.allocate_frame(), Some(0xc000));
    assert_eq!(alloc.allocate_frame(), None);
}

#[test]
fn partial_trailing_page_still_counts() {
    // A usable region not ending on a page boundary still contributes every
    // page-aligned address inside it, the last one included.
    let map = vec![region(0x2000, 0x3800, MemoryRegionKind::Usable)];
    let mut alloc = BootInfoFrameAllocator::new(map);
    assert_eq!(alloc.allocate_frame(), Some(0x2000));
    assert_eq!(alloc.allocate_frame(), Some(0x3000));
    assert_eq!(alloc.allocate_frame(), None);
}

#[test]
fn unaligned_region_start_rounds_up_into_the_region() {
    // The first frame of a region starting mid-page is the first aligned
    // address inside it — never the page base below the start.
    let map = vec![region(0x800, 0x1800, MemoryRegionKind::Usable)];
    let mut alloc = BootInfoFrameAllocator::new(map);
    assert_eq!(alloc.allocate_frame(), Some(0x1000));
    assert_eq!(alloc.allocate_frame(), None);
}

#[test]
fn region_without_an_aligned_address_contributes_nothing() {
    let map = vec![region(0x800, 0x1000, MemoryRegionKind::Usable)];
    let mut alloc = BootInfoFrameAllocator::new(map);
    assert_eq!(alloc.allocate_frame(), None);
}
