use kernel::paging::{level_4_table_base, physical_to_virtual, PageTableView, TranslateResult};

const PRESENT: u64 = 1;
const HUGE: u64 = 0x80;

fn empty_table() -> Vec<u64> {
    vec![0u64; 512]
}

/// A view with one 4 KiB mapping: virtual 0 -> physical 0x5000, all four
/// levels going through index 0.
fn single_mapping_view() -> PageTableView {
    let mut pt = PageTableView::new(0x1000);
    let mut l4 = empty_table();
    l4[0] = 0x2000 | PRESENT;
    let mut l3 = empty_table();
    l3[0] = 0x3000 | PRESENT;
    let mut l2 = empty_table();
    l2[0] = 0x4000 | PRESENT;
    let mut l1 = empty_table();
    l1[0] = 0x5000 | PRESENT;
    pt.add_table(0x1000, l4);
    pt.add_table(0x2000, l3);
    pt.add_table(0x3000, l2);
    pt.add_table(0x4000, l1);
    pt
}

#[test]
fn translate_preserves_page_offset() {
    let pt = single_mapping_view();
    assert_eq!(pt.translate(0x0), TranslateResult::Mapped(0x5000));
    // The low twelve bits come through exactly.
    assert_eq!(pt.translate(0x123), TranslateResult::Mapped(0x5123));
    assert_eq!(pt.translate(0xfff), TranslateResult::Mapped(0x5fff));
}

#[test]
fn translate_not_present_at_each_level() {
    // Entry absent at level 1: the page next to the mapped one.
    let pt = single_mapping_view();
    assert_eq!(pt.translate(0x1000), TranslateResult::NotPresent);
    // Entry absent at level 2: a different level-2 index.
    assert_eq!(pt.translate(0x20_0000), TranslateResult::NotPresent);
    // Entry absent at level 3: a different level-3 index.
    assert_eq!(pt.translate(0x4000_0000), TranslateResult::NotPresent);
    // Entry absent at level 4: a different level-4 index.
    assert_eq!(pt.translate(0x80_0000_0000), TranslateResult::NotPresent);
}

#[test]
fn translate_without_any_tables() {
    let pt = PageTableView::new(0x1000);
    assert_eq!(pt.translate(0x0), TranslateResult::NotPresent);
}

#[test]
fn translate_reports_huge_frames_distinctly() {
    // Huge mapping at level 3 (1 GiB page).
    let mut pt = PageTableView::new(0x1000);
    let mut l4 = empty_table();
    l4[0] = 0x2000 | PRESENT;
    let mut l3 = empty_table();
    l3[0] = 0x4000_0000 | PRESENT | HUGE;
    pt.add_table(0x1000, l4);
    pt.add_table(0x2000, l3);
    assert_eq!(pt.translate(0x0), TranslateResult::UnsupportedHugeFrame);

    // Huge mapping at level 2 (2 MiB page).
    let mut pt2 = PageTableView::new(0x1000);
    let mut l4 = empty_table();
    l4[0] = 0x2000 | PRESENT;
    let mut l3 = empty_table();
    l3[0] = 0x3000 | PRESENT;
    let mut l2 = empty_table();
    l2[0] = 0x20_0000 | PRESENT | HUGE;
    pt2.add_table(0x1000, l4);
    pt2.add_table(0x2000, l3);
    pt2.add_table(0x3000, l2);
    assert_eq!(pt2.translate(0x0), TranslateResult::UnsupportedHugeFrame);
}

#[test]
fn translate_present_entry_to_missing_table() {
    // The level-4 entry points at a table the view does not hold: there is
    // no complete walk, so no mapping is reported.
    let mut pt = PageTableView::new(0x1000);
    let mut l4 = empty_table();
    l4[0] = 0x2000 | PRESENT;
    pt.add_table(0x1000, l4);
    assert_eq!(pt.translate(0x0), TranslateResult::NotPresent);
}

#[test]
fn table_base_register_masks_flags() {
    // The table-base register carries flags in its low bits; only the frame
    // base is the table address.
    assert_eq!(level_4_table_base(0x1a2b_3000 | 0x18), 0x1a2b_3000);
}

#[test]
fn physical_to_virtual_applies_offset() {
    assert_eq!(physical_to_virtual(0x8000_0000_0000, 0x5123), Some(0x8000_0000_5123));
    assert_eq!(physical_to_virtual(u64::MAX, 1), None);
}
