//! Virtual-to-physical address translation over the active page tables.
//!
//! The hardware walk reads 512-entry tables from physical memory through a
//! fixed virtual offset. Here the tables reachable from the level-4 base are
//! held as plain values, each under the physical base address the hardware
//! would read it from; the walker performs the same four-level lookup and
//! reports a typed result. Only discovery and translation are offered; this
//! kernel core never maps or unmaps.

use vstd::prelude::*;

verus! {

/// Mask selecting the physical frame base out of a table entry or out of the
/// table-base register value.
pub const PHYS_ADDR_MASK: u64 = 0x000f_ffff_ffff_f000;

/// Outcome of a four-level walk.
#[derive(Clone, Copy, PartialEq, Eq, Structural, Debug)]
pub enum TranslateResult {
    /// The physical address, frame base plus the page offset of the input.
    Mapped(u64),
    /// Some level's entry was absent: the address has no mapping.
    NotPresent,
    /// A huge-page mapping was met; this walker only supports 4 KiB frames.
    UnsupportedHugeFrame,
}

/// One 512-entry table, identified by its physical base address.
pub struct PageTable {
    pub base: u64,
    pub entries: Vec<u64>,
}

/// An entry maps something only when its present bit is set.
pub open spec fn entry_present(e: u64) -> bool {
    e & 1 == 1
}

/// The huge-page bit: the entry maps a large frame directly.
pub open spec fn entry_huge(e: u64) -> bool {
    e & 0x80 == 0x80
}

/// Physical base address held in a table entry.
pub open spec fn entry_phys_base(e: u64) -> u64 {
    e & 0x000f_ffff_ffff_f000
}

/// Low twelve bits of a virtual address: the offset within its page.
pub open spec fn page_offset(v: u64) -> u64 {
    v & 0xfff
}

/// Nine-bit table index of a virtual address at the level whose index field
/// starts at `shift` (39, 30, 21 or 12).
pub open spec fn level_index(v: u64, shift: u64) -> u64 {
    (v >> shift) & 0x1ff
}

pub open spec fn find_table_in(tables: Seq<PageTable>, base: u64) -> Option<Seq<u64>>
    decreases tables.len(),
{
    if tables.len() == 0 {
        None
    } else if tables[0].base == base {
        Some(tables[0].entries@)
    } else {
        find_table_in(tables.skip(1), base)
    }
}

/// The level-4 table located through the table-base register, together with
/// every table reachable from it, exposed as a walkable structure.
pub struct PageTableView {
    l4_base: u64,
    tables: Vec<PageTable>,
}

impl PageTableView {
    /// Physical base address of the level-4 table.
    pub closed spec fn l4_base_spec(&self) -> u64 {
        self.l4_base
    }

    pub closed spec fn tables_spec(&self) -> Seq<PageTable> {
        self.tables@
    }

    /// Every held table has exactly 512 entries.
    pub open spec fn wf(&self) -> bool {
        forall|i: int|
            0 <= i < self.tables_spec().len()
                ==> (#[trigger] self.tables_spec()[i]).entries@.len() == 512
    }

    /// The entries of the table at physical address `base`, if it is held.
    pub open spec fn table_entries(&self, base: u64) -> Option<Seq<u64>> {
        find_table_in(self.tables_spec(), base)
    }

    /// The level-4 entry the hardware would read for `v`.
    pub open spec fn l4_entry(&self, v: u64) -> Option<u64> {
        match self.table_entries(self.l4_base_spec()) {
            Some(t) => Some(t[level_index(v, 39) as int]),
            None => None,
        }
    }

    /// The level-3 entry reached for `v`, if the level-4 entry leads to one.
    pub open spec fn l3_entry(&self, v: u64) -> Option<u64> {
        match self.l4_entry(v) {
            Some(e4) => if entry_present(e4) {
                match self.table_entries(entry_phys_base(e4)) {
                    Some(t) => Some(t[level_index(v, 30) as int]),
                    None => None,
                }
            } else {
                None
            },
            None => None,
        }
    }

    /// The level-2 entry reached for `v`, if the walk gets that far.
    pub open spec fn l2_entry(&self, v: u64) -> Option<u64> {
        match self.l3_entry(v) {
            Some(e3) => if entry_present(e3) && !entry_huge(e3) {
                match self.table_entries(entry_phys_base(e3)) {
                    Some(t) => Some(t[level_index(v, 21) as int]),
                    None => None,
                }
            } else {
                None
            },
            None => None,
        }
    }

    /// The level-1 entry reached for `v`, if the walk gets that far.
    pub open spec fn l1_entry(&self, v: u64) -> Option<u64> {
        match self.l2_entry(v) {
            Some(e2) => if entry_present(e2) && !entry_huge(e2) {
                match self.table_entries(entry_phys_base(e2)) {
                    Some(t) => Some(t[level_index(v, 12) as int]),
                    None => None,
                }
            } else {
                None
            },
            None => None,
        }
    }

    /// What the four-level walk yields for `v`.
    pub open spec fn spec_translate(&self, v: u64) -> TranslateResult {
        match self.l4_entry(v) {
            None => TranslateResult::NotPresent,
            Some(e4) => if !entry_present(e4) {
                TranslateResult::NotPresent
            } else {
                match self.l3_entry(v) {
                    None => TranslateResult::NotPresent,
                    Some(e3) => if !entry_present(e3) {
                        TranslateResult::NotPresent
                    } else if entry_huge(e3) {
                        TranslateResult::UnsupportedHugeFrame
                    } else {
                        match self.l2_entry(v) {
                            None => TranslateResult::NotPresent,
                            Some(e2) => if !entry_present(e2) {
                                TranslateResult::NotPresent
                            } else if entry_huge(e2) {
                                TranslateResult::UnsupportedHugeFrame
                            } else {
                                match self.l1_entry(v) {
                                    None => TranslateResult::NotPresent,
                                    Some(e1) => if !entry_present(e1) {
                                        TranslateResult::NotPresent
                                    } else {
                                        TranslateResult::Mapped(
                                            (entry_phys_base(e1) + page_offset(v)) as u64,
                                        )
                                    },
                                }
                            },
                        }
                    },
                }
            },
        }
    }

    /// An empty view rooted at the given level-4 base address.
    pub fn new(l4_base: u64) -> (pt: Self)
        ensures
            pt.l4_base_spec() == l4_base,
            pt.tables_spec() =~= Seq::<PageTable>::empty(),
            pt.wf(),
    {
        PageTableView { l4_base, tables: Vec::new() }
    }

    /// Record the 512 entries read from the table at physical address `base`.
    pub fn add_table(&mut self, base: u64, entries: Vec<u64>)
        requires
            old(self).wf(),
            entries@.len() == 512,
        ensures
            final(self).wf(),
            final(self).l4_base_spec() == old(self).l4_base_spec(),
            final(self).tables_spec() == old(self).tables_spec().push(
                (PageTable { base, entries: entries }),
            ),
    {
        self.tables.push(PageTable { base, entries });
        proof {
            assert forall|i: int| 0 <= i < self.tables_spec().len()
                implies (#[trigger] self.tables_spec()[i]).entries@.len() == 512 by {
                if i < old(self).tables_spec().len() {
                    assert(self.tables_spec()[i] == old(self).tables_spec()[i]);
                }
            }
        }
    }

    fn find_table(&self, base: u64) -> (r: Option<&PageTable>)
        requires
            self.wf(),
        ensures
            match r {
                Some(t) => self.table_entries(base) == Some(t.entries@)
                    && t.entries@.len() == 512,
                None => self.table_entries(base) is None,
            },
    {
        let mut i: usize = 0;
        proof {
            assert(self.tables_spec().skip(0) =~= self.tables_spec());
        }
        while i < self.tables.len()
            invariant
                self.wf(),
                i <= self.tables_spec().len(),
                self.table_entries(base) == find_table_in(
                    self.tables_spec().skip(i as int),
                    base,
                ),
            decreases self.tables_spec().len() - i,
        {
            proof {
                assert(self.tables_spec().skip(i as int)[0] == self.tables_spec()[i as int]);
                assert(self.tables_spec().skip(i as int).skip(1) =~= self.tables_spec().skip(
                    i as int + 1,
                ));
            }
            if self.tables[i].base == base {
                proof {
                    assert(self.tables_spec().skip(i as int).len() > 0);
                    assert(find_table_in(self.tables_spec().skip(i as int), base) == Some(
                        self.tables_spec()[i as int].entries@,
                    ));
                    assert(self.tables_spec()[i as int].entries@.len() == 512);
                }
                return Some(&self.tables[i]);
            }
            i = i + 1;
        }
        None
    }

    /// Walks all four levels for `v` and returns the physical address with
    /// the page offset carried over, or the typed failure the walk met.
    pub fn translate(&self, v: u64) -> (r: TranslateResult)
        requires
            self.wf(),
        ensures
            r == self.spec_translate(v),
    {
        let t4 = match self.find_table(self.l4_base) {
            Some(t) => t,
            None => {
                return TranslateResult::NotPresent;
            },
        };
        assert((v >> 39) & 0x1ff < 512) by (bit_vector);
        let i4 = ((v >> 39) & 0x1ff) as usize;
        let e4 = t4.entries[i4];
        assert(self.l4_entry(v) == Some(e4));
        if e4 & 1 != 1 {
            return TranslateResult::NotPresent;
        }
        let t3 = match self.find_table(e4 & PHYS_ADDR_MASK) {
            Some(t) => t,
            None => {
                return TranslateResult::NotPresent;
            },
        };
        assert((v >> 30) & 0x1ff < 512) by (bit_vector);
        let i3 = ((v >> 30) & 0x1ff) as usize;
        let e3 = t3.entries[i3];
        assert(self.l3_entry(v) == Some(e3));
        if e3 & 1 != 1 {
            return TranslateResult::NotPresent;
        }
        if e3 & 0x80 == 0x80 {
            return TranslateResult::UnsupportedHugeFrame;
        }
        let t2 = match self.find_table(e3 & PHYS_ADDR_MASK) {
            Some(t) => t,
            None => {
                return TranslateResult::NotPresent;
            },
        };
        assert((v >> 21) & 0x1ff < 512) by (bit_vector);
        let i2 = ((v >> 21) & 0x1ff) as usize;
        let e2 = t2.entries[i2];
        assert(self.l2_entry(v) == Some(e2));
        if e2 & 1 != 1 {
            return TranslateResult::NotPresent;
        }
        if e2 & 0x80 == 0x80 {
            return TranslateResult::UnsupportedHugeFrame;
        }
        let t1 = match self.find_table(e2 & PHYS_ADDR_MASK) {
            Some(t) => t,
            None => {
                return TranslateResult::NotPresent;
            },
        };
        assert((v >> 12) & 0x1ff < 512) by (bit_vector);
        let i1 = ((v >> 12) & 0x1ff) as usize;
        let e1 = t1.entries[i1];
        assert(self.l1_entry(v) == Some(e1));
        if e1 & 1 != 1 {
            return TranslateResult::NotPresent;
        }
        let base = e1 & PHYS_ADDR_MASK;
        let offset = v & 0xfff;
        assert((e1 & 0x000f_ffff_ffff_f000u64) + (v & 0xfffu64) <= 0x000f_ffff_ffff_ffffu64)
            by (bit_vector);
        TranslateResult::Mapped(base + offset)
    }
}

/// Physical base address of the active level-4 table, as held in the low
/// bits of the table-base register value.
pub fn level_4_table_base(table_base_register: u64) -> (r: u64)
    ensures
        r == table_base_register & 0x000f_ffff_ffff_f000,
{
    table_base_register & PHYS_ADDR_MASK
}

/// Virtual address at which a physical address is reachable through the
/// fixed physical-memory offset, or `None` if the sum leaves the address
/// space.
pub fn physical_to_virtual(phys_mem_offset: u64, phys: u64) -> (r: Option<u64>)
    ensures
        phys_mem_offset + phys <= u64::MAX ==> r == Some((phys_mem_offset + phys) as u64),
        phys_mem_offset + phys > u64::MAX ==> r is None,
{
    if phys <= u64::MAX - phys_mem_offset {
        Some(phys_mem_offset + phys)
    } else {
        None
    }
}

/// A successful translation preserves the intra-page offset exactly: the low
/// twelve bits of the physical address equal those of the virtual address.
pub proof fn lemma_translate_preserves_offset(pt: &PageTableView, v: u64)
    ensures
        pt.spec_translate(v) matches TranslateResult::Mapped(p) ==> p % 4096 == v % 4096,
{
    if pt.spec_translate(v) is Mapped {
        match pt.l1_entry(v) {
            Some(e1) => {
                assert(((e1 & 0x000f_ffff_ffff_f000u64) + (v & 0xfffu64)) as u64 % 4096 == v
                    % 4096) by (bit_vector);
            },
            None => {
                assert(false);
            },
        }
    }
}

/// A walk that meets an absent entry at any level reports `NotPresent`, and
/// a `Mapped` result is never fabricated: it arises only from a walk whose
/// four entries are all present, with no huge mapping in the way, and its
/// value is the frame base of the final entry plus the page offset.
pub proof fn lemma_translate_not_present(pt: &PageTableView, v: u64)
    ensures
        pt.l4_entry(v) is None ==> pt.spec_translate(v) is NotPresent,
        (pt.l4_entry(v) matches Some(e) && !entry_present(e)) ==> pt.spec_translate(v)
            is NotPresent,
        (pt.l3_entry(v) matches Some(e) && !entry_present(e)) ==> pt.spec_translate(v)
            is NotPresent,
        (pt.l2_entry(v) matches Some(e) && !entry_present(e)) ==> pt.spec_translate(v)
            is NotPresent,
        (pt.l1_entry(v) matches Some(e) && !entry_present(e)) ==> pt.spec_translate(v)
            is NotPresent,
        pt.spec_translate(v) is Mapped ==> {
            &&& pt.l4_entry(v) matches Some(e4) && entry_present(e4)
            &&& pt.l3_entry(v) matches Some(e3) && entry_present(e3) && !entry_huge(e3)
            &&& pt.l2_entry(v) matches Some(e2) && entry_present(e2) && !entry_huge(e2)
            &&& pt.l1_entry(v) matches Some(e1) && entry_present(e1)
                && pt.spec_translate(v) == TranslateResult::Mapped(
                (entry_phys_base(e1) + page_offset(v)) as u64,
            )
        },
{
}

} // verus!
