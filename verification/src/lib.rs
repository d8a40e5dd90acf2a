//! Core of a minimal bare-metal x86_64 kernel: descriptor tables (GDT/TSS),
//! the interrupt vector table and its trap dispatcher, the chained-PIC
//! interrupt controller, and the paging bootstrap (virtual-to-physical
//! translation and physical-frame allocation from a firmware memory map).
//!
//! Everything here works on a plain-value model of the machine state; the
//! privileged instructions that install the tables, program the controller
//! ports and read control registers live outside this crate and consume the
//! values produced here.

pub mod boot;
pub mod gdt;
pub mod ints;
pub mod mem;
pub mod monitor;
pub mod paging;
pub mod test_runner;
