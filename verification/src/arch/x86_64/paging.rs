//! Definitions for paging structures.
//!
//! The four levels of the x86_64 page table tree share one layout: 512
//! entries of one machine word each. The entry types come from the x86
//! crate; a fresh table of each level is built with every entry cleared.

use vstd::prelude::*;

verus! {

/// The x86 crate's PML4 entry: a plain wrapper over the raw `u64` entry.
#[verifier::external_type_specification]
#[verifier::external_body]
pub struct ExPML4Entry(x86::bits64::paging::PML4Entry);

/// The x86 crate's PDPT entry: a plain wrapper over the raw `u64` entry.
#[verifier::external_type_specification]
#[verifier::external_body]
pub struct ExPDPTEntry(x86::bits64::paging::PDPTEntry);

/// The x86 crate's PD entry: a plain wrapper over the raw `u64` entry.
#[verifier::external_type_specification]
#[verifier::external_body]
pub struct ExPDEntry(x86::bits64::paging::PDEntry);

/// The x86 crate's PT entry: a plain wrapper over the raw `u64` entry.
#[verifier::external_type_specification]
#[verifier::external_body]
pub struct ExPTEntry(x86::bits64::paging::PTEntry);

/// Relies on x86's `PML4Entry` being a transparent `u64` wrapper whose
/// cleared value carries no flags: a top-level table of 512 empty entries.
#[verifier::external_body]
fn pml4_table_new() -> x86::bits64::paging::PML4 {
    [x86::bits64::paging::PML4Entry(0); 512]
}

/// Relies on x86's `PDPTEntry` being a transparent `u64` wrapper whose
/// cleared value carries no flags: a third-level table of 512 empty entries.
#[verifier::external_body]
fn pdpt_table_new() -> x86::bits64::paging::PDPT {
    [x86::bits64::paging::PDPTEntry(0); 512]
}

/// Relies on x86's `PDEntry` being a transparent `u64` wrapper whose
/// cleared value carries no flags: a second-level table of 512 empty
/// entries.
#[verifier::external_body]
fn pd_table_new() -> x86::bits64::paging::PD {
    [x86::bits64::paging::PDEntry(0); 512]
}

/// Relies on x86's `PTEntry` being a transparent `u64` wrapper whose
/// cleared value carries no flags: a leaf table of 512 empty entries.
#[verifier::external_body]
fn pt_table_new() -> x86::bits64::paging::PT {
    [x86::bits64::paging::PTEntry(0); 512]
}

/// Relies on x86's `PML4` being 512 entries of a transparent `u64`
/// wrapper: a top-level table occupies 4096 bytes.
#[verifier::external_body]
fn pml4_table_size() -> (r: usize)
    ensures
        r == 4096,
        r == vstd::layout::size_of::<x86::bits64::paging::PML4>(),
{
    core::mem::size_of::<x86::bits64::paging::PML4>()
}

/// Relies on x86's `PDPT` being 512 entries of a transparent `u64`
/// wrapper: a third-level table occupies 4096 bytes.
#[verifier::external_body]
fn pdpt_table_size() -> (r: usize)
    ensures
        r == 4096,
        r == vstd::layout::size_of::<x86::bits64::paging::PDPT>(),
{
    core::mem::size_of::<x86::bits64::paging::PDPT>()
}

/// Relies on x86's `PD` being 512 entries of a transparent `u64` wrapper:
/// a second-level table occupies 4096 bytes.
#[verifier::external_body]
fn pd_table_size() -> (r: usize)
    ensures
        r == 4096,
        r == vstd::layout::size_of::<x86::bits64::paging::PD>(),
{
    core::mem::size_of::<x86::bits64::paging::PD>()
}

/// Relies on x86's `PT` being 512 entries of a transparent `u64` wrapper:
/// a leaf table occupies 4096 bytes.
#[verifier::external_body]
fn pt_table_size() -> (r: usize)
    ensures
        r == 4096,
        r == vstd::layout::size_of::<x86::bits64::paging::PT>(),
{
    core::mem::size_of::<x86::bits64::paging::PT>()
}

/// One level of the page table tree: its table layout, the size of a
/// table of it, and how an empty table of it is made.
pub trait Level {
    /// The in-memory table type of this level.
    type Table;

    /// Size in bytes of a table of this level.
    spec fn spec_table_size() -> usize;

    /// A table of this level with every entry cleared.
    fn new() -> Self::Table;

    /// Size in bytes of a table of this level.
    fn table_size() -> (r: usize)
        ensures
            r == Self::spec_table_size(),
            r == vstd::layout::size_of::<Self::Table>(),
    ;
}

/// Marker for the top level of the tree.
pub struct PML4Table;

/// Marker for the third level of the tree.
pub struct PDPTTable;

/// Marker for the second level of the tree.
pub struct PDTable;

/// Marker for the leaf level of the tree.
pub struct PTTable;

impl Level for PML4Table {
    type Table = x86::bits64::paging::PML4;

    open spec fn spec_table_size() -> usize {
        4096
    }

    fn new() -> x86::bits64::paging::PML4 {
        pml4_table_new()
    }

    fn table_size() -> usize {
        pml4_table_size()
    }
}

impl Level for PDPTTable {
    type Table = x86::bits64::paging::PDPT;

    open spec fn spec_table_size() -> usize {
        4096
    }

    fn new() -> x86::bits64::paging::PDPT {
        pdpt_table_new()
    }

    fn table_size() -> usize {
        pdpt_table_size()
    }
}

impl Level for PDTable {
    type Table = x86::bits64::paging::PD;

    open spec fn spec_table_size() -> usize {
        4096
    }

    fn new() -> x86::bits64::paging::PD {
        pd_table_new()
    }

    fn table_size() -> usize {
        pd_table_size()
    }
}

impl Level for PTTable {
    type Table = x86::bits64::paging::PT;

    open spec fn spec_table_size() -> usize {
        4096
    }

    fn new() -> x86::bits64::paging::PT {
        pt_table_new()
    }

    fn table_size() -> usize {
        pt_table_size()
    }
}

/// A page table of one level of the tree.
pub struct Table<L: Level> {
    tables: L::Table,
}

/// The top-level page table.
pub type PML4 = Table<PML4Table>;

/// The third-level page table.
pub type PDPT = Table<PDPTTable>;

/// The second-level page table.
pub type PD = Table<PDTable>;

/// The leaf page table.
pub type PT = Table<PTTable>;

impl<L: Level> Table<L> {
    /// The alignment a table of this level must be allocated at: page
    /// tables are naturally aligned, so it equals their size — one page
    /// for every level.
    pub fn mem_align() -> (r: usize)
        ensures
            r == L::spec_table_size(),
            r == vstd::layout::size_of::<L::Table>(),
    {
        L::table_size()
    }
}

impl<L: Level> Default for Table<L> {
    /// A table with every entry cleared.
    fn default() -> Table<L> {
        Table { tables: L::new() }
    }
}

} // verus!
