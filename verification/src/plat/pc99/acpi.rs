//! ACPI table walker.
//!
//! Hardware topology is discovered by scanning a fixed legacy physical
//! range for the checksummed RSDP root pointer, following it to the RSDT
//! root table, and walking the RSDT's 32-bit entry pointers and the MADT's
//! variable-length sub-entries. Every record is materialized through a
//! vspace window with bounds-checked field-by-field decoding: a
//! materialization that would exceed the window or the held memory degrades
//! discovery to "no further entries", never to invalid data.

use vstd::prelude::*;

use crate::mem::PhysMem;
use crate::types::PAddr;
use crate::vspace::window::{
    materialize_at, spec_can_materialize_at, VSpaceWindow, WireRecord,
};

verus! {

/// The 8-byte RSDP signature `"RSD PTR "`, packed little-endian.
pub const RSD_PTR_SIGNATURE: u64 = 0x2052_5450_2044_5352;

/// The 4-byte table signature `"APIC"` of the MADT, packed little-endian.
pub const APIC_SIGNATURE: u32 = 0x4349_5041;

/// Start of the legacy BIOS range scanned for the RSDP.
pub const RSDP_SCAN_START: u64 = 0xE0000;

/// Number of 16-byte scan steps in the legacy BIOS range, which ends at
/// 0x100000.
pub const RSDP_SCAN_STEPS: u64 = 0x2000;

/// Wire size of the RSDP record.
pub const RSDP_SIZE: u64 = 36;

/// Wire size of a general ACPI header.
pub const ACPI_HEADER_SIZE: u64 = 36;

/// Wire size of the fixed part of the MADT.
pub const MADT_SIZE: u64 = 44;

/// Number of RSDP bytes covered by its checksum.
pub const RSDP_CHECKSUM_LEN: u64 = 20;

/// ACPI defined RSDP structure: the ephemeral root pointer record, located
/// by signature and checksum, used only to reach the RSDT. Multi-byte text
/// fields are held packed little-endian.
#[derive(Clone, Copy, Debug)]
pub struct RSDP {
    /// The 8 signature bytes, packed little-endian.
    pub signature: u64,
    pub checksum: u8,
    /// The 6 OEM id bytes, packed little-endian.
    pub oem_id: u64,
    pub revision: u8,
    pub rsdt_address: u32,
    pub length: u32,
    pub xsdt_address: u64,
    pub extended_checksum: u8,
}

impl WireRecord for RSDP {
    open spec fn spec_size() -> usize {
        36
    }

    open spec fn is_decode_of(self, m: PhysMem, p: int) -> bool {
        &&& self.signature == m.spec_le64(p)
        &&& self.checksum == m.byte_at(p + 8)
        &&& self.oem_id == m.spec_le32(p + 9) + m.spec_le16(p + 13) * 0x1_0000_0000
        &&& self.revision == m.byte_at(p + 15)
        &&& self.rsdt_address == m.spec_le32(p + 16)
        &&& self.length == m.spec_le32(p + 20)
        &&& self.xsdt_address == m.spec_le64(p + 24)
        &&& self.extended_checksum == m.byte_at(p + 32)
    }

    fn wire_size() -> usize {
        36
    }

    fn decode_at(mem: &PhysMem, p: u64) -> Self {
        RSDP {
            signature: mem.read_u64(p),
            checksum: mem.read_u8(p + 8),
            oem_id: mem.read_u32(p + 9) as u64 + (mem.read_u16(p + 13) as u64) * 0x1_0000_0000,
            revision: mem.read_u8(p + 15),
            rsdt_address: mem.read_u32(p + 16),
            length: mem.read_u32(p + 20),
            xsdt_address: mem.read_u64(p + 24),
            extended_checksum: mem.read_u8(p + 32),
        }
    }
}

/// General ACPI header that starts every system description table.
/// Multi-byte text fields are held packed little-endian.
#[derive(Clone, Copy, Debug)]
pub struct ACPIHeader {
    /// The 4 signature bytes, packed little-endian.
    pub signature: u32,
    pub length: u32,
    pub revision: u8,
    pub checksum: u8,
    /// The 6 OEM id bytes, packed little-endian.
    pub oem_id: u64,
    /// The 8 OEM table id bytes, packed little-endian.
    pub oem_table_id: u64,
    pub oem_revision: u32,
    pub creator_id: u32,
    pub creator_revision: u32,
}

impl WireRecord for ACPIHeader {
    open spec fn spec_size() -> usize {
        36
    }

    open spec fn is_decode_of(self, m: PhysMem, p: int) -> bool {
        &&& self.signature == m.spec_le32(p)
        &&& self.length == m.spec_le32(p + 4)
        &&& self.revision == m.byte_at(p + 8)
        &&& self.checksum == m.byte_at(p + 9)
        &&& self.oem_id == m.spec_le32(p + 10) + m.spec_le16(p + 14) * 0x1_0000_0000
        &&& self.oem_table_id == m.spec_le64(p + 16)
        &&& self.oem_revision == m.spec_le32(p + 24)
        &&& self.creator_id == m.spec_le32(p + 28)
        &&& self.creator_revision == m.spec_le32(p + 32)
    }

    fn wire_size() -> usize {
        36
    }

    fn decode_at(mem: &PhysMem, p: u64) -> Self {
        ACPIHeader {
            signature: mem.read_u32(p),
            length: mem.read_u32(p + 4),
            revision: mem.read_u8(p + 8),
            checksum: mem.read_u8(p + 9),
            oem_id: mem.read_u32(p + 10) as u64 + (mem.read_u16(p + 14) as u64) * 0x1_0000_0000,
            oem_table_id: mem.read_u64(p + 16),
            oem_revision: mem.read_u32(p + 24),
            creator_id: mem.read_u32(p + 28),
            creator_revision: mem.read_u32(p + 32),
        }
    }
}

/// General MADT sub-entry header: each sub-entry declares its own type and
/// length.
#[derive(Clone, Copy, Debug)]
pub struct MADTHeader {
    pub madt_type: u8,
    pub length: u8,
}

impl WireRecord for MADTHeader {
    open spec fn spec_size() -> usize {
        2
    }

    open spec fn is_decode_of(self, m: PhysMem, p: int) -> bool {
        &&& self.madt_type == m.byte_at(p)
        &&& self.length == m.byte_at(p + 1)
    }

    fn wire_size() -> usize {
        2
    }

    fn decode_at(mem: &PhysMem, p: u64) -> Self {
        MADTHeader { madt_type: mem.read_u8(p), length: mem.read_u8(p + 1) }
    }
}

/// MADT entry describing a CPU.
#[derive(Clone, Copy, Debug)]
pub struct MADTAPIC {
    pub header: MADTHeader,
    pub cpu_id: u8,
    pub apic_id: u8,
    pub flags: u32,
}

impl WireRecord for MADTAPIC {
    open spec fn spec_size() -> usize {
        8
    }

    open spec fn is_decode_of(self, m: PhysMem, p: int) -> bool {
        &&& self.header.is_decode_of(m, p)
        &&& self.cpu_id == m.byte_at(p + 2)
        &&& self.apic_id == m.byte_at(p + 3)
        &&& self.flags == m.spec_le32(p + 4)
    }

    fn wire_size() -> usize {
        8
    }

    fn decode_at(mem: &PhysMem, p: u64) -> Self {
        MADTAPIC {
            header: MADTHeader::decode_at(mem, p),
            cpu_id: mem.read_u8(p + 2),
            apic_id: mem.read_u8(p + 3),
            flags: mem.read_u32(p + 4),
        }
    }
}

/// MADT entry describing an I/O APIC.
#[derive(Clone, Copy, Debug)]
pub struct MADTIOAPIC {
    pub header: MADTHeader,
    pub ioapic_id: u8,
    pub reserved: u8,
    pub addr: u32,
    pub gsib: u32,
}

impl WireRecord for MADTIOAPIC {
    open spec fn spec_size() -> usize {
        12
    }

    open spec fn is_decode_of(self, m: PhysMem, p: int) -> bool {
        &&& self.header.is_decode_of(m, p)
        &&& self.ioapic_id == m.byte_at(p + 2)
        &&& self.reserved == m.byte_at(p + 3)
        &&& self.addr == m.spec_le32(p + 4)
        &&& self.gsib == m.spec_le32(p + 8)
    }

    fn wire_size() -> usize {
        12
    }

    fn decode_at(mem: &PhysMem, p: u64) -> Self {
        MADTIOAPIC {
            header: MADTHeader::decode_at(mem, p),
            ioapic_id: mem.read_u8(p + 2),
            reserved: mem.read_u8(p + 3),
            addr: mem.read_u32(p + 4),
            gsib: mem.read_u32(p + 8),
        }
    }
}

/// MADT entry describing an interrupt source override.
#[derive(Clone, Copy, Debug)]
pub struct MADTISO {
    pub header: MADTHeader,
    pub bus: u8,
    pub source: u8,
    pub gsi: u32,
    pub flags: u16,
}

impl WireRecord for MADTISO {
    open spec fn spec_size() -> usize {
        10
    }

    open spec fn is_decode_of(self, m: PhysMem, p: int) -> bool {
        &&& self.header.is_decode_of(m, p)
        &&& self.bus == m.byte_at(p + 2)
        &&& self.source == m.byte_at(p + 3)
        &&& self.gsi == m.spec_le32(p + 4)
        &&& self.flags == m.spec_le16(p + 8)
    }

    fn wire_size() -> usize {
        10
    }

    fn decode_at(mem: &PhysMem, p: u64) -> Self {
        MADTISO {
            header: MADTHeader::decode_at(mem, p),
            bus: mem.read_u8(p + 2),
            source: mem.read_u8(p + 3),
            gsi: mem.read_u32(p + 4),
            flags: mem.read_u16(p + 8),
        }
    }
}

/// The fixed part of the MADT as it is reached from the RSDT; an implicit
/// variable-length sequence of sub-entries follows it in memory, reachable
/// through [`MADT::iter`]. `base` remembers the physical address the table
/// was materialized at, so the sub-entry walk knows where the tail starts.
#[derive(Clone, Copy, Debug)]
pub struct MADT {
    pub header: ACPIHeader,
    pub apic_addr: u32,
    pub flags: u32,
    /// Physical address this table was materialized at.
    pub base: PAddr,
}

impl WireRecord for MADT {
    open spec fn spec_size() -> usize {
        44
    }

    open spec fn is_decode_of(self, m: PhysMem, p: int) -> bool {
        &&& self.header.is_decode_of(m, p)
        &&& self.apic_addr == m.spec_le32(p + 36)
        &&& self.flags == m.spec_le32(p + 40)
        &&& self.base.0 == p
    }

    fn wire_size() -> usize {
        44
    }

    fn decode_at(mem: &PhysMem, p: u64) -> Self {
        MADT {
            header: ACPIHeader::decode_at(mem, p),
            apic_addr: mem.read_u32(p + 36),
            flags: mem.read_u32(p + 40),
            base: PAddr(p),
        }
    }
}

/// Sum of the `len` bytes starting at physical address `p`.
pub open spec fn spec_sum_bytes(m: PhysMem, p: int, len: nat) -> int
    decreases len,
{
    if len == 0 {
        0
    } else {
        spec_sum_bytes(m, p, (len - 1) as nat) + m.byte_at(p + len - 1)
    }
}

/// Perform a checksum over the requested range: the range is accepted
/// exactly when the unsigned sum of its bytes is 0 modulo 256.
pub fn checksum(mem: &PhysMem, p: u64, len: u64) -> (r: bool)
    requires
        mem.inv(),
        mem.spec_covers(p as int, len as int),
    ensures
        r <==> spec_sum_bytes(*mem, p as int, len as nat) % 256 == 0,
{
    let mut sum: u8 = 0;
    let mut i: u64 = 0;
    while i < len
        invariant
            0 <= i <= len,
            mem.inv(),
            mem.spec_covers(p as int, len as int),
            sum as int == spec_sum_bytes(*mem, p as int, i as nat) % 256,
        decreases len - i,
    {
        let b = mem.read_u8(p + i);
        proof {
            let s = spec_sum_bytes(*mem, p as int, i as nat);
            assert((s % 256 + b) % 256 == (s + b) % 256) by (nonlinear_arith);
        }
        sum = sum.wrapping_add(b);
        i = i + 1;
    }
    sum == 0
}

/// If two memories differ in exactly one byte of a range, the byte sums of
/// that range differ by exactly the difference of that byte.
proof fn lemma_sum_bytes_one_change(m1: PhysMem, m2: PhysMem, p: int, len: nat, i: int)
    requires
        forall|j: int| p <= j < p + len && j != i ==> m1.byte_at(j) == m2.byte_at(j),
    ensures
        p <= i < p + len ==> spec_sum_bytes(m2, p, len) == spec_sum_bytes(m1, p, len) + (m2.byte_at(
            i,
        ) - m1.byte_at(i)),
        !(p <= i < p + len) ==> spec_sum_bytes(m2, p, len) == spec_sum_bytes(m1, p, len),
    decreases len,
{
    if len > 0 {
        lemma_sum_bytes_one_change(m1, m2, p, (len - 1) as nat, i);
    }
}

/// A checksum-accepted range stops being accepted under any change of a
/// single one of its bytes — in particular under any single bit flip.
pub proof fn lemma_checksum_single_byte_change(m1: PhysMem, m2: PhysMem, p: int, len: nat, i: int)
    requires
        p <= i < p + len,
        m1.byte_at(i) != m2.byte_at(i),
        forall|j: int| p <= j < p + len && j != i ==> m1.byte_at(j) == m2.byte_at(j),
        spec_sum_bytes(m1, p, len) % 256 == 0,
    ensures
        spec_sum_bytes(m2, p, len) % 256 != 0,
{
    lemma_sum_bytes_one_change(m1, m2, p, len, i);
    let s1 = spec_sum_bytes(m1, p, len);
    let s2 = spec_sum_bytes(m2, p, len);
    let delta = m2.byte_at(i) - m1.byte_at(i);
    assert(-255 <= delta <= 255 && delta != 0);
    assert(s2 % 256 != 0) by (nonlinear_arith)
        requires
            s2 == s1 + delta,
            s1 % 256 == 0,
            -255 <= delta <= 255,
            delta != 0,
    ;
}

/// The RSDP candidate at physical address `p` is accepted: it can be
/// materialized through the window, carries the `"RSD PTR "` signature, and
/// its first 20 bytes pass the checksum.
pub open spec fn spec_rsdp_ok<W: VSpaceWindow>(w: W, m: PhysMem, p: int) -> bool {
    &&& spec_can_materialize_at::<W>(w, m, p, RSDP_SIZE as int)
    &&& m.spec_le64(p) == RSD_PTR_SIGNATURE
    &&& spec_sum_bytes(m, p, RSDP_CHECKSUM_LEN as nat) % 256 == 0
}

/// Result of the RSDP scan starting at step `k` of the legacy range: the
/// address of the first accepted candidate. The scan stops early — with no
/// result — at the first candidate that cannot be materialized.
pub open spec fn spec_find_rsdp_from<W: VSpaceWindow>(w: W, m: PhysMem, k: int) -> Option<int>
    decreases RSDP_SCAN_STEPS - k,
{
    if !(0 <= k < RSDP_SCAN_STEPS) {
        None
    } else {
        let p = RSDP_SCAN_START + 16 * k;
        if !spec_can_materialize_at::<W>(w, m, p, RSDP_SIZE as int) {
            None
        } else if m.spec_le64(p) == RSD_PTR_SIGNATURE && spec_sum_bytes(
            m,
            p,
            RSDP_CHECKSUM_LEN as nat,
        ) % 256 == 0 {
            Some(p)
        } else {
            spec_find_rsdp_from::<W>(w, m, k + 1)
        }
    }
}

/// Find the RSDP by walking the legacy BIOS region in 16-byte steps: each
/// candidate is materialized through the window and validated by signature
/// and whole-structure checksum; the first valid match wins and scanning
/// stops there. A candidate that cannot be materialized ends the scan with
/// no result.
pub fn find_rsdp<W: VSpaceWindow>(window: &W, mem: &PhysMem) -> (r: Option<(PAddr, RSDP)>)
    requires
        mem.inv(),
    ensures
        match r {
            Some(found) => spec_find_rsdp_from::<W>(*window, *mem, 0) == Some(found.0.0 as int)
                && found.1.is_decode_of(*mem, found.0.0 as int) && spec_rsdp_ok::<W>(
                *window,
                *mem,
                found.0.0 as int,
            ),
            None => spec_find_rsdp_from::<W>(*window, *mem, 0) is None,
        },
{
    let mut k: u64 = 0;
    while k < RSDP_SCAN_STEPS
        invariant
            0 <= k <= RSDP_SCAN_STEPS,
            mem.inv(),
            spec_find_rsdp_from::<W>(*window, *mem, 0) == spec_find_rsdp_from::<W>(
                *window,
                *mem,
                k as int,
            ),
        decreases RSDP_SCAN_STEPS - k,
    {
        let p = RSDP_SCAN_START + 16 * k;
        let candidate: RSDP = match materialize_at::<RSDP, W>(window, mem, PAddr(p)) {
            Some(c) => c,
            None => {
                return None;
            },
        };
        if candidate.signature == RSD_PTR_SIGNATURE && checksum(mem, p, RSDP_CHECKSUM_LEN) {
            return Some((PAddr(p), candidate));
        }
        k = k + 1;
    }
    None
}

/// Enumeration of the different RSDT tables: an entry whose header carries
/// the `"APIC"` signature is reinterpreted, with its own bounds check, as
/// the richer MADT view; anything else surfaces as an unrecognized header.
#[derive(Clone, Copy, Debug)]
pub enum RSDTTable {
    MADT(MADT),
    Unknown(ACPIHeader),
}

/// Enumeration of the different possible MADT sub-entries.
#[derive(Clone, Copy, Debug)]
pub enum MADTTable {
    APIC(MADTAPIC),
    IOAPIC(MADTIOAPIC),
    ISO(MADTISO),
    Unknown(MADTHeader),
}

/// Pull the MADT out of an RSDT entry, discarding anything else.
pub fn extract_madt(header: RSDTTable) -> (r: Option<MADT>)
    ensures
        r is Some <==> header is MADT,
        header matches RSDTTable::MADT(t) ==> r == Some(t),
{
    if let RSDTTable::MADT(madt) = header {
        Some(madt)
    } else {
        None
    }
}

/// Helper struct for iterating over the entries in the RSDT: a finite,
/// restartable lazy walk of the 32-bit entry pointers that follow the RSDT
/// header. A pointer whose table cannot be materialized yields no further
/// entries for that call.
pub struct RSDTIter<'a, W: VSpaceWindow> {
    window: &'a W,
    mem: &'a PhysMem,
    base: PAddr,
    count: u64,
    idx: u64,
}

impl<'a, W: VSpaceWindow> RSDTIter<'a, W> {
    /// The window the tables are materialized through.
    pub closed spec fn spec_window(&self) -> W {
        *self.window
    }

    /// The memory the tables are read from.
    pub closed spec fn spec_mem(&self) -> PhysMem {
        *self.mem
    }

    /// Physical address of the first 32-bit entry pointer.
    pub closed spec fn spec_base(&self) -> int {
        self.base.0 as int
    }

    /// Number of entry pointers.
    pub closed spec fn spec_count(&self) -> int {
        self.count as int
    }

    /// Index of the next entry pointer to read.
    pub closed spec fn spec_idx(&self) -> int {
        self.idx as int
    }

    /// The held memory is sound and the whole pointer array was validated
    /// against window and memory when the iterator was built.
    pub closed spec fn wf(&self) -> bool {
        &&& self.mem.inv()
        &&& self.idx <= self.count
        &&& self.count == 0 || spec_can_materialize_at::<W>(
            *self.window,
            *self.mem,
            self.base.0 as int,
            4 * self.count,
        )
    }

    /// Classify the next RSDT entry, advancing past it.
    ///
    /// Consumes one 32-bit pointer; the pointed-to header is materialized
    /// and classified by signature. Yields `None` when the pointers are
    /// exhausted, and also — with the pointer consumed — when the entry or
    /// its MADT view cannot be materialized.
    pub fn next(&mut self) -> (r: Option<RSDTTable>)
        requires
            old(self).wf(),
        ensures
            final(self).wf(),
            final(self).spec_window() == old(self).spec_window(),
            final(self).spec_mem() == old(self).spec_mem(),
            final(self).spec_base() == old(self).spec_base(),
            final(self).spec_count() == old(self).spec_count(),
            ({
                let w = old(self).spec_window();
                let m = old(self).spec_mem();
                let base = old(self).spec_base();
                let count = old(self).spec_count();
                let idx = old(self).spec_idx();
                if idx >= count {
                    r is None && final(self).spec_idx() == idx
                } else {
                    let ptr = m.spec_le32(base + 4 * idx) as int;
                    final(self).spec_idx() == idx + 1 && (if !spec_can_materialize_at::<W>(
                        w,
                        m,
                        ptr,
                        ACPI_HEADER_SIZE as int,
                    ) {
                        r is None
                    } else if m.spec_le32(ptr) == APIC_SIGNATURE {
                        if spec_can_materialize_at::<W>(w, m, ptr, MADT_SIZE as int) {
                            (r matches Some(RSDTTable::MADT(t)) && t.is_decode_of(m, ptr))
                        } else {
                            r is None
                        }
                    } else {
                        (r matches Some(RSDTTable::Unknown(h)) && h.is_decode_of(m, ptr))
                    })
                }
            }),
    {
        if self.idx >= self.count {
            return None;
        }
        let ptr_raw = self.mem.read_u32(self.base.0 + 4 * self.idx);
        self.idx = self.idx + 1;
        let ptr = PAddr(ptr_raw as u64);
        let hdr: ACPIHeader = match materialize_at::<ACPIHeader, W>(self.window, self.mem, ptr) {
            Some(h) => h,
            None => {
                return None;
            },
        };
        if hdr.signature == APIC_SIGNATURE {
            match materialize_at::<MADT, W>(self.window, self.mem, ptr) {
                Some(t) => Some(RSDTTable::MADT(t)),
                None => None,
            }
        } else {
            Some(RSDTTable::Unknown(hdr))
        }
    }
}

/// Where the MADT sub-entry walk stands after advancing by a declared
/// length: the address saturates at the top of the address space, past any
/// table end, so the walk stops there.
pub open spec fn spec_madt_advance(start: int, len: int) -> int {
    if start + len <= u64::MAX {
        start + len
    } else {
        u64::MAX as int
    }
}

/// Helper struct for iterating over the sub-entries inside an MADT: walks
/// the variable-length tail after the fixed MADT header, each sub-entry
/// declaring its own type and length, until the declared table end.
pub struct MADTIter<'a, W: VSpaceWindow> {
    window: &'a W,
    mem: &'a PhysMem,
    start: PAddr,
    end: PAddr,
}

impl<'a, W: VSpaceWindow> MADTIter<'a, W> {
    /// The window the sub-entries are materialized through.
    pub closed spec fn spec_window(&self) -> W {
        *self.window
    }

    /// The memory the sub-entries are read from.
    pub closed spec fn spec_mem(&self) -> PhysMem {
        *self.mem
    }

    /// Physical address of the next sub-entry.
    pub closed spec fn spec_start(&self) -> int {
        self.start.0 as int
    }

    /// Physical address just past the declared end of the table.
    pub closed spec fn spec_end(&self) -> int {
        self.end.0 as int
    }

    /// The held memory is sound.
    pub closed spec fn wf(&self) -> bool {
        self.mem.inv()
    }

    /// Decode the next MADT sub-entry, advancing by its declared length.
    ///
    /// Yields `None` once the walk reaches the declared table end, and also
    /// when a sub-entry header — or the full record its type declares —
    /// cannot be materialized, or when a sub-entry declares a length
    /// shorter than its own two-byte header: such an entry is malformed
    /// and could not advance the walk, so discovery degrades to no further
    /// entries instead. Dispatch is by the declared type. Every yielded
    /// entry strictly advances the walk, so the sub-entry sequence is
    /// finite.
    pub fn next(&mut self) -> (r: Option<MADTTable>)
        requires
            old(self).wf(),
        ensures
            final(self).wf(),
            final(self).spec_window() == old(self).spec_window(),
            final(self).spec_mem() == old(self).spec_mem(),
            final(self).spec_end() == old(self).spec_end(),
            r is Some ==> final(self).spec_start() > old(self).spec_start(),
            ({
                let w = old(self).spec_window();
                let m = old(self).spec_mem();
                let start = old(self).spec_start();
                let end = old(self).spec_end();
                if start >= end {
                    r is None && final(self).spec_start() == start
                } else if !spec_can_materialize_at::<W>(w, m, start, 2) {
                    r is None && final(self).spec_start() == start
                } else if m.byte_at(start + 1) < 2 {
                    r is None && final(self).spec_start() == start
                } else {
                    let ty = m.byte_at(start);
                    let len = m.byte_at(start + 1);
                    final(self).spec_start() == spec_madt_advance(start, len as int) && (if ty == 0 {
                        if spec_can_materialize_at::<W>(w, m, start, 8) {
                            (r matches Some(MADTTable::APIC(t)) && t.is_decode_of(m, start))
                        } else {
                            r is None
                        }
                    } else if ty == 1 {
                        if spec_can_materialize_at::<W>(w, m, start, 12) {
                            (r matches Some(MADTTable::IOAPIC(t)) && t.is_decode_of(m, start))
                        } else {
                            r is None
                        }
                    } else if ty == 2 {
                        if spec_can_materialize_at::<W>(w, m, start, 10) {
                            (r matches Some(MADTTable::ISO(t)) && t.is_decode_of(m, start))
                        } else {
                            r is None
                        }
                    } else {
                        (r matches Some(MADTTable::Unknown(h)) && h.is_decode_of(m, start))
                    })
                }
            }),
    {
        if self.start.0 >= self.end.0 {
            return None;
        }
        let start = self.start;
        let h: MADTHeader = match materialize_at::<MADTHeader, W>(self.window, self.mem, start) {
            Some(h) => h,
            None => {
                return None;
            },
        };
        if h.length < 2 {
            // a declared length below the header's own size cannot advance
            // the walk: the entry is malformed, discovery ends here
            return None;
        }
        let len = h.length as u64;
        self.start = PAddr(
            if len <= u64::MAX - start.0 {
                start.0 + len
            } else {
                u64::MAX
            },
        );
        match h.madt_type {
            0 => match materialize_at::<MADTAPIC, W>(self.window, self.mem, start) {
                Some(t) => Some(MADTTable::APIC(t)),
                None => None,
            },
            1 => match materialize_at::<MADTIOAPIC, W>(self.window, self.mem, start) {
                Some(t) => Some(MADTTable::IOAPIC(t)),
                None => None,
            },
            2 => match materialize_at::<MADTISO, W>(self.window, self.mem, start) {
                Some(t) => Some(MADTTable::ISO(t)),
                None => None,
            },
            _ => Some(MADTTable::Unknown(h)),
        }
    }
}

/// ACPI walker state: the window and memory the tables live in, plus the
/// materialized RSDT header and the physical address of the RSDT's entry
/// pointer array.
pub struct ACPI<'a, W: VSpaceWindow> {
    window: &'a W,
    mem: &'a PhysMem,
    rsdt_header: ACPIHeader,
    rsdt_table: PAddr,
}

impl<'a, W: VSpaceWindow> ACPI<'a, W> {
    /// The window the tables are materialized through.
    pub closed spec fn spec_window(&self) -> W {
        *self.window
    }

    /// The memory the tables are read from.
    pub closed spec fn spec_mem(&self) -> PhysMem {
        *self.mem
    }

    /// The materialized RSDT header.
    pub closed spec fn spec_rsdt_header(&self) -> ACPIHeader {
        self.rsdt_header
    }

    /// Physical address of the first RSDT entry pointer.
    pub closed spec fn spec_rsdt_table(&self) -> int {
        self.rsdt_table.0 as int
    }

    /// The held memory is sound.
    pub closed spec fn wf(&self) -> bool {
        self.mem.inv()
    }

    /// Try to construct a new ACPI table reference. This fails if no valid
    /// RSDP is found while scanning the legacy BIOS regions — a missing or
    /// checksum-failing root pointer means "no topology found" — or if the
    /// RSDT it points at cannot be materialized through the passed window.
    pub fn new(window: &'a W, mem: &'a PhysMem) -> (r: Option<ACPI<'a, W>>)
        requires
            mem.inv(),
        ensures
            ({
                let f = spec_find_rsdp_from::<W>(*window, *mem, 0);
                match r {
                    Some(acpi) => f matches Some(p) && ({
                        let ra = mem.spec_le32(p + 16) as int;
                        &&& spec_can_materialize_at::<W>(*window, *mem, ra, ACPI_HEADER_SIZE as int)
                        &&& acpi.spec_rsdt_header().is_decode_of(*mem, ra)
                        &&& acpi.spec_rsdt_table() == ra + ACPI_HEADER_SIZE
                        &&& acpi.spec_window() == *window
                        &&& acpi.spec_mem() == *mem
                        &&& acpi.wf()
                    }),
                    None => f is None || (f matches Some(p) && !spec_can_materialize_at::<W>(
                        *window,
                        *mem,
                        mem.spec_le32(p + 16) as int,
                        ACPI_HEADER_SIZE as int,
                    )),
                }
            }),
    {
        let found = match find_rsdp::<W>(window, mem) {
            Some(found) => found,
            None => {
                return None;
            },
        };
        let rsdt_pa = PAddr(found.1.rsdt_address as u64);
        let rsdt: ACPIHeader = match materialize_at::<ACPIHeader, W>(window, mem, rsdt_pa) {
            Some(h) => h,
            None => {
                return None;
            },
        };
        Some(ACPI { window, mem, rsdt_header: rsdt, rsdt_table: PAddr(rsdt_pa.0 + ACPI_HEADER_SIZE) })
    }

    /// Constructs an iterator over all the RSDT entries.
    ///
    /// The number of entries comes from the RSDT header's declared length;
    /// if the whole pointer array cannot be materialized through the
    /// window, the iterator yields nothing.
    pub fn rsdt_iter(&self) -> (r: RSDTIter<'a, W>)
        requires
            self.wf(),
        ensures
            r.wf(),
            r.spec_window() == self.spec_window(),
            r.spec_mem() == self.spec_mem(),
            r.spec_base() == self.spec_rsdt_table(),
            r.spec_idx() == 0,
            ({
                let len = self.spec_rsdt_header().length as int;
                let cnt = if len >= ACPI_HEADER_SIZE {
                    (len - ACPI_HEADER_SIZE) / 4
                } else {
                    0
                };
                r.spec_count() == if cnt > 0 && spec_can_materialize_at::<W>(
                    self.spec_window(),
                    self.spec_mem(),
                    self.spec_rsdt_table(),
                    4 * cnt,
                ) {
                    cnt
                } else {
                    0
                }
            }),
    {
        let len = self.rsdt_header.length;
        let cnt: u64 = if len >= ACPI_HEADER_SIZE as u32 {
            ((len - ACPI_HEADER_SIZE as u32) / 4) as u64
        } else {
            0
        };
        let ok = crate::vspace::window::can_materialize_range::<W>(
            self.window,
            self.mem,
            self.rsdt_table,
            4 * cnt,
        );
        let count = if ok {
            cnt
        } else {
            0
        };
        RSDTIter { window: self.window, mem: self.mem, base: self.rsdt_table, count, idx: 0 }
    }

    /// Constructs an iterator over just the MADT entries in the RSDT: the
    /// results of [`ACPI::rsdt_iter`] filtered down to the MADT view.
    pub fn madt_iter(&self) -> (r: MADTOnlyIter<'a, W>)
        requires
            self.wf(),
        ensures
            r.wf(),
            r.spec_window() == self.spec_window(),
            r.spec_mem() == self.spec_mem(),
            r.spec_base() == self.spec_rsdt_table(),
            r.spec_idx() == 0,
            ({
                let len = self.spec_rsdt_header().length as int;
                let cnt = if len >= ACPI_HEADER_SIZE {
                    (len - ACPI_HEADER_SIZE) / 4
                } else {
                    0
                };
                r.spec_count() == if cnt > 0 && spec_can_materialize_at::<W>(
                    self.spec_window(),
                    self.spec_mem(),
                    self.spec_rsdt_table(),
                    4 * cnt,
                ) {
                    cnt
                } else {
                    0
                }
            }),
    {
        MADTOnlyIter { inner: self.rsdt_iter() }
    }
}

/// Helper struct for iterating over only the MADT entries of the RSDT:
/// wraps the full-table walk and keeps only entries classified as MADT,
/// ending — like the full walk — at the first entry that cannot be
/// materialized.
pub struct MADTOnlyIter<'a, W: VSpaceWindow> {
    inner: RSDTIter<'a, W>,
}

/// Result of the MADT-only walk from pointer index `idx`: the physical
/// address of the first remaining entry that classifies as an MADT,
/// together with the pointer index after the walk. Unrecognized entries
/// are skipped; the walk ends — with no result — at the end of the
/// pointers, and also just past an entry that cannot be materialized.
pub open spec fn spec_madt_filter<W: VSpaceWindow>(
    w: W,
    m: PhysMem,
    base: int,
    count: int,
    idx: int,
) -> (Option<int>, int)
    decreases count - idx,
{
    if idx >= count {
        (None, idx)
    } else {
        let ptr = m.spec_le32(base + 4 * idx) as int;
        if !spec_can_materialize_at::<W>(w, m, ptr, ACPI_HEADER_SIZE as int) {
            (None, idx + 1)
        } else if m.spec_le32(ptr) == APIC_SIGNATURE {
            if spec_can_materialize_at::<W>(w, m, ptr, MADT_SIZE as int) {
                (Some(ptr), idx + 1)
            } else {
                (None, idx + 1)
            }
        } else {
            spec_madt_filter::<W>(w, m, base, count, idx + 1)
        }
    }
}

impl<'a, W: VSpaceWindow> MADTOnlyIter<'a, W> {
    /// The window the tables are materialized through.
    pub closed spec fn spec_window(&self) -> W {
        self.inner.spec_window()
    }

    /// The memory the tables are read from.
    pub closed spec fn spec_mem(&self) -> PhysMem {
        self.inner.spec_mem()
    }

    /// Physical address of the first 32-bit entry pointer.
    pub closed spec fn spec_base(&self) -> int {
        self.inner.spec_base()
    }

    /// Number of entry pointers.
    pub closed spec fn spec_count(&self) -> int {
        self.inner.spec_count()
    }

    /// Index of the next entry pointer to read.
    pub closed spec fn spec_idx(&self) -> int {
        self.inner.spec_idx()
    }

    /// The wrapped full-table walk is well-formed.
    pub closed spec fn wf(&self) -> bool {
        self.inner.wf()
    }

    /// Yield the next MADT of the table, skipping unrecognized entries.
    pub fn next(&mut self) -> (r: Option<MADT>)
        requires
            old(self).wf(),
        ensures
            final(self).wf(),
            final(self).spec_window() == old(self).spec_window(),
            final(self).spec_mem() == old(self).spec_mem(),
            final(self).spec_base() == old(self).spec_base(),
            final(self).spec_count() == old(self).spec_count(),
            ({
                let s = spec_madt_filter::<W>(
                    old(self).spec_window(),
                    old(self).spec_mem(),
                    old(self).spec_base(),
                    old(self).spec_count(),
                    old(self).spec_idx(),
                );
                final(self).spec_idx() == s.1 && (match r {
                    Some(t) => s.0 is Some && t.is_decode_of(old(self).spec_mem(), s.0->0),
                    None => s.0 is None,
                })
            }),
    {
        loop
            invariant
                self.wf(),
                self.spec_window() == old(self).spec_window(),
                self.spec_mem() == old(self).spec_mem(),
                self.spec_base() == old(self).spec_base(),
                self.spec_count() == old(self).spec_count(),
                spec_madt_filter::<W>(
                    self.spec_window(),
                    self.spec_mem(),
                    self.spec_base(),
                    self.spec_count(),
                    self.spec_idx(),
                ) == spec_madt_filter::<W>(
                    old(self).spec_window(),
                    old(self).spec_mem(),
                    old(self).spec_base(),
                    old(self).spec_count(),
                    old(self).spec_idx(),
                ),
            decreases self.spec_count() - self.spec_idx(),
        {
            match self.inner.next() {
                None => {
                    return None;
                },
                Some(RSDTTable::MADT(t)) => {
                    return Some(t);
                },
                Some(RSDTTable::Unknown(_)) => {},
            }
        }
    }
}

impl MADT {
    /// Construct an iterator over the sub-entries inside this MADT. A
    /// window and the memory must be passed in order to access the bytes
    /// beyond the fixed part of the table.
    pub fn iter<'a, W: VSpaceWindow>(&self, window: &'a W, mem: &'a PhysMem) -> (r: MADTIter<
        'a,
        W,
    >)
        requires
            mem.inv(),
            self.base.0 + MADT_SIZE <= u64::MAX,
            self.base.0 + self.header.length <= u64::MAX,
        ensures
            r.wf(),
            r.spec_window() == *window,
            r.spec_mem() == *mem,
            r.spec_start() == self.base.0 + MADT_SIZE,
            r.spec_end() == self.base.0 + self.header.length,
    {
        MADTIter {
            window,
            mem,
            start: PAddr(self.base.0 + MADT_SIZE),
            end: PAddr(self.base.0 + self.header.length as u64),
        }
    }
}

} // verus!
