//! Model of the physical firmware memory that the bootstrap core reads.
//!
//! The bootstrap core never dereferences raw pointers: every access to
//! loader- or firmware-provided bytes goes through a [`PhysMem`] value, which
//! holds the bytes of one contiguous stretch of physical memory together
//! with the physical address where that stretch starts. Reads are
//! bounds-checked against the held range, so an out-of-range access is a
//! recoverable result, never an invalid read.

use vstd::prelude::*;

verus! {

/// The bytes of one contiguous stretch of physical memory, starting at a
/// known physical address.
pub struct PhysMem {
    base: u64,
    bytes: Vec<u8>,
}

impl PhysMem {
    /// Physical address of the first held byte.
    pub closed spec fn spec_base(&self) -> int {
        self.base as int
    }

    /// The held bytes, index 0 sitting at physical address `spec_base()`.
    pub closed spec fn contents(&self) -> Seq<u8> {
        self.bytes@
    }

    /// The held range stays inside the machine address space.
    pub open spec fn inv(&self) -> bool {
        self.spec_base() + self.contents().len() <= u64::MAX + 1
    }

    /// The physical range `[p, p + n)` lies inside the held bytes.
    pub open spec fn spec_covers(&self, p: int, n: int) -> bool {
        self.spec_base() <= p && p + n <= self.spec_base() + self.contents().len()
    }

    /// The byte at physical address `p`.
    pub open spec fn byte_at(&self, p: int) -> u8 {
        self.contents()[p - self.spec_base()]
    }

    /// Little-endian 16-bit value at physical address `p`.
    pub open spec fn spec_le16(&self, p: int) -> u16 {
        (self.byte_at(p) + self.byte_at(p + 1) * 0x100) as u16
    }

    /// Little-endian 32-bit value at physical address `p`.
    pub open spec fn spec_le32(&self, p: int) -> u32 {
        (self.byte_at(p) + self.byte_at(p + 1) * 0x100 + self.byte_at(p + 2) * 0x1_0000
            + self.byte_at(p + 3) * 0x100_0000) as u32
    }

    /// Little-endian 64-bit value at physical address `p`.
    pub open spec fn spec_le64(&self, p: int) -> u64 {
        (self.spec_le32(p) + self.spec_le32(p + 4) * 0x1_0000_0000) as u64
    }

    /// Wrap a byte buffer as the physical range starting at `base`.
    /// Rejects a buffer that would run past the end of the address space.
    pub fn new(base: u64, bytes: Vec<u8>) -> (r: Option<PhysMem>)
        ensures
            r is Some <==> base + bytes@.len() <= u64::MAX + 1,
            r matches Some(m) ==> m.spec_base() == base && m.contents() == bytes@,
    {
        let len = bytes.len() as u64;
        if len == 0 || base <= u64::MAX - (len - 1) {
            Some(PhysMem { base, bytes })
        } else {
            None
        }
    }

    /// Physical address of the first held byte.
    pub fn base(&self) -> (r: u64)
        ensures
            r == self.spec_base(),
    {
        self.base
    }

    /// Number of held bytes.
    pub fn len(&self) -> (r: usize)
        ensures
            r == self.contents().len(),
    {
        self.bytes.len()
    }

    /// Bounds check: does this memory hold all of `[p, p + n)`?
    pub fn covers(&self, p: u64, n: u64) -> (r: bool)
        requires
            self.inv(),
        ensures
            r == self.spec_covers(p as int, n as int),
    {
        let len = self.bytes.len() as u64;
        p >= self.base && n <= len && p - self.base <= len - n
    }

    /// Read the byte at physical address `p`.
    pub fn read_u8(&self, p: u64) -> (r: u8)
        requires
            self.inv(),
            self.spec_covers(p as int, 1),
        ensures
            r == self.byte_at(p as int),
    {
        let n = self.bytes.len();
        let off = p - self.base;
        proof {
            assert(off < n);
        }
        self.bytes[off as usize]
    }

    /// Read the little-endian 16-bit value at physical address `p`.
    pub fn read_u16(&self, p: u64) -> (r: u16)
        requires
            self.inv(),
            self.spec_covers(p as int, 2),
        ensures
            r == self.spec_le16(p as int),
    {
        self.read_u8(p) as u16 + (self.read_u8(p + 1) as u16) * 0x100
    }

    /// Read the little-endian 32-bit value at physical address `p`.
    pub fn read_u32(&self, p: u64) -> (r: u32)
        requires
            self.inv(),
            self.spec_covers(p as int, 4),
        ensures
            r == self.spec_le32(p as int),
    {
        self.read_u8(p) as u32 + (self.read_u8(p + 1) as u32) * 0x100 + (self.read_u8(p + 2)
            as u32) * 0x1_0000 + (self.read_u8(p + 3) as u32) * 0x100_0000
    }

    /// Read the little-endian 64-bit value at physical address `p`.
    pub fn read_u64(&self, p: u64) -> (r: u64)
        requires
            self.inv(),
            self.spec_covers(p as int, 8),
        ensures
            r == self.spec_le64(p as int),
    {
        self.read_u32(p) as u64 + (self.read_u32(p + 4) as u64) * 0x1_0000_0000
    }
}

} // verus!
