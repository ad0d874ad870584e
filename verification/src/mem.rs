//! Guest physical memory: a host-resident byte region placed at a guest base
//! address, with little-endian scalar and byte-range accessors.
use vstd::prelude::*;
use vstd::bytes::{
    spec_u16_from_le_bytes, spec_u32_from_le_bytes, spec_u64_from_le_bytes, spec_u16_to_le_bytes,
    spec_u32_to_le_bytes, u16_from_le_bytes, u32_from_le_bytes, u64_from_le_bytes,
    u16_to_le_bytes, u32_to_le_bytes,
};
use vstd::slice::{slice_subrange, slice_to_vec};

verus! {

/// The bytes of `s` with the range starting at `off` replaced by `data`.
pub open spec fn update_range(s: Seq<u8>, off: int, data: Seq<u8>) -> Seq<u8> {
    s.take(off) + data + s.skip(off + data.len())
}

/// Guest physical memory: every guest address `g` in
/// `[base, base + len)` maps to exactly one host byte.
pub struct GuestMemory {
    base: u64,
    bytes: Vec<u8>,
}

impl View for GuestMemory {
    type V = Seq<u8>;

    closed spec fn view(&self) -> Seq<u8> {
        self.bytes@
    }
}

impl GuestMemory {
    /// The guest-physical address of the first byte of the region.
    pub closed spec fn base_spec(self) -> u64 {
        self.base
    }

    /// The region's address range does not wrap the 64-bit address space.
    pub open spec fn wf(self) -> bool {
        self.base_spec() + self@.len() <= u64::MAX
    }

    /// The addresses `[addr, addr + len)` all lie inside guest memory.
    pub open spec fn contains_range(self, addr: u64, len: u64) -> bool {
        &&& self.base_spec() <= addr
        &&& addr + len <= self.base_spec() + self@.len()
    }

    /// Byte offset of guest address `addr` from the region base.
    pub open spec fn offset_of(self, addr: u64) -> int {
        addr - self.base_spec()
    }

    /// The little-endian `u16` stored at guest address `addr`.
    pub open spec fn u16_at(self, addr: u64) -> u16 {
        spec_u16_from_le_bytes(self@.subrange(self.offset_of(addr), self.offset_of(addr) + 2))
    }

    /// The little-endian `u32` stored at guest address `addr`.
    pub open spec fn u32_at(self, addr: u64) -> u32 {
        spec_u32_from_le_bytes(self@.subrange(self.offset_of(addr), self.offset_of(addr) + 4))
    }

    /// The little-endian `u64` stored at guest address `addr`.
    pub open spec fn u64_at(self, addr: u64) -> u64 {
        spec_u64_from_le_bytes(self@.subrange(self.offset_of(addr), self.offset_of(addr) + 8))
    }

    /// Allocates a zero-filled guest memory region of `size` bytes at guest
    /// base address `base`.
    pub fn new(base: u64, size: usize) -> (r: GuestMemory)
        requires
            base + size <= u64::MAX,
        ensures
            r.base_spec() == base,
            r@.len() == size,
            forall|i: int| 0 <= i < size ==> r@[i] == 0u8,
            r.wf(),
    {
        let mut bytes: Vec<u8> = Vec::new();
        while bytes.len() < size
            invariant
                bytes@.len() <= size,
                forall|i: int| 0 <= i < bytes@.len() ==> bytes@[i] == 0u8,
            decreases size - bytes@.len(),
        {
            bytes.push(0u8);
        }
        GuestMemory { base, bytes }
    }

    /// Number of bytes of guest memory.
    pub fn len(&self) -> (r: usize)
        ensures
            r == self@.len(),
    {
        self.bytes.len()
    }

    /// The guest-physical base address.
    pub fn base(&self) -> (r: u64)
        ensures
            r == self.base_spec(),
    {
        self.base
    }

    /// Whether the guest addresses `[addr, addr + len)` all lie in memory.
    pub fn check_range(&self, addr: u64, len: u64) -> (r: bool)
        ensures
            r == self.contains_range(addr, len),
    {
        if addr < self.base {
            return false;
        }
        let off = addr - self.base;
        let mem_len = self.bytes.len() as u64;
        if off > mem_len {
            return false;
        }
        len <= mem_len - off
    }

    /// Byte offset of `addr` from the base, as a `usize` index into the
    /// region, together with the bound needed for in-range accesses.
    fn range_offset(&self, addr: u64, len: usize) -> (off: usize)
        requires
            self.contains_range(addr, len as u64),
        ensures
            off == self.offset_of(addr),
            off + len <= self@.len(),
            off + len <= usize::MAX,
    {
        let n = self.bytes.len();
        assert(addr - self.base <= n);
        (addr - self.base) as usize
    }

    /// Reads one byte at guest address `addr`.
    pub fn read_u8(&self, addr: u64) -> (r: u8)
        requires
            self.contains_range(addr, 1),
        ensures
            r == self@[self.offset_of(addr)],
    {
        let off = self.range_offset(addr, 1);
        self.bytes[off]
    }

    /// Reads `len` bytes starting at guest address `addr`.
    pub fn read_bytes(&self, addr: u64, len: usize) -> (r: Vec<u8>)
        requires
            self.contains_range(addr, len as u64),
        ensures
            r@ == self@.subrange(self.offset_of(addr), self.offset_of(addr) + len),
    {
        let off = self.range_offset(addr, len);
        let s = slice_subrange(self.bytes.as_slice(), off, off + len);
        slice_to_vec(s)
    }

    /// Reads the little-endian `u16` at guest address `addr`.
    pub fn read_u16(&self, addr: u64) -> (r: u16)
        requires
            self.contains_range(addr, 2),
        ensures
            r == self.u16_at(addr),
    {
        let off = self.range_offset(addr, 2);
        let s = slice_subrange(self.bytes.as_slice(), off, off + 2);
        u16_from_le_bytes(s)
    }

    /// Reads the little-endian `u32` at guest address `addr`.
    pub fn read_u32(&self, addr: u64) -> (r: u32)
        requires
            self.contains_range(addr, 4),
        ensures
            r == self.u32_at(addr),
    {
        let off = self.range_offset(addr, 4);
        let s = slice_subrange(self.bytes.as_slice(), off, off + 4);
        u32_from_le_bytes(s)
    }

    /// Reads the little-endian `u64` at guest address `addr`.
    pub fn read_u64(&self, addr: u64) -> (r: u64)
        requires
            self.contains_range(addr, 8),
        ensures
            r == self.u64_at(addr),
    {
        let off = self.range_offset(addr, 8);
        let s = slice_subrange(self.bytes.as_slice(), off, off + 8);
        u64_from_le_bytes(s)
    }

    /// Writes `data` starting at guest address `addr`.
    pub fn write_bytes(&mut self, addr: u64, data: &[u8])
        requires
            old(self).contains_range(addr, data@.len() as u64),
        ensures
            final(self)@ == update_range(old(self)@, old(self).offset_of(addr), data@),
            final(self).base_spec() == old(self).base_spec(),
    {
        let off = self.range_offset(addr, data.len());
        let ghost orig = self.bytes@;
        let mut i: usize = 0;
        while i < data.len()
            invariant
                off + data@.len() <= self.bytes@.len(),
                off + data@.len() <= usize::MAX,
                i <= data@.len(),
                self.bytes@.len() == orig.len(),
                self.base == old(self).base,
                forall|j: int| 0 <= j < i ==> self.bytes@[off + j] == data@[j],
                forall|j: int|
                    0 <= j < orig.len() && !(off <= j < off + i) ==> self.bytes@[j] == orig[j],
            decreases data@.len() - i,
        {
            self.bytes.set(off + i, data[i]);
            i += 1;
        }
        proof {
            assert(self.bytes@ =~= update_range(orig, off as int, data@));
        }
    }

    /// Writes one byte at guest address `addr`.
    pub fn write_u8(&mut self, addr: u64, v: u8)
        requires
            old(self).contains_range(addr, 1),
        ensures
            final(self)@ == old(self)@.update(old(self).offset_of(addr), v),
            final(self).base_spec() == old(self).base_spec(),
    {
        let off = self.range_offset(addr, 1);
        self.bytes.set(off, v);
    }

    /// Writes `v` as a little-endian `u16` at guest address `addr`.
    pub fn write_u16(&mut self, addr: u64, v: u16)
        requires
            old(self).contains_range(addr, 2),
        ensures
            final(self)@ == update_range(old(self)@, old(self).offset_of(addr), spec_u16_to_le_bytes(v)),
            final(self).base_spec() == old(self).base_spec(),
    {
        let data = u16_to_le_bytes(v);
        self.write_bytes(addr, data.as_slice());
    }

    /// Writes `v` as a little-endian `u32` at guest address `addr`.
    pub fn write_u32(&mut self, addr: u64, v: u32)
        requires
            old(self).contains_range(addr, 4),
        ensures
            final(self)@ == update_range(old(self)@, old(self).offset_of(addr), spec_u32_to_le_bytes(v)),
            final(self).base_spec() == old(self).base_spec(),
    {
        let data = u32_to_le_bytes(v);
        self.write_bytes(addr, data.as_slice());
    }

    /// Reads the little-endian `u32` at `addr`, rejecting addresses outside
    /// guest memory.
    pub fn try_read_u32(&self, addr: u64) -> (r: Result<u32, MemError>)
        ensures
            r is Ok <==> self.contains_range(addr, 4),
            r matches Ok(v) ==> v == self.u32_at(addr),
            r is Err ==> r == Err::<u32, MemError>(MemError::OutOfBounds),
    {
        if !self.check_range(addr, 4) {
            return Err(MemError::OutOfBounds);
        }
        Ok(self.read_u32(addr))
    }

    /// Reads the little-endian `u64` at `addr`, rejecting addresses outside
    /// guest memory.
    pub fn try_read_u64(&self, addr: u64) -> (r: Result<u64, MemError>)
        ensures
            r is Ok <==> self.contains_range(addr, 8),
            r matches Ok(v) ==> v == self.u64_at(addr),
            r is Err ==> r == Err::<u64, MemError>(MemError::OutOfBounds),
    {
        if !self.check_range(addr, 8) {
            return Err(MemError::OutOfBounds);
        }
        Ok(self.read_u64(addr))
    }

    /// Reads `len` bytes at `addr`, rejecting ranges outside guest memory.
    pub fn try_read_bytes(&self, addr: u64, len: usize) -> (r: Result<Vec<u8>, MemError>)
        ensures
            r is Ok <==> self.contains_range(addr, len as u64),
            r matches Ok(v) ==> v@ == self@.subrange(
                self.offset_of(addr),
                self.offset_of(addr) + len,
            ),
            r is Err ==> r == Err::<Vec<u8>, MemError>(MemError::OutOfBounds),
    {
        if !self.check_range(addr, len as u64) {
            return Err(MemError::OutOfBounds);
        }
        Ok(self.read_bytes(addr, len))
    }

    /// Writes `data` at `addr`, rejecting ranges outside guest memory and
    /// leaving memory unchanged when it rejects.
    pub fn try_write_bytes(&mut self, addr: u64, data: &[u8]) -> (r: Result<(), MemError>)
        ensures
            r is Ok <==> old(self).contains_range(addr, data@.len() as u64),
            r is Ok ==> final(self)@ == update_range(
                old(self)@,
                old(self).offset_of(addr),
                data@,
            ) && final(self).base_spec() == old(self).base_spec(),
            r is Err ==> *final(self) == *old(self) && r == Err::<(), MemError>(
                MemError::OutOfBounds,
            ),
    {
        if !self.check_range(addr, data.len() as u64) {
            return Err(MemError::OutOfBounds);
        }
        self.write_bytes(addr, data);
        Ok(())
    }
}

/// A rejected guest memory access.
#[derive(Clone, Copy, PartialEq, Eq, Structural, Debug)]
pub enum MemError {
    /// The address range does not lie inside guest memory.
    OutOfBounds,
}

} // verus!
