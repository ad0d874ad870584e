//! Backing storage of the block device: a memory-mapped byte region,
//! addressed in 512-byte sectors.
use vstd::prelude::*;
use crate::mem::update_range;

verus! {

/// Bytes per sector of the block device.
pub const SECTOR_SIZE: u64 = 512;

#[verifier::external_type_specification]
#[verifier::external_body]
pub struct ExMmapMut(memmap2::MmapMut);

/// The bytes currently held by a memory map.
pub uninterp spec fn backing_bytes(m: memmap2::MmapMut) -> Seq<u8>;

/// Relies on memmap2::MmapMut::map_anon: an anonymous map of exactly the
/// requested length, zero-filled (the mapping is created with MAP_ANONYMOUS,
/// whose pages the kernel hands out zeroed).
#[verifier::external_body]
pub fn backing_map_anon(length: usize) -> (r: Result<memmap2::MmapMut, String>)
    ensures
        r matches Ok(m) ==> backing_bytes(m).len() == length && (forall|i: int|
            0 <= i < length ==> backing_bytes(m)[i] == 0u8),
{
    match memmap2::MmapMut::map_anon(length) {
        Ok(m) => Ok(m),
        Err(e) => Err(format!("{:?}", e)),
    }
}

/// Relies on memmap2::MmapMut dereferencing to a byte slice of the mapped
/// region; returns its length.
#[verifier::external_body]
pub fn backing_len(m: &memmap2::MmapMut) -> (r: usize)
    ensures
        r == backing_bytes(*m).len(),
{
    m.len()
}

/// Relies on memmap2::MmapMut dereferencing to a byte slice of the mapped
/// region; returns the bytes in `[start, end)`.
#[verifier::external_body]
pub fn backing_read(m: &memmap2::MmapMut, start: usize, end: usize) -> (r: Vec<u8>)
    requires
        start <= end <= backing_bytes(*m).len(),
    ensures
        r@ == backing_bytes(*m).subrange(start as int, end as int),
{
    m[start..end].to_vec()
}

/// Relies on memmap2::MmapMut dereferencing to a mutable byte slice of the
/// mapped region; overwrites the bytes in `[start, end)` with `data`.
#[verifier::external_body]
pub fn backing_write(m: &mut memmap2::MmapMut, start: usize, end: usize, data: &[u8])
    requires
        start <= end <= backing_bytes(*old(m)).len(),
        end - start == data@.len(),
    ensures
        backing_bytes(*final(m)) == update_range(backing_bytes(*old(m)), start as int, data@),
{
    m[start..end].copy_from_slice(data);
}

/// Relies on memmap2::MmapMut::flush: synchronizes outstanding modifications
/// with the underlying storage (an msync). Returns whether it succeeded.
#[verifier::external_body]
pub fn backing_flush(m: &memmap2::MmapMut) -> (r: bool)
{
    m.flush().is_ok()
}

/// Round trip on the backing region: a read of the byte range just written
/// returns exactly the bytes that were written.
pub proof fn lemma_backing_round_trip(b: Seq<u8>, off: int, data: Seq<u8>)
    requires
        0 <= off,
        off + data.len() <= b.len(),
    ensures
        update_range(b, off, data).subrange(off, off + data.len()) == data,
{
    assert(update_range(b, off, data).subrange(off, off + data.len()) =~= data);
}

/// Round trip at sector granularity: writing `data` at sector `sector` and
/// reading the same range back yields `data`.
pub proof fn lemma_sector_round_trip(b: Seq<u8>, sector: u64, data: Seq<u8>)
    requires
        SECTOR_SIZE * sector + data.len() <= b.len(),
    ensures
        update_range(b, SECTOR_SIZE * sector, data).subrange(
            SECTOR_SIZE * sector,
            SECTOR_SIZE * sector + data.len(),
        ) == data,
{
    lemma_backing_round_trip(b, SECTOR_SIZE * sector, data);
}

} // verus!
