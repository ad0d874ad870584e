//! Virtio-MMIO block device: exposes the MMIO register window, drains
//! descriptor chains from its virtqueue on queue-notify, performs sector I/O
//! against a memory-mapped backing region, writes the request status byte,
//! publishes completions on the used ring, and raises the interrupt line.
use vstd::prelude::*;
use vstd::slice::slice_subrange;
use crate::mem::{GuestMemory, update_range};
use crate::virtqueue::{
    Virtqueue, Descriptor, VIRTQ_AVAIL_F_NO_INTERRUPT, wrap_inc16_spec, u16_dist,
    lemma_u16_dist_step,
};
use crate::backing::{
    backing_bytes, backing_len, backing_read, backing_write, backing_flush, SECTOR_SIZE,
};
use crate::interrupt::{InterruptLine, wrap_inc64_spec};

verus! {

/// MMIO register offsets and their fixed read values.
pub const VIRTIO_MMIO_MAGIC_OFFSET: u64 = 0x000;

/// Offset of the version register.
pub const VIRTIO_MMIO_VERSION_OFFSET: u64 = 0x004;

/// Offset of the device-id register.
pub const VIRTIO_MMIO_DEVICE_ID_OFFSET: u64 = 0x008;

/// Offset of the vendor-id register.
pub const VIRTIO_MMIO_VENDOR_ID_OFFSET: u64 = 0x00c;

/// Offset of the queue-notify register; a guest write here starts chain processing.
pub const VIRTIO_MMIO_QUEUE_NOTIFY: u64 = 0x050;

/// Magic value "virt", read at offset 0.
pub const VIRTIO_MMIO_MAGIC_VALUE: u32 = 0x74726976;

/// Vendor id "QEMU".
pub const VIRTIO_MMIO_VENDOR_ID: u32 = 0x554d4551;

/// Block request type: read a range of sectors into the guest buffer.
pub const VIRTIO_BLK_T_IN: u32 = 0;

/// Block request type: write the guest buffer to a range of sectors.
pub const VIRTIO_BLK_T_OUT: u32 = 1;

/// Block request type: flush the backing; serviced with success.
pub const VIRTIO_BLK_T_FLUSH: u32 = 4;

/// Block request type: report a device id; accepted as a no-op with success.
pub const VIRTIO_BLK_T_GET_ID: u32 = 8;

/// Block request type: discard sectors; accepted as a no-op with success.
pub const VIRTIO_BLK_T_DISCARD: u32 = 11;

/// Status byte: request succeeded.
pub const VIRTIO_BLK_S_OK: u8 = 0;

/// Status byte: I/O error (out-of-bounds sector or backing fault).
pub const VIRTIO_BLK_S_IOERR: u8 = 1;

/// Status byte: request type not supported.
pub const VIRTIO_BLK_S_UNSUPP: u8 = 2;

/// Number of descriptors in the device's virtqueue.
pub const QUEUE_SIZE: u16 = 1024;

/// Sum of the buffer lengths of a descriptor sequence.
pub open spec fn total_len_spec(descs: Seq<Descriptor>) -> int
    decreases descs.len(),
{
    if descs.len() == 0 {
        0
    } else {
        descs[0].len + total_len_spec(descs.skip(1))
    }
}

/// Every descriptor's buffer lies inside guest memory.
pub open spec fn all_in_bounds(mem: GuestMemory, descs: Seq<Descriptor>) -> bool {
    forall|j: int|
        0 <= j < descs.len() ==> mem.contains_range(descs[j].addr, #[trigger] descs[j].len as u64)
}

/// Concatenation of the guest bytes referenced by a descriptor sequence.
pub open spec fn gather_spec(mem: GuestMemory, descs: Seq<Descriptor>) -> Seq<u8>
    decreases descs.len(),
{
    if descs.len() == 0 {
        Seq::empty()
    } else {
        let d = descs[0];
        mem@.subrange(mem.offset_of(d.addr), mem.offset_of(d.addr) + d.len) + gather_spec(
            mem,
            descs.skip(1),
        )
    }
}

/// Guest memory bytes after spreading `data` across the buffers of `descs`
/// in order: the first descriptor receives the first `descs[0].len` bytes,
/// and so on.
pub open spec fn scatter_spec(m: Seq<u8>, base: u64, descs: Seq<Descriptor>, data: Seq<u8>) -> Seq<
    u8,
>
    decreases descs.len(),
{
    if descs.len() == 0 {
        m
    } else {
        let d = descs[0];
        let m2 = update_range(m, d.addr - base, data.take(d.len as int));
        scatter_spec(m2, base, descs.skip(1), data.skip(d.len as int))
    }
}

/// A well-formed block request parsed from a descriptor chain: the first
/// descriptor is the 16-byte request header, the middle descriptors carry the
/// data buffer, the last descriptor is the one-byte status target.
pub struct ChainView {
    /// Request type word from the header.
    pub req_type: u32,
    /// Starting sector from the header.
    pub sector: u64,
    /// The data descriptors (between header and status).
    pub data: Seq<Descriptor>,
    /// Guest address of the status byte.
    pub status_addr: u64,
    /// Total length of the data buffers.
    pub total_len: u32,
}

/// The parse of a walked descriptor sequence: `None` when it does not form a
/// well-formed block request (fewer than three descriptors, a header too
/// short or out of bounds, a status target out of bounds, a data buffer out
/// of bounds, or a total data length that exceeds `u32::MAX`).
pub open spec fn parse_descs_spec(mem: GuestMemory, c: Seq<Descriptor>) -> Option<ChainView> {
    if c.len() < 3 {
        None
    } else {
        let hdr = c[0];
        let status = c[c.len() - 1];
        let data = c.subrange(1, c.len() - 1);
        if hdr.len < 16 || !mem.contains_range(hdr.addr, 16) {
            None
        } else if status.len < 1 || !mem.contains_range(status.addr, 1) {
            None
        } else if !all_in_bounds(mem, data) {
            None
        } else if total_len_spec(data) > u32::MAX {
            None
        } else {
            Some(
                ChainView {
                    req_type: mem.u32_at(hdr.addr),
                    sector: mem.u64_at((hdr.addr + 8) as u64),
                    data,
                    status_addr: status.addr,
                    total_len: total_len_spec(data) as u32,
                },
            )
        }
    }
}

/// The parse of the chain headed at `head`: `None` when the chain is
/// malformed (broken or cyclic chain, or a walked chain that is not a
/// well-formed block request).
pub open spec fn parse_spec(q: Virtqueue, mem: GuestMemory, head: u16) -> Option<ChainView> {
    match q.chain_spec(mem, head) {
        None => None,
        Some(c) => parse_descs_spec(mem, c),
    }
}

/// Status byte for a parsed request against a backing of `backing_len`
/// bytes: reads and writes succeed exactly when the sector range lies within
/// the backing; flush, get-id and discard are accepted; anything else is
/// unsupported.
pub open spec fn status_of(p: ChainView, backing_len: int) -> u8 {
    if p.req_type == VIRTIO_BLK_T_IN || p.req_type == VIRTIO_BLK_T_OUT {
        if SECTOR_SIZE * p.sector + p.total_len <= backing_len {
            VIRTIO_BLK_S_OK
        } else {
            VIRTIO_BLK_S_IOERR
        }
    } else if p.req_type == VIRTIO_BLK_T_FLUSH || p.req_type == VIRTIO_BLK_T_GET_ID || p.req_type
        == VIRTIO_BLK_T_DISCARD {
        VIRTIO_BLK_S_OK
    } else {
        VIRTIO_BLK_S_UNSUPP
    }
}

/// Outcome of servicing one descriptor chain. Every chain is published on
/// the used ring: a well-formed one after its request is serviced, a
/// malformed one with the unsupported status so the driver can recover.
#[derive(PartialEq, Eq, Structural, Clone, Copy, Debug)]
pub enum ChainOutcome {
    /// The chain was well-formed: its request was serviced and published.
    Published,
    /// The chain was malformed: it was published with length 0, with the
    /// unsupported status written where a status target was reachable.
    Recovered,
}

/// Virtio block device over MMIO transport: guest memory, a memory-mapped
/// backing region addressed in 512-byte sectors, the virtqueue, and the
/// interrupt line raised on completions.
pub struct VirtioBlockDevice {
    /// Guest physical memory holding the rings and the request buffers.
    pub mem: GuestMemory,
    /// Memory-mapped backing region; a multiple of 512 bytes.
    pub disk_image: memmap2::MmapMut,
    /// Guest-physical base address of the MMIO register window.
    pub mmio_base: u64,
    /// The device's split virtqueue.
    pub queue: Virtqueue,
    /// Interrupt line signalled after completions are published.
    pub interrupt_controller: InterruptLine,
}

impl VirtioBlockDevice {
    /// Device well-formedness: the rings lie in guest memory and the backing
    /// is sector-aligned.
    pub open spec fn wf(self) -> bool {
        &&& self.queue.valid_for(self.mem)
        &&& backing_bytes(self.disk_image).len() as int % (SECTOR_SIZE as int) == 0
        &&& backing_bytes(self.disk_image).len() <= usize::MAX
    }

    /// What a guest read of MMIO register `offset` returns: the magic value
    /// "virt", version 2, device id 2 (block), vendor "QEMU", and zero for
    /// every other register (no feature bits are offered).
    pub open spec fn mmio_read_spec(offset: u64) -> u32 {
        if offset == VIRTIO_MMIO_MAGIC_OFFSET {
            VIRTIO_MMIO_MAGIC_VALUE
        } else if offset == VIRTIO_MMIO_VERSION_OFFSET {
            2
        } else if offset == VIRTIO_MMIO_DEVICE_ID_OFFSET {
            2
        } else if offset == VIRTIO_MMIO_VENDOR_ID_OFFSET {
            VIRTIO_MMIO_VENDOR_ID
        } else {
            0
        }
    }

    /// Guest memory bytes after the data phase of a parsed request: a
    /// successful read request scatters the backing sectors across the data
    /// buffers; everything else leaves guest memory unchanged.
    pub open spec fn mem_after_data(self, p: ChainView) -> Seq<u8> {
        if p.req_type == VIRTIO_BLK_T_IN && status_of(
            p,
            backing_bytes(self.disk_image).len() as int,
        ) == VIRTIO_BLK_S_OK {
            scatter_spec(
                self.mem@,
                self.mem.base_spec(),
                p.data,
                backing_bytes(self.disk_image).subrange(
                    SECTOR_SIZE * p.sector,
                    SECTOR_SIZE * p.sector + p.total_len,
                ),
            )
        } else {
            self.mem@
        }
    }

    /// Guest memory bytes after the data phase and the status-byte write.
    pub open spec fn mem_after_status(self, p: ChainView) -> Seq<u8> {
        self.mem_after_data(p).update(
            self.mem.offset_of(p.status_addr),
            status_of(p, backing_bytes(self.disk_image).len() as int),
        )
    }

    /// Guest memory bytes after the data phase, the status write, and the
    /// used-ring publication of `(head, total_len)`.
    pub open spec fn mem_after_publish(self, p: ChainView, head: u16) -> Seq<u8> {
        self.queue.used_publish_bytes(
            self.mem.base_spec(),
            self.mem_after_status(p),
            head,
            p.total_len,
        )
    }

    /// Where a malformed chain's status byte can be written: the last walked
    /// descriptor, when the walk succeeded and its buffer is a readable
    /// one-byte target inside guest memory; nowhere when the chain cannot
    /// even be walked.
    pub open spec fn recovery_status_target(self, head: u16) -> Option<u64> {
        match self.queue.chain_spec(self.mem, head) {
            None => None,
            Some(c) => {
                let last = c[c.len() - 1];
                if last.len >= 1 && self.mem.contains_range(last.addr, 1) {
                    Some(last.addr)
                } else {
                    None
                }
            },
        }
    }

    /// Guest memory bytes after recovering a malformed chain: the
    /// unsupported status is written where a status target is reachable,
    /// then `(head, 0)` is published on the used ring so the driver can
    /// recover.
    pub open spec fn mem_after_recovery(self, head: u16) -> Seq<u8> {
        let m1 = match self.recovery_status_target(head) {
            Some(st) => self.mem@.update(self.mem.offset_of(st), VIRTIO_BLK_S_UNSUPP),
            None => self.mem@,
        };
        self.queue.used_publish_bytes(self.mem.base_spec(), m1, head, 0)
    }

    /// Backing bytes after a parsed request: a successful write request
    /// replaces the sector range with the gathered guest bytes; everything
    /// else leaves the backing unchanged.
    pub open spec fn backing_after(self, p: ChainView) -> Seq<u8> {
        if p.req_type == VIRTIO_BLK_T_OUT && status_of(
            p,
            backing_bytes(self.disk_image).len() as int,
        ) == VIRTIO_BLK_S_OK {
            update_range(
                backing_bytes(self.disk_image),
                SECTOR_SIZE * p.sector,
                gather_spec(self.mem, p.data),
            )
        } else {
            backing_bytes(self.disk_image)
        }
    }

    /// Reads the 32-bit MMIO register at `offset` from the device base.
    pub fn read_mmio(&self, offset: u64) -> (r: u32)
        ensures
            r == Self::mmio_read_spec(offset),
    {
        if offset == VIRTIO_MMIO_MAGIC_OFFSET {
            VIRTIO_MMIO_MAGIC_VALUE
        } else if offset == VIRTIO_MMIO_VERSION_OFFSET {
            2
        } else if offset == VIRTIO_MMIO_DEVICE_ID_OFFSET {
            2
        } else if offset == VIRTIO_MMIO_VENDOR_ID_OFFSET {
            VIRTIO_MMIO_VENDOR_ID
        } else {
            0
        }
    }
}

/// Sum of the buffer lengths of `descs[i..]`, refused when it exceeds
/// `u32::MAX`.
fn total_from(descs: &[Descriptor], i: usize) -> (r: Option<u64>)
    requires
        i <= descs@.len(),
    ensures
        match r {
            Some(t) => t == total_len_spec(descs@.skip(i as int)) && t <= u32::MAX,
            None => total_len_spec(descs@.skip(i as int)) > u32::MAX,
        },
    decreases descs@.len() - i,
{
    if i == descs.len() {
        assert(descs@.skip(i as int) =~= Seq::<Descriptor>::empty());
        Some(0)
    } else {
        let d = descs[i];
        match total_from(descs, i + 1) {
            None => {
                proof {
                    assert(descs@.skip(i as int).skip(1) =~= descs@.skip(i + 1));
                    assert(total_len_spec(descs@.skip(i as int)) == d.len + total_len_spec(
                        descs@.skip(i + 1),
                    ));
                }
                None
            },
            Some(t) => {
                proof {
                    assert(descs@.skip(i as int).skip(1) =~= descs@.skip(i + 1));
                    assert(total_len_spec(descs@.skip(i as int)) == d.len + total_len_spec(
                        descs@.skip(i + 1),
                    ));
                }
                let s = d.len as u64 + t;
                if s > u32::MAX as u64 {
                    None
                } else {
                    Some(s)
                }
            },
        }
    }
}

/// Whether every buffer of `descs` lies inside guest memory.
fn descs_in_bounds(mem: &GuestMemory, descs: &[Descriptor]) -> (r: bool)
    ensures
        r == all_in_bounds(*mem, descs@),
{
    let n = descs.len();
    let mut i: usize = 0;
    while i < n
        invariant
            n == descs@.len(),
            i <= n,
            forall|j: int|
                0 <= j < i ==> mem.contains_range(descs@[j].addr, #[trigger] descs@[j].len as u64),
        decreases n - i,
    {
        let d = descs[i];
        if !mem.check_range(d.addr, d.len as u64) {
            return false;
        }
        i += 1;
    }
    true
}

/// Concatenation of the guest bytes referenced by `descs[i..]`.
fn gather_from(mem: &GuestMemory, descs: &[Descriptor], i: usize) -> (r: Vec<u8>)
    requires
        i <= descs@.len(),
        all_in_bounds(*mem, descs@),
        total_len_spec(descs@) <= u32::MAX,
    ensures
        r@ == gather_spec(*mem, descs@.skip(i as int)),
    decreases descs@.len() - i,
{
    if i == descs.len() {
        assert(descs@.skip(i as int) =~= Seq::<Descriptor>::empty());
        Vec::new()
    } else {
        let d = descs[i];
        let mut v = mem.read_bytes(d.addr, d.len as usize);
        let mut rest = gather_from(mem, descs, i + 1);
        v.append(&mut rest);
        proof {
            assert(descs@.skip(i as int).skip(1) =~= descs@.skip(i + 1));
            assert(descs@.skip(i as int)[0] == descs@[i as int]);
        }
        v
    }
}

/// Spreads `data[pos..]` across the buffers of `descs[i..]`, in order.
fn scatter_from(mem: &mut GuestMemory, descs: &[Descriptor], i: usize, data: &[u8], pos: usize)
    requires
        i <= descs@.len(),
        all_in_bounds(*old(mem), descs@),
        old(mem).wf(),
        pos + total_len_spec(descs@.skip(i as int)) == data@.len(),
        data@.len() <= usize::MAX,
    ensures
        final(mem)@ == scatter_spec(
            old(mem)@,
            old(mem).base_spec(),
            descs@.skip(i as int),
            data@.skip(pos as int),
        ),
        final(mem).base_spec() == old(mem).base_spec(),
        final(mem)@.len() == old(mem)@.len(),
    decreases descs@.len() - i,
{
    proof {
        lemma_total_len_nonneg(descs@.skip(i as int));
    }
    if i == descs.len() {
        assert(descs@.skip(i as int) =~= Seq::<Descriptor>::empty());
        return ;
    }
    let d = descs[i];
    proof {
        assert(descs@.skip(i as int).skip(1) =~= descs@.skip(i + 1));
        assert(descs@.skip(i as int)[0] == descs@[i as int]);
        assert(total_len_spec(descs@.skip(i as int)) == d.len + total_len_spec(descs@.skip(i + 1)));
        lemma_total_len_nonneg(descs@.skip(i + 1));
    }
    let chunk = slice_subrange(data, pos, pos + d.len as usize);
    mem.write_bytes(d.addr, chunk);
    scatter_from(mem, descs, i + 1, data, pos + d.len as usize);
    proof {
        assert(data@.skip(pos as int).take(d.len as int) =~= data@.subrange(
            pos as int,
            pos + d.len,
        ));
        assert(data@.skip(pos as int).skip(d.len as int) =~= data@.skip(pos + d.len));
    }
}

/// The total buffer length of a descriptor sequence is never negative.
proof fn lemma_total_len_nonneg(descs: Seq<Descriptor>)
    ensures
        total_len_spec(descs) >= 0,
    decreases descs.len(),
{
    if descs.len() > 0 {
        lemma_total_len_nonneg(descs.skip(1));
    }
}

/// The descriptor chain a head denotes depends only on the ring layout
/// (queue size and descriptor-table address), never on the device-local
/// cursors.
proof fn lemma_chain_from_ignores_cursors(
    q1: Virtqueue,
    q2: Virtqueue,
    mem: GuestMemory,
    index: u16,
    fuel: nat,
)
    requires
        q1.size == q2.size,
        q1.desc_table_addr == q2.desc_table_addr,
    ensures
        q1.chain_from(mem, index, fuel) == q2.chain_from(mem, index, fuel),
    decreases fuel,
{
    if fuel > 0 && index < q1.size {
        let d = q1.desc_spec(mem, index);
        assert(q2.desc_spec(mem, index) == d);
        lemma_chain_from_ignores_cursors(q1, q2, mem, d.next, (fuel - 1) as nat);
    }
}

/// The parse of a descriptor chain depends only on the ring layout, never on
/// the device-local cursors.
pub proof fn lemma_parse_ignores_cursors(q1: Virtqueue, q2: Virtqueue, mem: GuestMemory, head: u16)
    requires
        q1.size == q2.size,
        q1.desc_table_addr == q2.desc_table_addr,
    ensures
        parse_spec(q1, mem, head) == parse_spec(q2, mem, head),
{
    lemma_chain_from_ignores_cursors(q1, q2, mem, head, q1.size as nat);
}

/// The gathered bytes are exactly as long as the buffers they came from.
proof fn lemma_gather_len(mem: GuestMemory, descs: Seq<Descriptor>)
    requires
        all_in_bounds(mem, descs),
    ensures
        gather_spec(mem, descs).len() == total_len_spec(descs),
    decreases descs.len(),
{
    if descs.len() > 0 {
        assert(forall|j: int|
            0 <= j < descs.skip(1).len() ==> descs.skip(1)[j] == #[trigger] descs[j + 1]);
        lemma_gather_len(mem, descs.skip(1));
    }
}

/// A block request parsed from a descriptor chain, ready to service.
pub struct ParsedChain {
    /// Request type word from the header.
    pub req_type: u32,
    /// Starting sector from the header.
    pub sector: u64,
    /// The data descriptors (between header and status).
    pub data: Vec<Descriptor>,
    /// Guest address of the status byte.
    pub status_addr: u64,
    /// Total length of the data buffers.
    pub total_len: u32,
}

/// Parses a walked descriptor chain into a block request; `None` exactly
/// when it is not a well-formed request (see `parse_descs_spec`).
pub fn parse_descs(mem: &GuestMemory, chain: Vec<Descriptor>) -> (r: Option<ParsedChain>)
    requires
        mem.wf(),
    ensures
        match (r, parse_descs_spec(*mem, chain@)) {
            (Some(p), Some(s)) => {
                &&& p.req_type == s.req_type
                &&& p.sector == s.sector
                &&& p.data@ == s.data
                &&& p.status_addr == s.status_addr
                &&& p.total_len == s.total_len
            },
            (None, None) => true,
            _ => false,
        },
{
    let mut chain = chain;
    if chain.len() < 3 {
        return None;
    }
    let ghost c0 = chain@;
    let status_desc = match chain.pop() {
        Some(d) => d,
        None => {
            proof {
                assert(false);
            }
            return None;
        },
    };
    let hdr = chain.remove(0);
    proof {
        assert(chain@ =~= c0.subrange(1, c0.len() - 1));
    }
    if hdr.len < 16 || !mem.check_range(hdr.addr, 16) {
        return None;
    }
    if status_desc.len < 1 || !mem.check_range(status_desc.addr, 1) {
        return None;
    }
    if !descs_in_bounds(mem, chain.as_slice()) {
        return None;
    }
    proof {
        assert(chain@.skip(0) =~= chain@);
    }
    let total = match total_from(chain.as_slice(), 0) {
        Some(t) => t,
        None => {
            return None;
        },
    };
    let req_type = mem.read_u32(hdr.addr);
    let sector = mem.read_u64(hdr.addr + 8);
    Some(
        ParsedChain {
            req_type,
            sector,
            data: chain,
            status_addr: status_desc.addr,
            total_len: total as u32,
        },
    )
}

/// Guest-physical address of the descriptor table the device is constructed
/// with (the driver stub preconfigures the rings at fixed addresses).
pub const DESC_TABLE_ADDR: u64 = 0x1000;

/// Guest-physical address of the available ring.
pub const AVAIL_RING_ADDR: u64 = 0x2000;

/// Guest-physical address of the used ring.
pub const USED_RING_ADDR: u64 = 0x3000;

impl VirtioBlockDevice {
    /// The virtqueue a fresh device starts with: 1024 descriptors, the fixed
    /// ring addresses, ready, cursors at zero.
    pub open spec fn boot_queue() -> Virtqueue {
        Virtqueue {
            size: QUEUE_SIZE,
            ready: true,
            desc_table_addr: DESC_TABLE_ADDR,
            avail_ring_addr: AVAIL_RING_ADDR,
            used_ring_addr: USED_RING_ADDR,
            last_avail_idx: 0,
            next_used_idx: 0,
        }
    }

    /// Builds the device: initializes the virtqueue at the fixed ring
    /// addresses, marks it ready, and validates it against guest memory;
    /// requires the backing to be a whole number of sectors.
    pub fn new(
        mem: GuestMemory,
        disk_image: memmap2::MmapMut,
        mmio_base: u64,
        interrupt_controller: InterruptLine,
    ) -> (r: Result<VirtioBlockDevice, String>)
        requires
            mem.wf(),
        ensures
            r is Ok <==> Self::boot_queue().valid_for(mem) && backing_bytes(disk_image).len() as int
                % (SECTOR_SIZE as int) == 0,
            r matches Ok(d) ==> {
                &&& d.wf()
                &&& d.mem == mem
                &&& d.disk_image == disk_image
                &&& d.mmio_base == mmio_base
                &&& d.queue == Self::boot_queue()
                &&& d.interrupt_controller == interrupt_controller
            },
            r matches Err(e) ==> {
                &&& !Self::boot_queue().valid_for(mem) ==> e@ == "queue is invalid"@
                &&& Self::boot_queue().valid_for(mem) ==> e@
                    == "disk image size is not a multiple of the sector size"@
            },
    {
        let mut queue = Virtqueue::new(QUEUE_SIZE);
        queue.set_addresses(DESC_TABLE_ADDR, AVAIL_RING_ADDR, USED_RING_ADDR);
        queue.set_ready(true);
        if !queue.is_valid(&mem) {
            return Err("queue is invalid".to_owned());
        }
        let blen = backing_len(&disk_image);
        if blen % 512 != 0 {
            return Err("disk image size is not a multiple of the sector size".to_owned());
        }
        Ok(VirtioBlockDevice { mem, disk_image, mmio_base, queue, interrupt_controller })
    }

    /// What any device step leaves untouched: the MMIO base, the shape of
    /// guest memory, the queue configuration, and the IRQ number.
    pub open spec fn step_frame(pre: VirtioBlockDevice, post: VirtioBlockDevice) -> bool {
        &&& post.mmio_base == pre.mmio_base
        &&& post.mem.base_spec() == pre.mem.base_spec()
        &&& post.mem@.len() == pre.mem@.len()
        &&& post.queue.size == pre.queue.size
        &&& post.queue.ready == pre.queue.ready
        &&& post.queue.desc_table_addr == pre.queue.desc_table_addr
        &&& post.queue.avail_ring_addr == pre.queue.avail_ring_addr
        &&& post.queue.used_ring_addr == pre.queue.used_ring_addr
        &&& post.interrupt_controller.gsi_spec() == pre.interrupt_controller.gsi_spec()
    }

    /// The exact effect of recovering one malformed chain headed at `head`,
    /// stated against the state before its head was consumed from the
    /// available ring: the backing is untouched, the unsupported status is
    /// written where a status target was reachable, `(head, 0)` is published
    /// on the used ring, both ring cursors advance by one, and the interrupt
    /// line moves exactly when the driver asked for notification and the
    /// host signal write went through.
    pub open spec fn recovered_once(
        pre: VirtioBlockDevice,
        post: VirtioBlockDevice,
        head: u16,
    ) -> bool {
        let notify = post.queue.avail_flags_spec(post.mem) & VIRTQ_AVAIL_F_NO_INTERRUPT == 0;
        let pre_trig = pre.interrupt_controller.triggered_spec();
        let post_trig = post.interrupt_controller.triggered_spec();
        &&& post.queue == (Virtqueue {
            last_avail_idx: wrap_inc16_spec(pre.queue.last_avail_idx),
            next_used_idx: wrap_inc16_spec(pre.queue.next_used_idx),
            ..pre.queue
        })
        &&& backing_bytes(post.disk_image) == backing_bytes(pre.disk_image)
        &&& post.mem@ == pre.mem_after_recovery(head)
        &&& !notify ==> post_trig == pre_trig
        &&& notify ==> (post_trig == wrap_inc64_spec(pre_trig) || post_trig == pre_trig)
    }

    /// The exact effect of servicing one well-formed chain `p` headed at
    /// `head`, stated against the state before its head was consumed from
    /// the available ring: data moved per the request, the status byte
    /// written, `(head, total_len)` published on the used ring, both ring
    /// cursors advanced by one, and the interrupt line moved exactly when
    /// the driver asked for notification and the host signal write went
    /// through.
    pub open spec fn serviced_once(
        pre: VirtioBlockDevice,
        post: VirtioBlockDevice,
        p: ChainView,
        head: u16,
    ) -> bool {
        let notify = post.queue.avail_flags_spec(post.mem) & VIRTQ_AVAIL_F_NO_INTERRUPT == 0;
        let pre_trig = pre.interrupt_controller.triggered_spec();
        let post_trig = post.interrupt_controller.triggered_spec();
        &&& post.queue == (Virtqueue {
            last_avail_idx: wrap_inc16_spec(pre.queue.last_avail_idx),
            next_used_idx: wrap_inc16_spec(pre.queue.next_used_idx),
            ..pre.queue
        })
        &&& backing_bytes(post.disk_image) == pre.backing_after(p)
        &&& post.mem@ == pre.mem_after_publish(p, head)
        &&& !notify ==> post_trig == pre_trig
        &&& notify ==> (post_trig == wrap_inc64_spec(pre_trig) || post_trig == pre_trig)
    }

    /// Consults the driver's notification flags and, when asked, raises the
    /// interrupt line once; reports whether the host signal write succeeded
    /// (true also when no notification was wanted).
    fn notify_after_publish(&mut self) -> (irq_ok: bool)
        requires
            old(self).wf(),
        ensures
            final(self).wf(),
            final(self).mem == old(self).mem,
            final(self).queue == old(self).queue,
            final(self).disk_image == old(self).disk_image,
            final(self).mmio_base == old(self).mmio_base,
            final(self).interrupt_controller.gsi_spec() == old(
                self,
            ).interrupt_controller.gsi_spec(),
            ({
                let notify = old(self).queue.avail_flags_spec(old(self).mem)
                    & VIRTQ_AVAIL_F_NO_INTERRUPT == 0;
                let pre_trig = old(self).interrupt_controller.triggered_spec();
                let post_trig = final(self).interrupt_controller.triggered_spec();
                &&& !notify ==> irq_ok && post_trig == pre_trig
                &&& notify ==> ((irq_ok && post_trig == wrap_inc64_spec(pre_trig)) || (!irq_ok
                    && post_trig == pre_trig))
            }),
            final(self).interrupt_controller.triggered_spec() != old(
                self,
            ).interrupt_controller.triggered_spec() ==> irq_ok,
    {
        if self.queue.needs_notification(&self.mem) {
            match self.interrupt_controller.trigger() {
                Ok(_) => true,
                Err(_) => false,
            }
        } else {
            true
        }
    }

    /// Services the descriptor chain headed at `head`. A well-formed chain
    /// gets its sector I/O, its status byte, and a `(head, total_len)` used
    /// entry. A malformed chain is published too, with length 0 and the
    /// unsupported status where a status target is reachable, so the driver
    /// can recover. Either way the used ring advances and the interrupt line
    /// is raised when the driver asks for notification.
    pub fn process_one_chain(&mut self, head: u16) -> (r: (ChainOutcome, bool))
        requires
            old(self).wf(),
        ensures
            final(self).wf(),
            Self::step_frame(*old(self), *final(self)),
            final(self).queue == (Virtqueue {
                next_used_idx: wrap_inc16_spec(old(self).queue.next_used_idx),
                ..old(self).queue
            }),
            match parse_spec(old(self).queue, old(self).mem, head) {
                None => {
                    &&& r.0 == ChainOutcome::Recovered
                    &&& backing_bytes(final(self).disk_image) == backing_bytes(
                        old(self).disk_image,
                    )
                    &&& final(self).mem@ == old(self).mem_after_recovery(head)
                },
                Some(p) => {
                    &&& r.0 == ChainOutcome::Published
                    &&& backing_bytes(final(self).disk_image) == old(self).backing_after(p)
                    &&& final(self).mem@ == old(self).mem_after_publish(p, head)
                },
            },
            ({
                let notify = final(self).queue.avail_flags_spec(final(self).mem)
                    & VIRTQ_AVAIL_F_NO_INTERRUPT == 0;
                let pre_trig = old(self).interrupt_controller.triggered_spec();
                let post_trig = final(self).interrupt_controller.triggered_spec();
                &&& !notify ==> r.1 && post_trig == pre_trig
                &&& notify ==> ((r.1 && post_trig == wrap_inc64_spec(pre_trig)) || (!r.1
                    && post_trig == pre_trig))
            }),
            final(self).interrupt_controller.triggered_spec() != old(
                self,
            ).interrupt_controller.triggered_spec() ==> r.1,
    {
        let chain = match self.queue.walk_chain(&self.mem, head) {
            Err(_) => {
                // The chain cannot even be walked: no status target is
                // known, so only publish (head, 0) for the driver to see.
                self.queue.add_used(&mut self.mem, head, 0);
                let irq_ok = self.notify_after_publish();
                return (ChainOutcome::Recovered, irq_ok);
            },
            Ok(c) => c,
        };
        let ghost c0 = chain@;
        assert(c0.len() >= 1);
        let last = chain[chain.len() - 1];
        let parsed = match parse_descs(&self.mem, chain) {
            None => {
                // Malformed but walkable: leave the unsupported status where
                // the chain's status target would be, then publish (head, 0).
                if last.len >= 1 && self.mem.check_range(last.addr, 1) {
                    self.mem.write_u8(last.addr, VIRTIO_BLK_S_UNSUPP);
                }
                self.queue.add_used(&mut self.mem, head, 0);
                let irq_ok = self.notify_after_publish();
                return (ChainOutcome::Recovered, irq_ok);
            },
            Some(p) => p,
        };
        let blen = backing_len(&self.disk_image);
        let status: u8;
        if parsed.req_type == VIRTIO_BLK_T_IN || parsed.req_type == VIRTIO_BLK_T_OUT {
            match parsed.sector.checked_mul(SECTOR_SIZE) {
                None => {
                    status = VIRTIO_BLK_S_IOERR;
                },
                Some(off) => {
                    if parsed.total_len as u64 > blen as u64 || off > blen as u64
                        - parsed.total_len as u64 {
                        status = VIRTIO_BLK_S_IOERR;
                    } else {
                        assert(off + parsed.total_len as u64 <= blen as u64);
                        let start = off as usize;
                        let end = (off + parsed.total_len as u64) as usize;
                        proof {
                            assert(parsed.data@.skip(0) =~= parsed.data@);
                            lemma_total_len_nonneg(parsed.data@);
                        }
                        if parsed.req_type == VIRTIO_BLK_T_IN {
                            let data = backing_read(&self.disk_image, start, end);
                            assert(data@.len() == parsed.total_len);
                            scatter_from(
                                &mut self.mem,
                                parsed.data.as_slice(),
                                0,
                                data.as_slice(),
                                0,
                            );
                            proof {
                                assert(data@.skip(0) =~= data@);
                            }
                        } else {
                            proof {
                                lemma_gather_len(self.mem, parsed.data@);
                            }
                            let data = gather_from(&self.mem, parsed.data.as_slice(), 0);
                            backing_write(&mut self.disk_image, start, end, data.as_slice());
                        }
                        status = VIRTIO_BLK_S_OK;
                    }
                },
            }
        } else if parsed.req_type == VIRTIO_BLK_T_FLUSH {
            backing_flush(&self.disk_image);
            status = VIRTIO_BLK_S_OK;
        } else if parsed.req_type == VIRTIO_BLK_T_GET_ID || parsed.req_type
            == VIRTIO_BLK_T_DISCARD {
            status = VIRTIO_BLK_S_OK;
        } else {
            status = VIRTIO_BLK_S_UNSUPP;
        }
        self.mem.write_u8(parsed.status_addr, status);
        self.queue.add_used(&mut self.mem, head, parsed.total_len);
        let irq_ok = self.notify_after_publish();
        (ChainOutcome::Published, irq_ok)
    }

    /// The head published in the available-ring slot the device consumes
    /// next.
    pub open spec fn next_head_spec(self) -> u16 {
        self.queue.avail_entry_spec(self.mem, (self.queue.last_avail_idx % self.queue.size) as u16)
    }

    /// Exactly one chain is pending, and servicing it leaves the available
    /// index showing no further chains (the service did not write over the
    /// ring's index), so the drain stops right after it.
    pub open spec fn single_chain_pending(pre: VirtioBlockDevice, p: ChainView, head: u16) -> bool {
        &&& pre.queue.avail_idx_spec(pre.mem) == wrap_inc16_spec(pre.queue.last_avail_idx)
        &&& pre.queue.avail_idx_of(pre.mem.base_spec(), pre.mem_after_publish(p, head))
            == wrap_inc16_spec(pre.queue.last_avail_idx)
    }

    /// What a queue-notify leaves behind. Nothing changes when the queue is
    /// not ready or no chain is pending. Otherwise at least one chain is
    /// consumed and published: both ring cursors advance, in step — the used
    /// index moves by exactly the number of chains consumed, at most the
    /// queue size, and never backwards modulo 2^16. A malformed first chain
    /// is recovered exactly and the drain stops; a single pending well-formed
    /// chain is serviced exactly. The interrupt line moves only together
    /// with used-ring progress.
    pub open spec fn drain_post(pre: VirtioBlockDevice, post: VirtioBlockDevice) -> bool {
        let head = pre.next_head_spec();
        &&& !pre.queue.ready ==> post == pre
        &&& (pre.queue.ready && pre.queue.avail_idx_spec(pre.mem) == pre.queue.last_avail_idx)
            ==> post == pre
        &&& u16_dist(pre.queue.next_used_idx, post.queue.next_used_idx) == u16_dist(
            pre.queue.last_avail_idx,
            post.queue.last_avail_idx,
        )
        &&& u16_dist(pre.queue.next_used_idx, post.queue.next_used_idx) <= pre.queue.size
        &&& (pre.queue.ready && pre.queue.avail_idx_spec(pre.mem) != pre.queue.last_avail_idx)
            ==> {
            &&& post.queue.next_used_idx != pre.queue.next_used_idx
            &&& post.queue.last_avail_idx != pre.queue.last_avail_idx
            &&& match parse_spec(pre.queue, pre.mem, head) {
                None => Self::recovered_once(pre, post, head),
                Some(p) => Self::single_chain_pending(pre, p, head) ==> Self::serviced_once(
                    pre,
                    post,
                    p,
                    head,
                ),
            }
        }
        &&& post.interrupt_controller.triggered_spec() != pre.interrupt_controller.triggered_spec()
            ==> post.queue.next_used_idx != pre.queue.next_used_idx
    }

    /// Drains the virtqueue: pops and services pending chains, publishing
    /// every one of them, until the ring is empty, a malformed chain was
    /// recovered, or raising the interrupt fails; at most `size` chains are
    /// serviced per notify (later ones are picked up on the next notify).
    pub fn process_descriptor_chain(&mut self)
        requires
            old(self).wf(),
        ensures
            final(self).wf(),
            Self::step_frame(*old(self), *final(self)),
            Self::drain_post(*old(self), *final(self)),
    {
        if !self.queue.ready() {
            return ;
        }
        let head0 = match self.queue.pop_chain_head(&self.mem) {
            Some(h) => h,
            None => {
                return ;
            },
        };
        let ghost popped = *self;
        proof {
            lemma_chain_from_ignores_cursors(
                old(self).queue,
                self.queue,
                self.mem,
                head0,
                old(self).queue.size as nat,
            );
            lemma_parse_ignores_cursors(old(self).queue, self.queue, self.mem, head0);
        }
        let (outcome0, irq_ok0) = self.process_one_chain(head0);
        proof {
            // The popped device differs from the original only in the
            // available-ring cursor, which none of the effect functions read.
            assert(popped.mem_after_recovery(head0) == old(self).mem_after_recovery(head0));
            match parse_spec(old(self).queue, old(self).mem, head0) {
                Some(p) => {
                    assert(popped.mem_after_publish(p, head0) == old(self).mem_after_publish(
                        p,
                        head0,
                    ));
                    assert(popped.backing_after(p) == old(self).backing_after(p));
                },
                None => {},
            }
            lemma_u16_dist_step(old(self).queue.next_used_idx, old(self).queue.next_used_idx);
            lemma_u16_dist_step(old(self).queue.last_avail_idx, old(self).queue.last_avail_idx);
        }
        match outcome0 {
            ChainOutcome::Recovered => {
                return ;
            },
            ChainOutcome::Published => {},
        }
        if !irq_ok0 {
            return ;
        }
        assert(self.queue.size >= 1);
        let mut budget = self.queue.size - 1;
        loop
            invariant
                self.wf(),
                Self::step_frame(*old(self), *self),
                old(self).queue.ready,
                old(self).queue.avail_idx_spec(old(self).mem) != old(self).queue.last_avail_idx,
                parse_spec(old(self).queue, old(self).mem, old(self).next_head_spec()) is Some,
                1 <= u16_dist(old(self).queue.next_used_idx, self.queue.next_used_idx),
                u16_dist(old(self).queue.next_used_idx, self.queue.next_used_idx) == u16_dist(
                    old(self).queue.last_avail_idx,
                    self.queue.last_avail_idx,
                ),
                u16_dist(old(self).queue.next_used_idx, self.queue.next_used_idx) + budget <= old(
                    self,
                ).queue.size,
                match parse_spec(old(self).queue, old(self).mem, old(self).next_head_spec()) {
                    Some(p) => Self::single_chain_pending(
                        *old(self),
                        p,
                        old(self).next_head_spec(),
                    ) ==> Self::serviced_once(*old(self), *self, p, old(self).next_head_spec()),
                    None => true,
                },
            decreases budget,
        {
            if budget == 0 {
                return ;
            }
            let ghost before_pop = *self;
            let head = match self.queue.pop_chain_head(&self.mem) {
                Some(h) => h,
                None => {
                    return ;
                },
            };
            proof {
                // A pending single chain would have left the ring empty, so
                // this branch cannot be reached under that hypothesis.
                match parse_spec(old(self).queue, old(self).mem, old(self).next_head_spec()) {
                    Some(p) => {
                        if Self::single_chain_pending(*old(self), p, old(self).next_head_spec()) {
                            assert(false);
                        }
                    },
                    None => {},
                }
                lemma_u16_dist_step(
                    old(self).queue.last_avail_idx,
                    before_pop.queue.last_avail_idx,
                );
            }
            let ghost before_chain = *self;
            let (outcome, irq_ok) = self.process_one_chain(head);
            proof {
                lemma_u16_dist_step(
                    old(self).queue.next_used_idx,
                    before_chain.queue.next_used_idx,
                );
            }
            match outcome {
                ChainOutcome::Recovered => {
                    return ;
                },
                ChainOutcome::Published => {},
            }
            if !irq_ok {
                return ;
            }
            budget = budget - 1;
        }
    }

    /// Handles a guest write to MMIO register `offset`: a write to the
    /// queue-notify register drains the virtqueue exactly as
    /// `process_descriptor_chain` does; all other writes are accepted and
    /// ignored.
    pub fn write_mmio(&mut self, offset: u64)
        requires
            old(self).wf(),
        ensures
            final(self).wf(),
            Self::step_frame(*old(self), *final(self)),
            offset != VIRTIO_MMIO_QUEUE_NOTIFY ==> *final(self) == *old(self),
            offset == VIRTIO_MMIO_QUEUE_NOTIFY ==> Self::drain_post(*old(self), *final(self)),
    {
        if offset == VIRTIO_MMIO_QUEUE_NOTIFY {
            self.process_descriptor_chain();
        }
    }
}

/// Round trip through the device: the bytes a write request stores at a
/// sector range are exactly the bytes a later read request of the same range
/// finds there. `dev_w` is the device as the write chain `p_out` was
/// serviced; `dev_r` is the device as a read chain of the same sector and
/// length is serviced against the written backing.
pub proof fn lemma_device_round_trip(
    dev_w: VirtioBlockDevice,
    p_out: ChainView,
    dev_r: VirtioBlockDevice,
    p_in: ChainView,
) -> (written: Seq<u8>)
    requires
        p_out.req_type == VIRTIO_BLK_T_OUT,
        p_in.req_type == VIRTIO_BLK_T_IN,
        p_in.sector == p_out.sector,
        p_in.total_len == p_out.total_len,
        all_in_bounds(dev_w.mem, p_out.data),
        total_len_spec(p_out.data) == p_out.total_len,
        SECTOR_SIZE * p_out.sector + p_out.total_len <= backing_bytes(dev_w.disk_image).len(),
        backing_bytes(dev_r.disk_image) == dev_w.backing_after(p_out),
    ensures
        written == gather_spec(dev_w.mem, p_out.data),
        backing_bytes(dev_r.disk_image).subrange(
            SECTOR_SIZE * p_in.sector,
            SECTOR_SIZE * p_in.sector + p_in.total_len,
        ) == written,
        status_of(p_out, backing_bytes(dev_w.disk_image).len() as int) == VIRTIO_BLK_S_OK,
        status_of(p_in, backing_bytes(dev_r.disk_image).len() as int) == VIRTIO_BLK_S_OK,
        dev_r.mem_after_data(p_in) == scatter_spec(
            dev_r.mem@,
            dev_r.mem.base_spec(),
            p_in.data,
            written,
        ),
{
    let written = gather_spec(dev_w.mem, p_out.data);
    lemma_gather_len(dev_w.mem, p_out.data);
    crate::backing::lemma_backing_round_trip(
        backing_bytes(dev_w.disk_image),
        SECTOR_SIZE * p_out.sector,
        written,
    );
    written
}

} // verus!
