//! Split virtqueue per the virtio 1.x specification: descriptor table,
//! available ring and used ring living in guest memory, with a device-local
//! cursor into the available ring and a shadow of the published used index.
use vstd::prelude::*;
use vstd::bytes::{spec_u16_from_le_bytes, spec_u16_to_le_bytes, spec_u32_to_le_bytes};
use crate::mem::{GuestMemory, update_range};

verus! {

/// Descriptor flag: the descriptor continues via its `next` field.
pub const VIRTQ_DESC_F_NEXT: u16 = 1;

/// Descriptor flag: the buffer is device-writable.
pub const VIRTQ_DESC_F_WRITE: u16 = 2;

/// Available-ring flag: the driver does not want an interrupt.
pub const VIRTQ_AVAIL_F_NO_INTERRUPT: u16 = 1;

/// One entry of the descriptor table: a guest buffer with chaining flags.
#[derive(Clone, Copy, PartialEq, Eq, Structural, Debug)]
pub struct Descriptor {
    /// Guest-physical address of the buffer.
    pub addr: u64,
    /// Length of the buffer in bytes.
    pub len: u32,
    /// Combination of the `VIRTQ_DESC_F_*` flags.
    pub flags: u16,
    /// Index of the following descriptor, meaningful when `VIRTQ_DESC_F_NEXT` is set.
    pub next: u16,
}

/// `x + 1` modulo 2^16, the wrap rule for ring indices.
pub open spec fn wrap_inc16_spec(x: u16) -> u16 {
    if x == 0xFFFF {
        0u16
    } else {
        (x + 1) as u16
    }
}

/// `x + 1` modulo 2^16.
pub fn wrap_inc16(x: u16) -> (r: u16)
    ensures
        r == wrap_inc16_spec(x),
{
    if x == 0xFFFF {
        0
    } else {
        x + 1
    }
}

/// Device-local state of a split virtqueue. The ring storage itself lives in
/// guest memory; this holds the configured addresses and cursors.
///
/// Well-formedness: `0 < size`; the ring addresses are meaningful for a given
/// guest memory only when `valid_for` holds.
pub struct Virtqueue {
    /// Number of descriptors in the ring.
    pub size: u16,
    /// Whether the driver has marked the queue ready.
    pub ready: bool,
    /// Guest-physical address of the descriptor table (16-byte aligned).
    pub desc_table_addr: u64,
    /// Guest-physical address of the available ring (2-byte aligned).
    pub avail_ring_addr: u64,
    /// Guest-physical address of the used ring (4-byte aligned).
    pub used_ring_addr: u64,
    /// Index of the next available-ring slot to consume; non-decreasing modulo 2^16.
    pub last_avail_idx: u16,
    /// Index the device will publish with the next used element.
    pub next_used_idx: u16,
}

impl Virtqueue {
    /// The queue has a usable size.
    pub open spec fn wf(self) -> bool {
        0 < self.size
    }

    /// Size in bytes of the descriptor table.
    pub open spec fn desc_table_bytes(self) -> int {
        16 * self.size
    }

    /// Size in bytes of the available ring (flags, idx, ring, used_event).
    pub open spec fn avail_ring_bytes(self) -> int {
        6 + 2 * self.size
    }

    /// Size in bytes of the used ring (flags, idx, ring, avail_event).
    pub open spec fn used_ring_bytes(self) -> int {
        6 + 8 * self.size
    }

    /// All three rings lie inside guest memory at their required alignments
    /// (descriptor table 16 bytes, available ring 2, used ring 4).
    pub open spec fn valid_for(self, mem: GuestMemory) -> bool {
        &&& self.wf()
        &&& mem.wf()
        &&& mem.contains_range(self.desc_table_addr, (16 * self.size as u64) as u64)
        &&& self.desc_table_addr % 16 == 0
        &&& mem.contains_range(self.avail_ring_addr, (6 + 2 * self.size as u64) as u64)
        &&& self.avail_ring_addr % 2 == 0
        &&& mem.contains_range(self.used_ring_addr, (6 + 8 * self.size as u64) as u64)
        &&& self.used_ring_addr % 4 == 0
    }

    /// The driver-written index of the available ring, read from raw guest
    /// memory bytes placed at `base`.
    pub open spec fn avail_idx_of(self, base: u64, m: Seq<u8>) -> u16 {
        spec_u16_from_le_bytes(
            m.subrange(self.avail_ring_addr - base + 2, self.avail_ring_addr - base + 4),
        )
    }

    /// The driver-written index of the available ring.
    pub open spec fn avail_idx_spec(self, mem: GuestMemory) -> u16 {
        mem.u16_at((self.avail_ring_addr + 2) as u64)
    }

    /// The driver-written flags word of the available ring.
    pub open spec fn avail_flags_spec(self, mem: GuestMemory) -> u16 {
        mem.u16_at(self.avail_ring_addr)
    }

    /// The available-ring entry in slot `slot`.
    pub open spec fn avail_entry_spec(self, mem: GuestMemory, slot: u16) -> u16 {
        mem.u16_at((self.avail_ring_addr + 4 + 2 * slot as u64) as u64)
    }

    /// The used-ring index as currently stored in guest memory.
    pub open spec fn used_idx_spec(self, mem: GuestMemory) -> u16 {
        mem.u16_at((self.used_ring_addr + 2) as u64)
    }

    /// The descriptor stored at `index` in the descriptor table.
    pub open spec fn desc_spec(self, mem: GuestMemory, index: u16) -> Descriptor {
        Descriptor {
            addr: mem.u64_at((self.desc_table_addr + 16 * index as u64) as u64),
            len: mem.u32_at((self.desc_table_addr + 16 * index as u64 + 8) as u64),
            flags: mem.u16_at((self.desc_table_addr + 16 * index as u64 + 12) as u64),
            next: mem.u16_at((self.desc_table_addr + 16 * index as u64 + 14) as u64),
        }
    }

    /// The descriptor chain starting at `index`, bounded by `fuel` steps;
    /// `None` when an index is out of range or the walk exceeds the bound
    /// (which defeats cycles).
    pub open spec fn chain_from(self, mem: GuestMemory, index: u16, fuel: nat) -> Option<
        Seq<Descriptor>,
    >
        decreases fuel,
    {
        if fuel == 0 {
            None
        } else if index >= self.size {
            None
        } else {
            let d = self.desc_spec(mem, index);
            if d.flags & VIRTQ_DESC_F_NEXT == 0 {
                Some(seq![d])
            } else {
                match self.chain_from(mem, d.next, (fuel - 1) as nat) {
                    None => None,
                    Some(rest) => Some(seq![d] + rest),
                }
            }
        }
    }

    /// The descriptor chain starting at `head`, bounded to `size` steps.
    pub open spec fn chain_spec(self, mem: GuestMemory, head: u16) -> Option<Seq<Descriptor>> {
        self.chain_from(mem, head, self.size as nat)
    }

    /// Creates a queue of `size` descriptors: not ready, all ring addresses
    /// zero, cursors at zero.
    pub fn new(size: u16) -> (r: Virtqueue)
        requires
            0 < size,
        ensures
            r == (Virtqueue {
                size,
                ready: false,
                desc_table_addr: 0,
                avail_ring_addr: 0,
                used_ring_addr: 0,
                last_avail_idx: 0,
                next_used_idx: 0,
            }),
    {
        Virtqueue {
            size,
            ready: false,
            desc_table_addr: 0,
            avail_ring_addr: 0,
            used_ring_addr: 0,
            last_avail_idx: 0,
            next_used_idx: 0,
        }
    }

    /// Configures the guest-physical addresses of the three rings.
    pub fn set_addresses(&mut self, desc: u64, avail: u64, used: u64)
        ensures
            *final(self) == (Virtqueue {
                desc_table_addr: desc,
                avail_ring_addr: avail,
                used_ring_addr: used,
                ..*old(self)
            }),
    {
        self.desc_table_addr = desc;
        self.avail_ring_addr = avail;
        self.used_ring_addr = used;
    }

    /// Marks the queue ready (or not).
    pub fn set_ready(&mut self, ready: bool)
        ensures
            *final(self) == (Virtqueue { ready, ..*old(self) }),
    {
        self.ready = ready;
    }

    /// Whether the driver has marked the queue ready.
    pub fn ready(&self) -> (r: bool)
        ensures
            r == self.ready,
    {
        self.ready
    }

    /// Checks that the ring addresses lie within guest memory at their
    /// required alignments.
    pub fn is_valid(&self, mem: &GuestMemory) -> (r: bool)
        requires
            mem.wf(),
        ensures
            r == self.valid_for(*mem),
    {
        if self.size == 0 {
            return false;
        }
        let size64 = self.size as u64;
        (mem.check_range(self.desc_table_addr, 16 * size64) && self.desc_table_addr % 16 == 0)
            && (mem.check_range(self.avail_ring_addr, 6 + 2 * size64) && self.avail_ring_addr % 2
            == 0) && (mem.check_range(self.used_ring_addr, 6 + 8 * size64) && self.used_ring_addr
            % 4 == 0)
    }

    /// Reads the descriptor at `index` from the descriptor table.
    pub fn read_descriptor(&self, mem: &GuestMemory, index: u16) -> (r: Descriptor)
        requires
            self.valid_for(*mem),
            index < self.size,
        ensures
            r == self.desc_spec(*mem, index),
    {
        let base = self.desc_table_addr + 16 * (index as u64);
        let addr = mem.read_u64(base);
        let len = mem.read_u32(base + 8);
        let flags = mem.read_u16(base + 12);
        let next = mem.read_u16(base + 14);
        Descriptor { addr, len, flags, next }
    }

    /// Walks the descriptor chain starting at `index` with `fuel` steps left.
    fn walk_chain_rec(&self, mem: &GuestMemory, index: u16, fuel: u16) -> (r: Result<
        Vec<Descriptor>,
        (),
    >)
        requires
            self.valid_for(*mem),
        ensures
            match (r, self.chain_from(*mem, index, fuel as nat)) {
                (Ok(v), Some(s)) => v@ == s,
                (Err(e), None) => true,
                _ => false,
            },
        decreases fuel,
    {
        if fuel == 0 {
            return Err(());
        }
        if index >= self.size {
            return Err(());
        }
        let d = self.read_descriptor(mem, index);
        if d.flags & VIRTQ_DESC_F_NEXT == 0 {
            let mut v: Vec<Descriptor> = Vec::new();
            v.push(d);
            assert(v@ =~= seq![d]);
            Ok(v)
        } else {
            match self.walk_chain_rec(mem, d.next, fuel - 1) {
                Ok(mut rest) => {
                    let ghost rest0 = rest@;
                    rest.insert(0, d);
                    assert(rest@ =~= seq![d] + rest0);
                    Ok(rest)
                },
                Err(e) => Err(e),
            }
        }
    }

    /// Collects the descriptor chain headed at `head`; `Err` means the chain
    /// is malformed (an out-of-range index, or a cycle defeated by bounding
    /// the walk to `size` steps).
    pub fn walk_chain(&self, mem: &GuestMemory, head: u16) -> (r: Result<Vec<Descriptor>, ()>)
        requires
            self.valid_for(*mem),
        ensures
            match (r, self.chain_spec(*mem, head)) {
                (Ok(v), Some(s)) => v@ == s,
                (Err(e), None) => true,
                _ => false,
            },
    {
        self.walk_chain_rec(mem, head, self.size)
    }

    /// Pops the head index of the next available chain, advancing the
    /// available-ring cursor; `None` when the queue is not ready or the
    /// available ring is empty.
    pub fn pop_chain_head(&mut self, mem: &GuestMemory) -> (r: Option<u16>)
        requires
            old(self).valid_for(*mem),
        ensures
            final(self).size == old(self).size,
            final(self).ready == old(self).ready,
            final(self).desc_table_addr == old(self).desc_table_addr,
            final(self).avail_ring_addr == old(self).avail_ring_addr,
            final(self).used_ring_addr == old(self).used_ring_addr,
            final(self).next_used_idx == old(self).next_used_idx,
            !old(self).ready ==> r is None && *final(self) == *old(self),
            old(self).ready && old(self).avail_idx_spec(*mem) == old(self).last_avail_idx ==> r
                is None && *final(self) == *old(self),
            old(self).ready && old(self).avail_idx_spec(*mem) != old(self).last_avail_idx ==> {
                &&& r == Some(
                    old(self).avail_entry_spec(
                        *mem,
                        (old(self).last_avail_idx % old(self).size) as u16,
                    ),
                )
                &&& final(self).last_avail_idx == wrap_inc16_spec(old(self).last_avail_idx)
            },
    {
        if !self.ready {
            return None;
        }
        let avail_idx = mem.read_u16(self.avail_ring_addr + 2);
        if avail_idx == self.last_avail_idx {
            return None;
        }
        let slot = self.last_avail_idx % self.size;
        assert(4 + 2 * slot + 2 <= 6 + 2 * self.size);
        let entry_addr = self.avail_ring_addr + 4 + 2 * (slot as u64);
        let head = mem.read_u16(entry_addr);
        self.last_avail_idx = wrap_inc16(self.last_avail_idx);
        Some(head)
    }

    /// Byte offset (from the guest base address `base`) of the used-ring
    /// element the device will fill next.
    pub open spec fn used_elem_off(self, base: u64) -> int {
        self.used_ring_addr - base + 4 + 8 * (self.next_used_idx % self.size)
    }

    /// Guest memory bytes after publishing `(head, len)` on the used ring:
    /// the element is written, then the used index advances by one.
    pub open spec fn used_publish_bytes(self, base: u64, m: Seq<u8>, head: u16, len: u32) -> Seq<
        u8,
    > {
        let after_elem = update_range(
            m,
            self.used_elem_off(base),
            spec_u32_to_le_bytes(head as u32) + spec_u32_to_le_bytes(len),
        );
        update_range(
            after_elem,
            self.used_ring_addr - base + 2,
            spec_u16_to_le_bytes(wrap_inc16_spec(self.next_used_idx)),
        )
    }

    /// Publishes `(head, len)` on the used ring: writes the element at the
    /// current used slot, then advances the published used index, in that
    /// order, so the guest observes the element before the index moves.
    pub fn add_used(&mut self, mem: &mut GuestMemory, head: u16, len: u32)
        requires
            old(self).valid_for(*old(mem)),
        ensures
            *final(self) == (Virtqueue {
                next_used_idx: wrap_inc16_spec(old(self).next_used_idx),
                ..*old(self)
            }),
            final(mem)@ == old(self).used_publish_bytes(old(mem).base_spec(), old(mem)@, head, len),
            final(mem).base_spec() == old(mem).base_spec(),
            final(mem)@.len() == old(mem)@.len(),
            final(self).valid_for(*final(mem)),
    {
        let slot = self.next_used_idx % self.size;
        assert(4 + 8 * slot + 8 <= 6 + 8 * self.size);
        let elem_addr = self.used_ring_addr + 4 + 8 * (slot as u64);
        let ghost mem0 = *mem;
        mem.write_u32(elem_addr, head as u32);
        mem.write_u32(elem_addr + 4, len);
        proof {
            vstd::bytes::lemma_auto_spec_u16_to_from_le_bytes();
            vstd::bytes::lemma_auto_spec_u32_to_from_le_bytes();
            lemma_update_range_adjacent(
                mem0@,
                self.used_elem_off(mem0.base_spec()),
                spec_u32_to_le_bytes(head as u32),
                spec_u32_to_le_bytes(len),
            );
            assert(mem@ =~= update_range(
                mem0@,
                self.used_elem_off(mem0.base_spec()),
                spec_u32_to_le_bytes(head as u32) + spec_u32_to_le_bytes(len),
            ));
        }
        let next = wrap_inc16(self.next_used_idx);
        mem.write_u16(self.used_ring_addr + 2, next);
        self.next_used_idx = next;
    }

    /// Whether the driver asks for a completion notification: true unless
    /// the available-ring flags word has `VIRTQ_AVAIL_F_NO_INTERRUPT` set.
    /// (No feature bits are offered, so event-index suppression is off.)
    pub fn needs_notification(&self, mem: &GuestMemory) -> (r: bool)
        requires
            self.valid_for(*mem),
        ensures
            r == (self.avail_flags_spec(*mem) & VIRTQ_AVAIL_F_NO_INTERRUPT == 0),
    {
        let flags = mem.read_u16(self.avail_ring_addr);
        flags & VIRTQ_AVAIL_F_NO_INTERRUPT == 0
    }
}

/// Number of upward steps that take ring index `from` to ring index `to`,
/// modulo 2^16; always below 2^16.
pub open spec fn u16_dist(from: u16, to: u16) -> nat {
    if to >= from {
        (to - from) as nat
    } else {
        ((to + 0x10000) - from) as nat
    }
}

/// One more wrap-increment is one more step, as long as the distance has not
/// wrapped all the way around.
pub proof fn lemma_u16_dist_step(x: u16, y: u16)
    requires
        u16_dist(x, y) < 0xFFFF,
    ensures
        u16_dist(x, wrap_inc16_spec(y)) == u16_dist(x, y) + 1,
{
}

/// A queue one of whose ring addresses lies outside guest memory is not
/// valid: `is_valid` returns false for it.
pub proof fn lemma_ring_outside_memory_invalid(q: Virtqueue, mem: GuestMemory, addr: u64)
    requires
        addr == q.desc_table_addr || addr == q.avail_ring_addr || addr == q.used_ring_addr,
        addr < mem.base_spec() || addr >= mem.base_spec() + mem@.len(),
    ensures
        !q.valid_for(mem),
{
}

/// Writing `d1` at `off` and then `d2` right after it is one contiguous write
/// of `d1 + d2` at `off`.
pub proof fn lemma_update_range_adjacent(s: Seq<u8>, off: int, d1: Seq<u8>, d2: Seq<u8>)
    requires
        0 <= off,
        off + d1.len() + d2.len() <= s.len(),
    ensures
        update_range(update_range(s, off, d1), off + d1.len(), d2) =~= update_range(
            s,
            off,
            d1 + d2,
        ),
{
    let lhs = update_range(update_range(s, off, d1), off + d1.len(), d2);
    let rhs = update_range(s, off, d1 + d2);
    assert forall|i: int| 0 <= i < lhs.len() implies lhs[i] == rhs[i] by {
        assert(update_range(s, off, d1).len() == s.len());
    }
}

} // verus!
