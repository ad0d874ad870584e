use asgard_manager::mem::GuestMemory;
use asgard_manager::virtqueue::{wrap_inc16, Virtqueue};

#[test]
fn virtqueue_is_valid_only_for_rings_inside_guest_memory() {
    let mem = GuestMemory::new(0, 0x10000);
    let mut q = Virtqueue::new(1024);
    q.set_addresses(0x1000, 0x2000, 0x3000);
    q.set_ready(true);
    assert!(q.is_valid(&mem));

    // Descriptor table outside guest memory.
    q.set_addresses(0x20000, 0x2000, 0x3000);
    assert!(!q.is_valid(&mem));

    // Available ring runs past the end of guest memory.
    q.set_addresses(0x1000, 0xFFF0, 0x3000);
    assert!(!q.is_valid(&mem));

    // Used ring outside guest memory.
    q.set_addresses(0x1000, 0x2000, 0x10000);
    assert!(!q.is_valid(&mem));
}

#[test]
fn virtqueue_is_valid_requires_ring_alignment() {
    let mem = GuestMemory::new(0, 0x10000);
    let mut q = Virtqueue::new(1024);
    q.set_addresses(0x1008, 0x2000, 0x3000);
    assert!(!q.is_valid(&mem), "descriptor table must be 16-byte aligned");
    q.set_addresses(0x1000, 0x2001, 0x3000);
    assert!(!q.is_valid(&mem), "available ring must be 2-byte aligned");
    q.set_addresses(0x1000, 0x2000, 0x3002);
    assert!(!q.is_valid(&mem), "used ring must be 4-byte aligned");
}

#[test]
fn ring_indices_wrap_at_sixteen_bits() {
    assert_eq!(wrap_inc16(0), 1);
    assert_eq!(wrap_inc16(0xFFFE), 0xFFFF);
    assert_eq!(wrap_inc16(0xFFFF), 0);
}
