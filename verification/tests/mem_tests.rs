use asgard_manager::mem::{GuestMemory, MemError};

#[test]
fn guest_memory_starts_zeroed() {
    let mem = GuestMemory::new(0x4000, 64);
    assert_eq!(mem.len(), 64);
    assert_eq!(mem.base(), 0x4000);
    assert_eq!(mem.read_bytes(0x4000, 64), vec![0u8; 64]);
}

#[test]
fn guest_memory_scalars_are_little_endian() {
    let mut mem = GuestMemory::new(0, 64);
    mem.write_bytes(0, &[0x78, 0x56, 0x34, 0x12]);
    assert_eq!(mem.read_u32(0), 0x12345678);
    assert_eq!(mem.read_u16(0), 0x5678);

    mem.write_u16(8, 0xBEEF);
    assert_eq!(mem.read_bytes(8, 2), vec![0xEF, 0xBE]);

    mem.write_u32(16, 0xCAFEBABE);
    assert_eq!(mem.read_bytes(16, 4), vec![0xBE, 0xBA, 0xFE, 0xCA]);
    assert_eq!(mem.read_u64(16), 0x00000000CAFEBABE);
}

#[test]
fn guest_memory_range_checks_respect_base_and_length() {
    let mem = GuestMemory::new(0x1000, 0x100);
    assert!(mem.check_range(0x1000, 0x100));
    assert!(mem.check_range(0x10FF, 1));
    assert!(!mem.check_range(0x0FFF, 1));
    assert!(!mem.check_range(0x1100, 1));
    assert!(!mem.check_range(0x1000, 0x101));
    assert!(mem.check_range(0x1100, 0));
}

#[test]
fn guest_memory_checked_accesses_reject_out_of_bounds() {
    let mut mem = GuestMemory::new(0x1000, 64);
    assert_eq!(mem.try_read_u32(0x0FFF), Err(MemError::OutOfBounds));
    assert_eq!(mem.try_read_u32(0x1000 + 61), Err(MemError::OutOfBounds));
    assert_eq!(mem.try_read_u64(0x1000 + 60), Err(MemError::OutOfBounds));
    assert_eq!(mem.try_read_bytes(0x1000, 65), Err(MemError::OutOfBounds));
    assert_eq!(mem.try_write_bytes(0x1000 + 62, &[1, 2, 3]), Err(MemError::OutOfBounds));

    mem.try_write_bytes(0x1000, &[0x01, 0x00, 0x00, 0x00, 0x02, 0x00, 0x00, 0x00]).unwrap();
    assert_eq!(mem.try_read_u32(0x1000), Ok(1));
    assert_eq!(mem.try_read_u64(0x1000), Ok(0x0000000200000001));
    assert_eq!(mem.try_read_bytes(0x1000, 2), Ok(vec![1, 0]));
}

#[test]
fn guest_memory_write_then_read_round_trip() {
    let mut mem = GuestMemory::new(0, 4096);
    let data: Vec<u8> = (0u8..=255).collect();
    mem.write_bytes(128, &data);
    assert_eq!(mem.read_bytes(128, 256), data);
    // Bytes around the written range stay zero.
    assert_eq!(mem.read_u8(127), 0);
    assert_eq!(mem.read_u8(128 + 256), 0);
}
