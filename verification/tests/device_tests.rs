use asgard_manager::backing::{backing_len, backing_map_anon, backing_read, backing_write};
use asgard_manager::block::VirtioBlockDevice;
use asgard_manager::interrupt::InterruptLine;
use asgard_manager::mem::GuestMemory;

// Guest memory of 64 KiB at address 0, as the device tests use throughout.
fn create_guest_memory() -> GuestMemory {
    GuestMemory::new(0, 0x10000)
}

// An anonymous backing region standing in for a disk image file.
fn create_disk_image(size: usize) -> memmap2::MmapMut {
    backing_map_anon(size).expect("Failed to map disk image")
}

fn create_real_interrupt() -> InterruptLine {
    let gsi = 5;
    InterruptLine::new(gsi).expect("Failed to create Interrupt")
}

fn create_device(backing_size: usize) -> VirtioBlockDevice {
    let mem = create_guest_memory();
    let disk_image = create_disk_image(backing_size);
    let interrupt = create_real_interrupt();
    VirtioBlockDevice::new(mem, disk_image, 0x1000, interrupt).expect("Failed to create device")
}

// Writes descriptor `index` of the descriptor table at 0x1000.
fn write_desc(dev: &mut VirtioBlockDevice, index: u64, addr: u64, len: u32, flags: u16, next: u16) {
    let base = 0x1000 + 16 * index;
    dev.mem.write_bytes(base, &addr.to_le_bytes());
    dev.mem.write_bytes(base + 8, &len.to_le_bytes());
    dev.mem.write_u16(base + 12, flags);
    dev.mem.write_u16(base + 14, next);
}

// Publishes `head` in available-ring slot `slot` and moves the index to `idx`.
fn push_avail(dev: &mut VirtioBlockDevice, slot: u16, head: u16, idx: u16) {
    dev.mem.write_u16(0x2000 + 4 + 2 * slot as u64, head);
    dev.mem.write_u16(0x2002, idx);
}

// Writes a block request header (type, reserved, sector) at `addr`.
fn write_header(dev: &mut VirtioBlockDevice, addr: u64, req_type: u32, sector: u64) {
    dev.mem.write_u32(addr, req_type);
    dev.mem.write_u32(addr + 4, 0);
    dev.mem.write_bytes(addr + 8, &sector.to_le_bytes());
}

// Queues a conforming three-descriptor chain: header at 0x4000, one data
// buffer, one status byte; head is descriptor 0 in available slot `slot`.
fn queue_chain(
    dev: &mut VirtioBlockDevice,
    slot: u16,
    req_type: u32,
    sector: u64,
    data_addr: u64,
    data_len: u32,
    status_addr: u64,
) {
    write_desc(dev, 0, 0x4000, 16, 1, 1);
    write_desc(dev, 1, data_addr, data_len, 1 | 2, 2);
    write_desc(dev, 2, status_addr, 1, 2, 0);
    write_header(dev, 0x4000, req_type, sector);
    push_avail(dev, slot, 0, slot + 1);
}

fn used_idx(dev: &VirtioBlockDevice) -> u16 {
    dev.mem.read_u16(0x3002)
}

fn used_elem(dev: &VirtioBlockDevice, slot: u64) -> (u32, u32) {
    let id = dev.mem.read_u32(0x3000 + 4 + 8 * slot);
    let len = dev.mem.read_u32(0x3000 + 4 + 8 * slot + 4);
    (id, len)
}

#[test]
fn test_virtio_block_device_new() {
    let mem = create_guest_memory();
    let disk_image = create_disk_image(512 * 1024);
    let interrupt = create_real_interrupt();

    let device = VirtioBlockDevice::new(mem, disk_image, 0x1000, interrupt);
    assert!(device.is_ok(), "VirtioBlockDevice::new should succeed");
}

#[test]
fn test_virtio_block_device_read_mmio() {
    let device = create_device(512 * 1024);

    assert_eq!(device.read_mmio(0x000), 0x74726976);
    assert_eq!(device.read_mmio(0x004), 2);
    assert_eq!(device.read_mmio(0x008), 2);
    assert_eq!(device.read_mmio(0x00c), 0x554d4551);
    assert_eq!(device.read_mmio(0x010), 0);
    assert_eq!(device.read_mmio(0x100), 0);
}

#[test]
fn test_virtio_block_device_write_mmio_queue_notify_no_panic() {
    let mut device = create_device(512 * 1024);

    // Writing to QUEUE_NOTIFY triggers chain processing; should not panic.
    device.write_mmio(0x50);
}

#[test]
fn test_virtio_block_device_process_descriptor_chain_empty_queue() {
    let mut device = create_device(512 * 1024);

    // The queue is empty, so processing returns immediately without error.
    device.process_descriptor_chain();
}

#[test]
fn test_virtio_block_device_invalid_queue() {
    let mut device = create_device(512 * 1024);

    device.queue.set_ready(false);

    // process_descriptor_chain should return early without panic.
    device.process_descriptor_chain();
    assert_eq!(used_idx(&device), 0);
}

#[test]
fn test_virtio_block_device_trigger_interrupt() {
    let mut device = create_device(512 * 1024);

    let result = device.interrupt_controller.trigger();
    assert!(result.is_ok(), "Interrupt trigger should succeed");
    assert_eq!(device.interrupt_controller.get_triggered(), 1);
}

#[test]
fn test_virtio_block_device_process_descriptor_chain_invalid_request_type() {
    let mut device = create_device(512 * 1024);

    device.process_descriptor_chain();
}

#[test]
fn test_virtio_block_device_read_write_disk_image_bounds() {
    let mut device = create_device(512 * 1024);

    backing_write(&mut device.disk_image, 0, 4, &[1, 2, 3, 4]);
    assert_eq!(
        backing_read(&device.disk_image, 0, 4),
        vec![1, 2, 3, 4],
        "Disk image content should match written bytes"
    );
}

#[test]
fn mmio_magic_probe() {
    let device = create_device(4096);
    assert_eq!(device.read_mmio(0x000), 0x74726976);
    assert_eq!(device.read_mmio(0x004), 2);
    assert_eq!(device.read_mmio(0x008), 2);
    assert_eq!(device.read_mmio(0x00C), 0x554D4551);
    assert_eq!(device.read_mmio(0x010), 0);
    assert_eq!(device.read_mmio(0x100), 0);
}

#[test]
fn single_sector_read() {
    let mut device = create_device(4096);
    backing_write(&mut device.disk_image, 0, 4, &[0xDE, 0xAD, 0xBE, 0xEF]);

    queue_chain(&mut device, 0, 0, 0, 0x5000, 512, 0x5400);
    device.write_mmio(0x50);

    assert_eq!(device.mem.read_bytes(0x5000, 4), vec![0xDE, 0xAD, 0xBE, 0xEF]);
    assert_eq!(device.mem.read_u8(0x5400), 0, "status byte should report success");
    assert_eq!(used_idx(&device), 1, "used ring should advance by 1");
    assert_eq!(used_elem(&device, 0), (0, 512));
    assert_eq!(device.interrupt_controller.get_triggered(), 1, "IRQ trigger observed");
}

#[test]
fn single_sector_write() {
    let mut device = create_device(4096);
    device.mem.write_bytes(0x5000, &[0x01, 0x02, 0x03, 0x04, 0x05, 0x06, 0x07, 0x08]);

    queue_chain(&mut device, 0, 1, 3, 0x5000, 512, 0x5400);
    device.write_mmio(0x50);

    assert_eq!(
        backing_read(&device.disk_image, 1536, 1544),
        vec![0x01, 0x02, 0x03, 0x04, 0x05, 0x06, 0x07, 0x08]
    );
    assert_eq!(device.mem.read_u8(0x5400), 0);
    assert_eq!(used_idx(&device), 1);
}

#[test]
fn unsupported_request_type() {
    let mut device = create_device(4096);
    let before = backing_read(&device.disk_image, 0, 4096);

    queue_chain(&mut device, 0, 99, 0, 0x5000, 512, 0x5400);
    device.write_mmio(0x50);

    assert_eq!(device.mem.read_u8(0x5400), 2, "status byte should report unsupported");
    assert_eq!(used_idx(&device), 1, "used ring should still advance");
    assert_eq!(used_elem(&device, 0), (0, 512));
    let after = backing_read(&device.disk_image, 0, 4096);
    assert_eq!(before, after, "no backing mutation");
}

#[test]
fn out_of_bounds_sector() {
    let mut device = create_device(4096);

    queue_chain(&mut device, 0, 0, 1 << 30, 0x5000, 512, 0x5400);
    let guest_data_before = device.mem.read_bytes(0x5000, 512);
    device.write_mmio(0x50);

    assert_eq!(device.mem.read_u8(0x5400), 1, "status byte should report an I/O error");
    assert_eq!(used_idx(&device), 1, "used ring should still advance");
    assert_eq!(
        device.mem.read_bytes(0x5000, 512),
        guest_data_before,
        "no guest mutation beyond the status byte"
    );
}

#[test]
fn sector_offset_overflow_reports_io_error() {
    let mut device = create_device(4096);

    // sector * 512 overflows u64; the device must answer with an I/O error.
    queue_chain(&mut device, 0, 0, u64::MAX / 2, 0x5000, 512, 0x5400);
    device.write_mmio(0x50);

    assert_eq!(device.mem.read_u8(0x5400), 1);
    assert_eq!(used_idx(&device), 1);
}

#[test]
fn flush_get_id_and_discard_succeed_without_effect() {
    for req_type in [4u32, 8, 11] {
        let mut device = create_device(4096);
        let before = backing_read(&device.disk_image, 0, 4096);
        queue_chain(&mut device, 0, req_type, 0, 0x5000, 512, 0x5400);
        device.write_mmio(0x50);
        assert_eq!(device.mem.read_u8(0x5400), 0, "type {req_type} should succeed");
        assert_eq!(used_idx(&device), 1);
        assert_eq!(backing_read(&device.disk_image, 0, 4096), before);
    }
}

#[test]
fn malformed_chain_published_for_recovery() {
    let mut device = create_device(4096);

    // A two-descriptor chain: header and data, but no status descriptor.
    // The device publishes it with length 0 and leaves the unsupported
    // status in the last descriptor's buffer so the driver can recover.
    write_desc(&mut device, 0, 0x4000, 16, 1, 1);
    write_desc(&mut device, 1, 0x5000, 512, 2, 0);
    write_header(&mut device, 0x4000, 0, 0);
    push_avail(&mut device, 0, 0, 1);

    device.write_mmio(0x50);

    assert_eq!(used_idx(&device), 1, "a malformed chain is still published");
    assert_eq!(used_elem(&device, 0), (0, 0), "published with length 0");
    assert_eq!(device.mem.read_u8(0x5000), 2, "unsupported status at the reachable target");
    assert_eq!(device.interrupt_controller.get_triggered(), 1, "the driver is notified");
}

#[test]
fn cyclic_chain_published_without_status() {
    let mut device = create_device(4096);

    // Descriptor 0 chains to itself: the walk fails, so no status target is
    // known; the head is still published with length 0.
    write_desc(&mut device, 0, 0x4000, 16, 1, 0);
    write_header(&mut device, 0x4000, 0, 0);
    let header_before = device.mem.read_bytes(0x4000, 16);
    push_avail(&mut device, 0, 0, 1);

    device.write_mmio(0x50);

    assert_eq!(used_idx(&device), 1);
    assert_eq!(used_elem(&device, 0), (0, 0));
    assert_eq!(device.mem.read_bytes(0x4000, 16), header_before, "no status byte was written");
    assert_eq!(device.interrupt_controller.get_triggered(), 1);
}

#[test]
fn out_of_range_next_chain_published_for_recovery() {
    let mut device = create_device(4096);

    // The header chains to a descriptor index beyond the queue size.
    write_desc(&mut device, 0, 0x4000, 16, 1, 5000);
    write_header(&mut device, 0x4000, 0, 0);
    push_avail(&mut device, 0, 0, 1);

    device.write_mmio(0x50);

    assert_eq!(used_idx(&device), 1);
    assert_eq!(used_elem(&device, 0), (0, 0));
    assert_eq!(device.interrupt_controller.get_triggered(), 1);
}

#[test]
fn publication_precedes_interrupt() {
    let mut device = create_device(4096);
    queue_chain(&mut device, 0, 0, 0, 0x5000, 512, 0x5400);
    device.write_mmio(0x50);

    // The interrupt was observed, and at that point the used ring already
    // carried the completion.
    assert_eq!(device.interrupt_controller.get_triggered(), 1);
    assert_eq!(used_idx(&device), 1);
    assert_eq!(used_elem(&device, 0), (0, 512));
}

#[test]
fn notification_suppressed_by_avail_flags() {
    let mut device = create_device(4096);
    queue_chain(&mut device, 0, 0, 0, 0x5000, 512, 0x5400);
    // The driver asks for no interrupt.
    device.mem.write_u16(0x2000, 1);

    device.write_mmio(0x50);

    assert_eq!(used_idx(&device), 1, "completion is still published");
    assert_eq!(device.interrupt_controller.get_triggered(), 0, "but no interrupt is raised");
}

#[test]
fn sector_round_trip_through_device() {
    let mut device = create_device(4096);

    // Write guest bytes to sector 2 ...
    device.mem.write_bytes(0x5000, &[0xAA, 0xBB, 0xCC, 0xDD]);
    queue_chain(&mut device, 0, 1, 2, 0x5000, 512, 0x5400);
    device.write_mmio(0x50);
    assert_eq!(device.mem.read_u8(0x5400), 0);

    // ... then read sector 2 back into a different guest buffer.
    queue_chain(&mut device, 1, 0, 2, 0x6000, 512, 0x6400);
    device.write_mmio(0x50);
    assert_eq!(device.mem.read_u8(0x6400), 0);

    assert_eq!(device.mem.read_bytes(0x6000, 512), device.mem.read_bytes(0x5000, 512));
    assert_eq!(device.mem.read_bytes(0x6000, 4), vec![0xAA, 0xBB, 0xCC, 0xDD]);
    assert_eq!(used_idx(&device), 2);
}

#[test]
fn backing_round_trip_and_lengths() {
    let mut disk = backing_map_anon(2048).expect("map");
    assert_eq!(backing_len(&disk), 2048);
    let payload: Vec<u8> = (0u8..=255).collect();
    backing_write(&mut disk, 512, 768, &payload[0..256]);
    assert_eq!(backing_read(&disk, 512, 768), payload[0..256].to_vec());
    assert_eq!(backing_read(&disk, 0, 4), vec![0, 0, 0, 0]);
}

#[test]
fn device_rejects_unaligned_backing() {
    let mem = create_guest_memory();
    let disk_image = create_disk_image(1000);
    let interrupt = create_real_interrupt();
    let err = match VirtioBlockDevice::new(mem, disk_image, 0x1000, interrupt) {
        Ok(_) => panic!("construction should fail"),
        Err(e) => e,
    };
    assert_eq!(err, "disk image size is not a multiple of the sector size");
}

#[test]
fn device_rejects_rings_outside_guest_memory() {
    // Guest memory too small to hold the rings at their fixed addresses.
    let mem = GuestMemory::new(0, 0x1800);
    let disk_image = create_disk_image(4096);
    let interrupt = create_real_interrupt();
    let err = match VirtioBlockDevice::new(mem, disk_image, 0x1000, interrupt) {
        Ok(_) => panic!("construction should fail"),
        Err(e) => e,
    };
    assert_eq!(err, "queue is invalid");
}
