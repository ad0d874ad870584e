//! A minimal cross-platform virtual-machine monitor core: guest memory,
//! a virtio-MMIO block device with its split virtqueue, interrupt plumbing,
//! partition lifecycle, and vCPU exit classification.

pub mod backing;
pub mod block;
pub mod config;
pub mod images;
pub mod interrupt;
pub mod mem;
pub mod partition;
pub mod vcpu;
pub mod virtqueue;
