//! Virtual-machine configuration: memory size and vCPU core count.
use vstd::prelude::*;

verus! {

/// Configuration for a virtual machine instance: memory size in bytes and
/// the number of vCPU cores. A core count of 0 or 1 is normalized to 2.
pub struct VmSetup {
    memory: usize,
    cpu_cores_count: u32,
}

/// Number of bytes in one megabyte.
pub const BYTES_PER_MEGABYTE: u64 = 0x100000;

impl VmSetup {
    /// Memory size in bytes, as configured.
    pub closed spec fn memory_spec(self) -> usize {
        self.memory
    }

    /// Number of vCPU cores, as configured.
    pub closed spec fn cpu_cores_spec(self) -> u32 {
        self.cpu_cores_count
    }

    /// Builds a configuration from a memory size in megabytes and a core
    /// count; a core count of 0 or 1 is normalized to 2.
    pub fn new(mega_bytes: u32, cpu_cores_count: u32) -> (r: VmSetup)
        requires
            mega_bytes * BYTES_PER_MEGABYTE <= usize::MAX,
        ensures
            r.memory_spec() == mega_bytes * BYTES_PER_MEGABYTE,
            r.cpu_cores_spec() == (if cpu_cores_count == 0 || cpu_cores_count == 1 {
                2u32
            } else {
                cpu_cores_count
            }),
    {
        let cpu_cores_to_set: u32 = if cpu_cores_count == 0 || cpu_cores_count == 1 {
            2
        } else {
            cpu_cores_count
        };
        let memory: usize = (mega_bytes as u64 * BYTES_PER_MEGABYTE) as usize;
        VmSetup { memory, cpu_cores_count: cpu_cores_to_set }
    }

    /// The configured memory size in bytes.
    pub fn get_memory_size(&self) -> (r: usize)
        ensures
            r == self.memory_spec(),
    {
        self.memory
    }

    /// The configured number of vCPU cores.
    pub fn get_cpu_cores_count(&self) -> (r: u32)
        ensures
            r == self.cpu_cores_spec(),
    {
        self.cpu_cores_count
    }
}

} // verus!
