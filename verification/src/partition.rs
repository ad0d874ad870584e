//! Partition lifecycle: the backend-abstracted handle owning a VM object in
//! the host hypervisor. The decisions — which transitions are legal, what
//! configuration is valid, and that the host handle is destroyed exactly
//! once — live here; the host calls themselves are made by whoever drives
//! the lifecycle.
use vstd::prelude::*;

verus! {

/// Guest page size; mapped memory must be a whole number of pages.
pub const PAGE_SIZE: u64 = 4096;

/// Largest permitted vCPU count.
pub const MAX_VCPUS: u32 = 64;

/// Lifecycle states of a partition.
#[derive(Clone, Copy, PartialEq, Eq, Structural, Debug)]
pub enum PartitionState {
    /// Instantiated in the host hypervisor, not yet configured.
    Created,
    /// Properties set; not yet runnable.
    Configured,
    /// Runnable: vCPUs may be created and memory mapped.
    Finalized,
    /// Torn down; the host handle has been destroyed.
    Destroyed,
}

/// Rejected configuration, surfaced before the partition is finalized.
#[derive(Clone, Copy, PartialEq, Eq, Structural, Debug)]
pub enum ConfigError {
    /// vCPU count outside `1..=64`.
    VcpuCountOutOfRange,
    /// Mapped memory not a positive whole number of pages.
    MemorySizeNotPageAligned,
    /// vCPU ids must be created in sequence, below the configured count.
    VcpuIdOutOfSequence,
}

/// A partition: the owning handle of one hypervisor VM object, tracked
/// through its lifecycle. Exactly one destroy is issued per handle, on
/// teardown.
pub struct Partition {
    /// Current lifecycle state.
    pub state: PartitionState,
    /// Configured number of vCPUs.
    pub vcpu_count: u32,
    /// Whether guest memory has been registered.
    pub memory_mapped: bool,
    /// How many vCPUs have been created so far.
    pub vcpus_created: u32,
    /// How many destroy calls have been issued to the host for this handle.
    pub destroy_calls: u32,
}

impl Partition {
    /// The handle is destroyed exactly once, exactly when it reaches the
    /// `Destroyed` state; vCPUs never exceed the configured count.
    pub open spec fn wf(self) -> bool {
        &&& self.destroy_calls == if self.state is Destroyed {
            1int
        } else {
            0int
        }
        &&& self.vcpus_created <= self.vcpu_count
        &&& self.state is Created ==> self.vcpus_created == 0
    }

    /// A freshly created partition.
    pub open spec fn created_spec() -> Partition {
        Partition {
            state: PartitionState::Created,
            vcpu_count: 0,
            memory_mapped: false,
            vcpus_created: 0,
            destroy_calls: 0,
        }
    }

    /// The partition after teardown: destroyed, with exactly one more
    /// destroy call issued.
    pub open spec fn teardown_spec(p: Partition) -> Partition {
        Partition { state: PartitionState::Destroyed, destroy_calls: (p.destroy_calls + 1) as u32, ..p }
    }

    /// Instantiates a partition: a fresh hypervisor VM object in its initial
    /// state, with no destroy issued yet.
    pub fn create() -> (r: Partition)
        ensures
            r == Self::created_spec(),
            r.wf(),
    {
        Partition {
            state: PartitionState::Created,
            vcpu_count: 0,
            memory_mapped: false,
            vcpus_created: 0,
            destroy_calls: 0,
        }
    }

    /// Sets the partition's vCPU count; must precede `finalize`. Counts
    /// outside `1..=64` are rejected and leave the partition unchanged.
    pub fn configure(&mut self, vcpu_count: u32) -> (r: Result<(), ConfigError>)
        requires
            old(self).state is Created,
            old(self).wf(),
        ensures
            final(self).wf(),
            r is Ok <==> 1 <= vcpu_count <= MAX_VCPUS,
            r is Ok ==> *final(self) == (Partition {
                state: PartitionState::Configured,
                vcpu_count,
                ..*old(self)
            }),
            r is Err ==> *final(self) == *old(self) && r == Err::<(), ConfigError>(
                ConfigError::VcpuCountOutOfRange,
            ),
    {
        if vcpu_count == 0 || vcpu_count > MAX_VCPUS {
            return Err(ConfigError::VcpuCountOutOfRange);
        }
        self.state = PartitionState::Configured;
        self.vcpu_count = vcpu_count;
        Ok(())
    }

    /// Transitions the configured partition to the runnable state.
    pub fn finalize(&mut self)
        requires
            old(self).state is Configured,
            old(self).wf(),
        ensures
            final(self).wf(),
            *final(self) == (Partition { state: PartitionState::Finalized, ..*old(self) }),
    {
        self.state = PartitionState::Finalized;
    }

    /// Registers host-backed memory of `size` bytes at `guest_base`. The
    /// size must be a positive whole number of pages; anything else is
    /// rejected and leaves the partition unchanged.
    pub fn map_memory(&mut self, guest_base: u64, size: u64) -> (r: Result<(), ConfigError>)
        requires
            old(self).state is Finalized,
            old(self).wf(),
        ensures
            final(self).wf(),
            r is Ok <==> size > 0 && size % PAGE_SIZE == 0,
            r is Ok ==> *final(self) == (Partition { memory_mapped: true, ..*old(self) }),
            r is Err ==> *final(self) == *old(self) && r == Err::<(), ConfigError>(
                ConfigError::MemorySizeNotPageAligned,
            ),
    {
        if size == 0 || size % PAGE_SIZE != 0 {
            return Err(ConfigError::MemorySizeNotPageAligned);
        }
        self.memory_mapped = true;
        Ok(())
    }

    /// Creates the vCPU with the given id. Ids are created in sequence,
    /// `0` up to the configured count, after memory is mapped.
    pub fn create_vcpu(&mut self, id: u32) -> (r: Result<(), ConfigError>)
        requires
            old(self).state is Finalized,
            old(self).memory_mapped,
            old(self).wf(),
        ensures
            final(self).wf(),
            r is Ok <==> id == old(self).vcpus_created && id < old(self).vcpu_count,
            r is Ok ==> *final(self) == (Partition {
                vcpus_created: (id + 1) as u32,
                ..*old(self)
            }),
            r is Err ==> *final(self) == *old(self) && r == Err::<(), ConfigError>(
                ConfigError::VcpuIdOutOfSequence,
            ),
    {
        if id != self.vcpus_created || id >= self.vcpu_count {
            return Err(ConfigError::VcpuIdOutOfSequence);
        }
        self.vcpus_created = id + 1;
        Ok(())
    }

    /// Tears the partition down from any live state — finalized or not —
    /// issuing exactly one destroy of the host handle.
    pub fn teardown(&mut self)
        requires
            !(old(self).state is Destroyed),
            old(self).wf(),
        ensures
            final(self).wf(),
            *final(self) == Self::teardown_spec(*old(self)),
            final(self).destroy_calls == 1,
    {
        self.state = PartitionState::Destroyed;
        self.destroy_calls = self.destroy_calls + 1;
    }
}

/// A partition that is created and then torn down without ever being
/// finalized still releases its host handle, exactly once: no leak.
pub proof fn lemma_create_drop_releases_handle()
    ensures
        Partition::teardown_spec(Partition::created_spec()).state is Destroyed,
        Partition::teardown_spec(Partition::created_spec()).destroy_calls == 1,
{
}

} // verus!
