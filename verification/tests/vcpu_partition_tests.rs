use asgard_manager::partition::{ConfigError, Partition, PartitionState};
use asgard_manager::vcpu::{
    classify_hvf_exit, classify_kvm_exit, classify_whp_exit, first_fault, mmio_claim,
    reduce_vm_outcome, syndrome_ec, syndrome_iss, FaultReason, HvfExit, KvmExit, VcpuOutcome,
    WhpExit,
};

#[test]
fn kvm_halt_and_shutdown_are_clean_outcomes() {
    assert_eq!(classify_kvm_exit(&KvmExit::Hlt), VcpuOutcome::Halted);
    assert_eq!(classify_kvm_exit(&KvmExit::Shutdown), VcpuOutcome::Shutdown);
    assert!(!classify_kvm_exit(&KvmExit::Hlt).is_fault());
}

#[test]
fn kvm_unhandled_exits_fault() {
    assert_eq!(classify_kvm_exit(&KvmExit::IoIn), VcpuOutcome::Faulted(FaultReason::PortIn));
    assert_eq!(classify_kvm_exit(&KvmExit::IoOut), VcpuOutcome::Faulted(FaultReason::PortOut));
    assert_eq!(classify_kvm_exit(&KvmExit::MmioRead), VcpuOutcome::Faulted(FaultReason::MmioRead));
    assert_eq!(
        classify_kvm_exit(&KvmExit::MmioWrite),
        VcpuOutcome::Faulted(FaultReason::MmioWrite)
    );
    assert_eq!(
        classify_kvm_exit(&KvmExit::InternalError),
        VcpuOutcome::Faulted(FaultReason::InternalError)
    );
    assert_eq!(
        classify_kvm_exit(&KvmExit::SystemEvent),
        VcpuOutcome::Faulted(FaultReason::SystemEvent)
    );
    assert_eq!(classify_kvm_exit(&KvmExit::Other), VcpuOutcome::Faulted(FaultReason::Unknown));
}

#[test]
fn hvf_syndrome_decoding() {
    let syndrome = (0x24u64 << 26) | 0x00ABCD;
    assert_eq!(syndrome_ec(syndrome), 0x24);
    assert_eq!(syndrome_iss(syndrome), 0x00ABCD);
}

#[test]
fn hvf_exits_classified_by_exception_class() {
    assert_eq!(classify_hvf_exit(&HvfExit::Canceled), VcpuOutcome::Cancelled);
    let gpf = HvfExit::Exception { syndrome: 0x0Du64 << 26 };
    assert_eq!(classify_hvf_exit(&gpf), VcpuOutcome::Faulted(FaultReason::GeneralProtectionFault));
    let abort = HvfExit::Exception { syndrome: (0x24u64 << 26) | 0x10 };
    assert_eq!(classify_hvf_exit(&abort), VcpuOutcome::Faulted(FaultReason::DataAbort));
    let other = HvfExit::Exception { syndrome: 0x16u64 << 26 };
    assert_eq!(classify_hvf_exit(&other), VcpuOutcome::Faulted(FaultReason::Exception));
    assert_eq!(
        classify_hvf_exit(&HvfExit::VtimerActivated),
        VcpuOutcome::Faulted(FaultReason::VirtualTimer)
    );
    assert_eq!(classify_hvf_exit(&HvfExit::Unknown), VcpuOutcome::Faulted(FaultReason::Unknown));
}

#[test]
fn whp_halt_is_the_clean_outcome() {
    assert_eq!(classify_whp_exit(&WhpExit::Halt), VcpuOutcome::Halted);
    assert_eq!(
        classify_whp_exit(&WhpExit::NoReason),
        VcpuOutcome::Faulted(FaultReason::InvalidState)
    );
    assert_eq!(
        classify_whp_exit(&WhpExit::MemoryAccess),
        VcpuOutcome::Faulted(FaultReason::MemoryAccess)
    );
    assert_eq!(classify_whp_exit(&WhpExit::Cpuid), VcpuOutcome::Faulted(FaultReason::Cpuid));
}

// A vCPU that halts ends the VM cleanly: the halt outcome is not a fault,
// and a VM whose only vCPU halted reduces to a clean result.
#[test]
fn vcpu_halt_ends_vm_cleanly() {
    let outcome = classify_kvm_exit(&KvmExit::Hlt);
    assert_eq!(outcome, VcpuOutcome::Halted);
    let outcomes = vec![outcome];
    assert_eq!(reduce_vm_outcome(&outcomes), Ok(()));
}

#[test]
fn first_fault_wins_in_vm_reduction() {
    let outcomes = vec![
        VcpuOutcome::Halted,
        VcpuOutcome::Faulted(FaultReason::PortIn),
        VcpuOutcome::Faulted(FaultReason::Cpuid),
    ];
    assert_eq!(first_fault(&outcomes), Some(1));
    assert_eq!(reduce_vm_outcome(&outcomes), Err(VcpuOutcome::Faulted(FaultReason::PortIn)));

    let clean = vec![VcpuOutcome::Halted, VcpuOutcome::Shutdown, VcpuOutcome::Cancelled];
    assert_eq!(first_fault(&clean), None);
    assert_eq!(reduce_vm_outcome(&clean), Ok(()));
}

#[test]
fn mmio_window_claims_only_its_range() {
    assert_eq!(mmio_claim(0x1000, 0x1000), Some(0));
    assert_eq!(mmio_claim(0x1000, 0x1050), Some(0x50));
    assert_eq!(mmio_claim(0x1000, 0x1FFF), Some(0xFFF));
    assert_eq!(mmio_claim(0x1000, 0x2000), None);
    assert_eq!(mmio_claim(0x1000, 0x0FFF), None);
}

#[test]
fn partition_lifecycle_happy_path() {
    let mut p = Partition::create();
    assert_eq!(p.state, PartitionState::Created);
    assert_eq!(p.destroy_calls, 0);

    p.configure(2).unwrap();
    assert_eq!(p.state, PartitionState::Configured);
    assert_eq!(p.vcpu_count, 2);

    p.finalize();
    assert_eq!(p.state, PartitionState::Finalized);

    p.map_memory(0x4000, 4 * 1024 * 1024).unwrap();
    assert!(p.memory_mapped);

    p.create_vcpu(0).unwrap();
    p.create_vcpu(1).unwrap();
    assert_eq!(p.vcpus_created, 2);

    p.teardown();
    assert_eq!(p.state, PartitionState::Destroyed);
    assert_eq!(p.destroy_calls, 1);
}

#[test]
fn partition_rejects_bad_configuration() {
    let mut p = Partition::create();
    assert_eq!(p.configure(0), Err(ConfigError::VcpuCountOutOfRange));
    assert_eq!(p.configure(65), Err(ConfigError::VcpuCountOutOfRange));
    assert_eq!(p.state, PartitionState::Created);

    p.configure(64).unwrap();
    p.finalize();
    assert_eq!(p.map_memory(0, 1000), Err(ConfigError::MemorySizeNotPageAligned));
    assert_eq!(p.map_memory(0, 0), Err(ConfigError::MemorySizeNotPageAligned));
    p.map_memory(0, 4096).unwrap();

    assert_eq!(p.create_vcpu(5), Err(ConfigError::VcpuIdOutOfSequence));
    p.create_vcpu(0).unwrap();
    assert_eq!(p.create_vcpu(0), Err(ConfigError::VcpuIdOutOfSequence));
}

// A partition created and then dropped without finalize releases its host
// handle exactly once.
#[test]
fn partition_created_then_dropped_does_not_leak() {
    let mut p = Partition::create();
    assert_eq!(p.destroy_calls, 0);
    p.teardown();
    assert_eq!(p.state, PartitionState::Destroyed);
    assert_eq!(p.destroy_calls, 1);
}
