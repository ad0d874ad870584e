//! vCPU runner decisions: classifying hypervisor exits into the runner's
//! terminal states, decoding exception syndromes, MMIO dispatch routing, and
//! the first-fault-wins reduction of per-vCPU outcomes.
use vstd::prelude::*;

verus! {

/// Size in bytes of the device's MMIO register window.
pub const MMIO_WINDOW_SIZE: u64 = 0x1000;

/// Why a vCPU terminated with an error.
#[derive(Clone, Copy, PartialEq, Eq, Structural, Debug)]
pub enum FaultReason {
    /// Port input the VMM does not handle.
    PortIn,
    /// Port output the VMM does not handle.
    PortOut,
    /// MMIO read no registered device claims.
    MmioRead,
    /// MMIO write no registered device claims.
    MmioWrite,
    /// The hypervisor reported an internal error.
    InternalError,
    /// The hypervisor reported a system event.
    SystemEvent,
    /// A general protection fault in the guest.
    GeneralProtectionFault,
    /// A stage-2 data abort (aarch64).
    DataAbort,
    /// Some other guest exception.
    Exception,
    /// The virtual timer fired (aarch64).
    VirtualTimer,
    /// A guest memory access the VMM does not handle.
    MemoryAccess,
    /// An MSR access the VMM does not handle.
    MsrAccess,
    /// A CPUID exit the VMM does not handle.
    Cpuid,
    /// The hypervisor reported an unsupported feature.
    UnsupportedFeature,
    /// The vCPU was left in an invalid state.
    InvalidState,
    /// An exit reason the VMM does not recognize.
    Unknown,
}

/// Terminal state of a vCPU runner. Halt, shutdown and cancellation are
/// non-error outcomes; every fault is an error.
#[derive(Clone, Copy, PartialEq, Eq, Structural, Debug)]
pub enum VcpuOutcome {
    /// The guest executed a halt.
    Halted,
    /// The guest shut down.
    Shutdown,
    /// The vCPU was cancelled from outside.
    Cancelled,
    /// The vCPU terminated on a fault.
    Faulted(FaultReason),
}

impl VcpuOutcome {
    /// Whether this outcome is an error.
    pub open spec fn is_fault_spec(self) -> bool {
        self is Faulted
    }

    /// Whether this outcome is an error.
    pub fn is_fault(&self) -> (r: bool)
        ensures
            r == self.is_fault_spec(),
    {
        match self {
            VcpuOutcome::Faulted(reason) => true,
            _ => false,
        }
    }
}

/// A KVM vCPU exit, as the runner sees it.
#[derive(Clone, Copy, PartialEq, Eq, Structural, Debug)]
pub enum KvmExit {
    /// The guest executed HLT.
    Hlt,
    /// Port input.
    IoIn,
    /// Port output.
    IoOut,
    /// MMIO read at an address nothing claims.
    MmioRead,
    /// MMIO write at an address nothing claims.
    MmioWrite,
    /// The guest shut down.
    Shutdown,
    /// KVM internal error.
    InternalError,
    /// KVM system event.
    SystemEvent,
    /// Any other exit reason.
    Other,
}

/// Terminal state for a KVM exit on a bare guest (no device claimed the
/// address): halt and shutdown are clean; everything else faults.
pub open spec fn classify_kvm_exit_spec(exit: KvmExit) -> VcpuOutcome {
    match exit {
        KvmExit::Hlt => VcpuOutcome::Halted,
        KvmExit::Shutdown => VcpuOutcome::Shutdown,
        KvmExit::IoIn => VcpuOutcome::Faulted(FaultReason::PortIn),
        KvmExit::IoOut => VcpuOutcome::Faulted(FaultReason::PortOut),
        KvmExit::MmioRead => VcpuOutcome::Faulted(FaultReason::MmioRead),
        KvmExit::MmioWrite => VcpuOutcome::Faulted(FaultReason::MmioWrite),
        KvmExit::InternalError => VcpuOutcome::Faulted(FaultReason::InternalError),
        KvmExit::SystemEvent => VcpuOutcome::Faulted(FaultReason::SystemEvent),
        KvmExit::Other => VcpuOutcome::Faulted(FaultReason::Unknown),
    }
}

/// Classifies a KVM exit into the runner's terminal state.
pub fn classify_kvm_exit(exit: &KvmExit) -> (r: VcpuOutcome)
    ensures
        r == classify_kvm_exit_spec(*exit),
{
    match exit {
        KvmExit::Hlt => VcpuOutcome::Halted,
        KvmExit::Shutdown => VcpuOutcome::Shutdown,
        KvmExit::IoIn => VcpuOutcome::Faulted(FaultReason::PortIn),
        KvmExit::IoOut => VcpuOutcome::Faulted(FaultReason::PortOut),
        KvmExit::MmioRead => VcpuOutcome::Faulted(FaultReason::MmioRead),
        KvmExit::MmioWrite => VcpuOutcome::Faulted(FaultReason::MmioWrite),
        KvmExit::InternalError => VcpuOutcome::Faulted(FaultReason::InternalError),
        KvmExit::SystemEvent => VcpuOutcome::Faulted(FaultReason::SystemEvent),
        KvmExit::Other => VcpuOutcome::Faulted(FaultReason::Unknown),
    }
}

/// An Apple-Hypervisor vCPU exit, as the runner sees it.
#[derive(Clone, Copy, PartialEq, Eq, Structural, Debug)]
pub enum HvfExit {
    /// The vCPU run was cancelled from outside.
    Canceled,
    /// A guest exception with its syndrome register value.
    Exception { syndrome: u64 },
    /// The virtual timer activated.
    VtimerActivated,
    /// An unknown exit.
    Unknown,
}

/// Exception class: bits [31:26] of the syndrome.
pub open spec fn syndrome_ec_spec(syndrome: u64) -> u64 {
    (syndrome >> 26) & 0x3F
}

/// Instruction-specific syndrome: bits [23:0] of the syndrome.
pub open spec fn syndrome_iss_spec(syndrome: u64) -> u64 {
    syndrome & 0xFFFFFF
}

/// Exception class field of an exception syndrome.
pub fn syndrome_ec(syndrome: u64) -> (r: u64)
    ensures
        r == syndrome_ec_spec(syndrome),
{
    (syndrome >> 26) & 0x3F
}

/// Instruction-specific syndrome field of an exception syndrome.
pub fn syndrome_iss(syndrome: u64) -> (r: u64)
    ensures
        r == syndrome_iss_spec(syndrome),
{
    syndrome & 0xFFFFFF
}

/// Exception class of a stage-2 data abort from a lower exception level.
pub const EC_DATA_ABORT: u64 = 0x24;

/// Exception class reported for a general protection fault.
pub const EC_GENERAL_PROTECTION_FAULT: u64 = 0x0D;

/// Terminal state for an Apple-Hypervisor exit on a bare guest: external
/// cancellation is the clean outcome; an exception faults according to its
/// exception class (a general protection fault, a stage-2 data abort, or some
/// other exception); timer activation and unknown exits fault.
pub open spec fn classify_hvf_exit_spec(exit: HvfExit) -> VcpuOutcome {
    match exit {
        HvfExit::Canceled => VcpuOutcome::Cancelled,
        HvfExit::Exception { syndrome } => {
            let ec = syndrome_ec_spec(syndrome);
            if ec == EC_GENERAL_PROTECTION_FAULT {
                VcpuOutcome::Faulted(FaultReason::GeneralProtectionFault)
            } else if ec == EC_DATA_ABORT {
                VcpuOutcome::Faulted(FaultReason::DataAbort)
            } else {
                VcpuOutcome::Faulted(FaultReason::Exception)
            }
        },
        HvfExit::VtimerActivated => VcpuOutcome::Faulted(FaultReason::VirtualTimer),
        HvfExit::Unknown => VcpuOutcome::Faulted(FaultReason::Unknown),
    }
}

/// Classifies an Apple-Hypervisor exit into the runner's terminal state.
pub fn classify_hvf_exit(exit: &HvfExit) -> (r: VcpuOutcome)
    ensures
        r == classify_hvf_exit_spec(*exit),
{
    match exit {
        HvfExit::Canceled => VcpuOutcome::Cancelled,
        HvfExit::Exception { syndrome } => {
            let ec = syndrome_ec(*syndrome);
            if ec == EC_GENERAL_PROTECTION_FAULT {
                VcpuOutcome::Faulted(FaultReason::GeneralProtectionFault)
            } else if ec == EC_DATA_ABORT {
                VcpuOutcome::Faulted(FaultReason::DataAbort)
            } else {
                VcpuOutcome::Faulted(FaultReason::Exception)
            }
        },
        HvfExit::VtimerActivated => VcpuOutcome::Faulted(FaultReason::VirtualTimer),
        HvfExit::Unknown => VcpuOutcome::Faulted(FaultReason::Unknown),
    }
}

/// A Windows-Hypervisor-Platform vCPU exit, as the runner sees it.
#[derive(Clone, Copy, PartialEq, Eq, Structural, Debug)]
pub enum WhpExit {
    /// The guest executed HLT.
    Halt,
    /// The exit context reported no reason.
    NoReason,
    /// A guest memory access nothing claims.
    MemoryAccess,
    /// A port access nothing claims.
    IoPortAccess,
    /// An MSR access nothing claims.
    MsrAccess,
    /// An unhandled CPUID exit.
    Cpuid,
    /// A guest exception.
    Exception,
    /// An unsupported feature.
    UnsupportedFeature,
    /// Any other exit reason.
    Other,
}

/// Terminal state for a Windows-Hypervisor-Platform exit on a bare guest:
/// halt is the clean outcome; everything else faults.
pub open spec fn classify_whp_exit_spec(exit: WhpExit) -> VcpuOutcome {
    match exit {
        WhpExit::Halt => VcpuOutcome::Halted,
        WhpExit::NoReason => VcpuOutcome::Faulted(FaultReason::InvalidState),
        WhpExit::MemoryAccess => VcpuOutcome::Faulted(FaultReason::MemoryAccess),
        WhpExit::IoPortAccess => VcpuOutcome::Faulted(FaultReason::PortIn),
        WhpExit::MsrAccess => VcpuOutcome::Faulted(FaultReason::MsrAccess),
        WhpExit::Cpuid => VcpuOutcome::Faulted(FaultReason::Cpuid),
        WhpExit::Exception => VcpuOutcome::Faulted(FaultReason::Exception),
        WhpExit::UnsupportedFeature => VcpuOutcome::Faulted(FaultReason::UnsupportedFeature),
        WhpExit::Other => VcpuOutcome::Faulted(FaultReason::Unknown),
    }
}

/// Classifies a Windows-Hypervisor-Platform exit into the runner's terminal
/// state.
pub fn classify_whp_exit(exit: &WhpExit) -> (r: VcpuOutcome)
    ensures
        r == classify_whp_exit_spec(*exit),
{
    match exit {
        WhpExit::Halt => VcpuOutcome::Halted,
        WhpExit::NoReason => VcpuOutcome::Faulted(FaultReason::InvalidState),
        WhpExit::MemoryAccess => VcpuOutcome::Faulted(FaultReason::MemoryAccess),
        WhpExit::IoPortAccess => VcpuOutcome::Faulted(FaultReason::PortIn),
        WhpExit::MsrAccess => VcpuOutcome::Faulted(FaultReason::MsrAccess),
        WhpExit::Cpuid => VcpuOutcome::Faulted(FaultReason::Cpuid),
        WhpExit::Exception => VcpuOutcome::Faulted(FaultReason::Exception),
        WhpExit::UnsupportedFeature => VcpuOutcome::Faulted(FaultReason::UnsupportedFeature),
        WhpExit::Other => VcpuOutcome::Faulted(FaultReason::Unknown),
    }
}

/// Whether the device window starting at `mmio_base` claims address `addr`;
/// when it does, the offset of `addr` into the window.
pub open spec fn mmio_claim_spec(mmio_base: u64, addr: u64) -> Option<u64> {
    if mmio_base <= addr && addr - mmio_base < MMIO_WINDOW_SIZE {
        Some((addr - mmio_base) as u64)
    } else {
        None
    }
}

/// MMIO dispatch routing: an exit at `addr` goes to the device at
/// `mmio_base` exactly when `addr` falls inside its register window, and the
/// device sees the offset from its base.
pub fn mmio_claim(mmio_base: u64, addr: u64) -> (r: Option<u64>)
    ensures
        r == mmio_claim_spec(mmio_base, addr),
{
    if mmio_base <= addr && addr - mmio_base < MMIO_WINDOW_SIZE {
        Some(addr - mmio_base)
    } else {
        None
    }
}

/// The index of the first fault among the runner outcomes, if any.
pub fn first_fault(outcomes: &Vec<VcpuOutcome>) -> (r: Option<usize>)
    ensures
        match r {
            Some(i) => i < outcomes@.len() && outcomes@[i as int] is Faulted && forall|j: int|
                0 <= j < i ==> !(#[trigger] outcomes@[j] is Faulted),
            None => forall|j: int| 0 <= j < outcomes@.len() ==> !(#[trigger] outcomes@[j] is Faulted),
        },
{
    let n = outcomes.len();
    let mut i: usize = 0;
    while i < n
        invariant
            n == outcomes@.len(),
            i <= n,
            forall|j: int| 0 <= j < i ==> !(#[trigger] outcomes@[j] is Faulted),
        decreases n - i,
    {
        if outcomes[i].is_fault() {
            return Some(i);
        }
        i += 1;
    }
    None
}

/// Reduces the outcomes of all vCPU runners to the VM's overall result:
/// the first fault wins; with no fault the VM ended cleanly.
pub fn reduce_vm_outcome(outcomes: &Vec<VcpuOutcome>) -> (r: Result<(), VcpuOutcome>)
    ensures
        match r {
            Ok(u) => forall|j: int|
                0 <= j < outcomes@.len() ==> !(#[trigger] outcomes@[j] is Faulted),
            Err(o) => o is Faulted && exists|i: int|
                0 <= i < outcomes@.len() && outcomes@[i] == o && forall|j: int|
                    0 <= j < i ==> !(#[trigger] outcomes@[j] is Faulted),
        },
{
    match first_fault(outcomes) {
        Some(i) => Err(outcomes[i]),
        None => Ok(()),
    }
}

} // verus!
