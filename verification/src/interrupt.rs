//! Interrupt plumbing: a line that binds a host signaling primitive (an
//! eventfd) to a guest IRQ number and raises it on demand.
use vstd::prelude::*;

verus! {

#[verifier::external_type_specification]
#[verifier::external_body]
pub struct ExEventFd(vmm_sys_util::eventfd::EventFd);

/// Relies on vmm_sys_util::eventfd::EventFd::new with flags 0: a fresh
/// eventfd with counter 0.
#[verifier::external_body]
fn eventfd_new() -> (r: Result<vmm_sys_util::eventfd::EventFd, String>)
{
    match vmm_sys_util::eventfd::EventFd::new(0) {
        Ok(e) => Ok(e),
        Err(e) => Err(format!("{:?}", e)),
    }
}

/// Relies on vmm_sys_util::eventfd::EventFd::write: adds `v` to the eventfd
/// counter, signaling whoever waits on it.
#[verifier::external_body]
fn eventfd_write(fd: &vmm_sys_util::eventfd::EventFd, v: u64) -> (r: Result<(), String>)
{
    match fd.write(v) {
        Ok(u) => Ok(u),
        Err(e) => Err(format!("{:?}", e)),
    }
}

/// `x + 1` modulo 2^64.
pub open spec fn wrap_inc64_spec(x: u64) -> u64 {
    if x == u64::MAX {
        0u64
    } else {
        (x + 1) as u64
    }
}

/// An interrupt line: a host eventfd bound to a fixed guest IRQ number
/// (GSI). Each successful `trigger` performs exactly one write to the host
/// signaling primitive.
pub struct InterruptLine {
    signal: vmm_sys_util::eventfd::EventFd,
    gsi: u32,
    triggered: u64,
}

impl InterruptLine {
    /// The guest IRQ number this line is bound to; fixed for its lifetime.
    pub closed spec fn gsi_spec(self) -> u32 {
        self.gsi
    }

    /// How many times the line has been successfully triggered (modulo 2^64).
    pub closed spec fn triggered_spec(self) -> u64 {
        self.triggered
    }

    /// Creates a line for guest IRQ `gsi` with a fresh host eventfd.
    pub fn new(gsi: u32) -> (r: Result<InterruptLine, String>)
        ensures
            r matches Ok(l) ==> l.gsi_spec() == gsi && l.triggered_spec() == 0,
    {
        match eventfd_new() {
            Ok(fd) => Ok(InterruptLine { signal: fd, gsi, triggered: 0 }),
            Err(e) => Err(e),
        }
    }

    /// The guest IRQ number of this line.
    pub fn get_gsi(&self) -> (r: u32)
        ensures
            r == self.gsi_spec(),
    {
        self.gsi
    }

    /// Number of successful triggers so far (modulo 2^64).
    pub fn get_triggered(&self) -> (r: u64)
        ensures
            r == self.triggered_spec(),
    {
        self.triggered
    }

    /// The host eventfd behind this line, e.g. to register it with a
    /// hypervisor as an irqfd for this line's GSI.
    pub fn signal_fd(&self) -> &vmm_sys_util::eventfd::EventFd {
        &self.signal
    }

    /// Raises the guest IRQ once: a single non-blocking write to the host
    /// signaling primitive. On success the trigger count advances by one.
    pub fn trigger(&mut self) -> (r: Result<(), String>)
        ensures
            final(self).gsi_spec() == old(self).gsi_spec(),
            r is Ok ==> final(self).triggered_spec() == wrap_inc64_spec(old(self).triggered_spec()),
            r is Err ==> final(self).triggered_spec() == old(self).triggered_spec(),
    {
        match eventfd_write(&self.signal, 1) {
            Ok(u) => {
                self.triggered = if self.triggered == u64::MAX {
                    0
                } else {
                    self.triggered + 1
                };
                Ok(u)
            },
            Err(e) => Err(e),
        }
    }
}

} // verus!
