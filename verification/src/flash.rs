//! Flash memory interface: the access control register and the evidence
//! that its wait-state field was programmed.
//!
//! Raising the system clock above the speed the flash can serve at zero
//! wait states without first raising the LATENCY field is undefined
//! hardware behaviour.  The clock module therefore demands a
//! [`LatencyWritten`] value — produced only by [`ACR::set_latency`] —
//! before it performs the register write that switches the clock source,
//! so the safe ordering is enforced on every verified path.

use vstd::prelude::*;

verus! {

/// Reset value of the access control register: the wait-state field
/// zero, the prefetch-buffer bits as the hardware starts them.
pub const ACR_RESET: u32 = 0x30;

/// Model of the flash access control register (ACR).  Only the
/// three-bit LATENCY field (bits 0..3) is driven by this crate.
pub struct ACR {
    acr: u32,
}

/// Evidence that the flash LATENCY field was programmed with a given
/// number of wait states.  Only [`ACR::set_latency`] produces it.
pub struct LatencyWritten {
    latency: u8,
}

impl LatencyWritten {
    /// The number of wait states this evidence stands for.
    pub closed spec fn spec_latency(&self) -> u8 {
        self.latency
    }

    /// The number of wait states this evidence stands for.
    pub fn latency(&self) -> (r: u8)
        ensures
            r == self.spec_latency(),
    {
        self.latency
    }
}

impl ACR {
    /// Current value of the access control register.
    pub closed spec fn spec_acr(&self) -> u32 {
        self.acr
    }

    /// Current value of the access control register.
    pub fn read(&self) -> (r: u32)
        ensures
            r == self.spec_acr(),
    {
        self.acr
    }

    /// Program the LATENCY field: a plain write of the whole register,
    /// starting from the reset value, with the field replaced.  The
    /// reset value keeps the field's bits clear, so the new contents
    /// are the reset value plus the wait-state count.
    pub(crate) fn set_latency(&mut self, latency: u8) -> (p: LatencyWritten)
        requires
            latency <= 0b111,
        ensures
            final(self).spec_acr() == ACR_RESET + latency as u32,
            p.spec_latency() == latency,
    {
        let l: u32 = latency as u32;
        proof {
            assert(ACR_RESET | l == ACR_RESET + l) by (bit_vector)
                requires
                    l <= 0b111,
            ;
        }
        self.acr = ACR_RESET | l;
        LatencyWritten { latency }
    }
}

/// Owner of the flash register block.
pub struct Flash {
    /// Proxy for the access control register.
    pub acr: ACR,
}

impl Flash {
    /// Take the flash interface, with the access control register at
    /// its reset value.  Each call starts a fresh model; on real
    /// hardware the one-time hand-off of the physical block is the
    /// binding layer's concern.
    pub fn new() -> (f: Flash)
        ensures
            f.acr.spec_acr() == ACR_RESET,
    {
        Flash { acr: ACR { acr: ACR_RESET } }
    }
}

} // verus!
