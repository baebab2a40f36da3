//! External crystal oscillator.

use vstd::prelude::*;
use crate::bus::Access;
use crate::registers::{RegId, OSC_CR_OSCEN, OSC_CR_OSCINIT, OSC_CR_OSCOS, OSC_CR_RANGE};

verus! {

/// Bits set in the oscillator control register: enabled, high frequency
/// range, crystal as the oscillator output.
pub open spec fn osc_enable_bits() -> u32 {
    (OSC_CR_OSCEN | OSC_CR_OSCOS | OSC_CR_RANGE) as u32
}

/// Enable the oscillator, then wait, with no timeout, until it reports that
/// it has finished initialising.
pub open spec fn osc_program() -> Seq<Access> {
    seq![
        Access::Modify { reg: RegId::OscCr, clear: 0, set: osc_enable_bits() },
        Access::WaitAllSet { reg: RegId::OscCr, mask: OSC_CR_OSCINIT as u32 },
    ]
}

/// The program that starts the external oscillator and waits until it is stable.
pub fn init() -> (p: Vec<Access>)
    ensures
        p@ == osc_program(),
{
    let mut p: Vec<Access> = Vec::new();
    p.push(Access::Modify {
        reg: RegId::OscCr,
        clear: 0,
        set: (OSC_CR_OSCEN | OSC_CR_OSCOS | OSC_CR_RANGE) as u32,
    });
    p.push(Access::WaitAllSet { reg: RegId::OscCr, mask: OSC_CR_OSCINIT as u32 });
    assert(p@ =~= osc_program());
    p
}

} // verus!
