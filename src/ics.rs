//! Internal Clock Source bring-up into FLL Engaged External mode.
//!
//! The clock state lives in hardware status bits only. The bring-up runs in a
//! fixed order: start the oscillator, select the external reference through the
//! reference divider, let the status bits settle, wait for the reference switch
//! to take effect, wait for lock, then program the bus divider, clear the sticky
//! loss-of-lock flag and, where the profile asks for it, set the SIM core/bus
//! divider and the final bus divider. The waits have no timeout: a clock that
//! never comes leaves the chip unusable anyway.

use vstd::prelude::*;
use crate::bus::Access;
use crate::osc;
use crate::osc::osc_program;
use crate::registers::{
    ics_c1_rdiv, ics_c2_bdiv, IcsReg, RegId, SimReg, ICS_C1_IREFS, ICS_STATUS_IREFST,
    ICS_STATUS_LOCK, ICS_STATUS_LOLS,
};

verus! {

/// The constants of one target clock configuration.
#[derive(Clone, Copy, PartialEq, Eq, Structural, Debug)]
pub struct ClockProfile {
    /// Reference divider (C1 RDIV) that brings the crystal into the FLL input range.
    pub rdiv: u8,
    /// Bus divider (C2 BDIV) held while the reference switches over.
    pub startup_bdiv: u8,
    /// No-operation cycles before the status bits are polled.
    pub settle_cycles: u32,
    /// Bus divider once the FLL is locked.
    pub locked_bdiv: u8,
    /// SIM clock divider register value, set only after lock, where present.
    pub sim_clkdiv: Option<u32>,
    /// Bus divider set after the SIM clock divider.
    pub final_bdiv: u8,
}

impl ClockProfile {
    /// 8 MHz crystal divided by 256 into a 1280 times FLL: 40 MHz core
    /// clock and 20 MHz bus clock, the split done by the SIM divider.
    pub fn fee_40mhz() -> (p: ClockProfile)
        ensures
            p.rdiv == 3 && p.startup_bdiv == 1 && p.settle_cycles == 2 && p.locked_bdiv == 1,
            p.sim_clkdiv == Some(0x0110_0000u32) && p.final_bdiv == 0,
    {
        ClockProfile {
            rdiv: 3,
            startup_bdiv: 1,
            settle_cycles: 2,
            locked_bdiv: 1,
            sim_clkdiv: Some(0x0110_0000),
            final_bdiv: 0,
        }
    }

    /// The same reference with the FLL output halved by the ICS: a 20 MHz
    /// ICS output, with the SIM divider left as it is.
    pub fn fee_20mhz() -> (p: ClockProfile)
        ensures
            p.rdiv == 3 && p.startup_bdiv == 1 && p.settle_cycles == 2 && p.locked_bdiv == 1,
            p.sim_clkdiv is None && p.final_bdiv == 1,
    {
        ClockProfile {
            rdiv: 3,
            startup_bdiv: 1,
            settle_cycles: 2,
            locked_bdiv: 1,
            sim_clkdiv: None,
            final_bdiv: 1,
        }
    }
}

/// ICS C2 with bus divider field `x`.
pub open spec fn c2_value(x: u8) -> u32 {
    ((x & 7) << 5u8) as u32
}

/// ICS C1 with reference divider field `x`, the external reference selected
/// (IREFS clear) and the FLL output as the clock source.
pub open spec fn c1_value(x: u8) -> u32 {
    ((x & 7) << 3u8) as u32
}

/// Wait until the ICS reports the external reference in effect.
pub open spec fn wait_settled() -> Access {
    Access::WaitAllClear { reg: RegId::Ics(IcsReg::Status), mask: ICS_STATUS_IREFST as u32 }
}

/// Wait until the FLL has locked.
pub open spec fn wait_locked() -> Access {
    Access::WaitAllSet { reg: RegId::Ics(IcsReg::Status), mask: ICS_STATUS_LOCK as u32 }
}

/// The ICS steps once lock is confirmed.
pub open spec fn after_lock_program(p: ClockProfile) -> Seq<Access> {
    let common = seq![
        Access::Write { reg: RegId::Ics(IcsReg::C2), value: c2_value(p.locked_bdiv) },
        Access::Write { reg: RegId::Ics(IcsReg::Status), value: ICS_STATUS_LOLS as u32 },
    ];
    match p.sim_clkdiv {
        Some(d) => common + seq![
            Access::Write { reg: RegId::Sim(SimReg::Clkdiv), value: d },
            Access::Write { reg: RegId::Ics(IcsReg::C2), value: c2_value(p.final_bdiv) },
        ],
        None => common,
    }
}

/// The whole bring-up: the oscillator first, then the ICS.
pub open spec fn bringup_program(p: ClockProfile) -> Seq<Access> {
    osc_program() + seq![
        Access::Write { reg: RegId::Ics(IcsReg::C2), value: c2_value(p.startup_bdiv) },
        Access::Write { reg: RegId::Ics(IcsReg::C1), value: c1_value(p.rdiv) },
        Access::Delay { cycles: p.settle_cycles },
        wait_settled(),
        wait_locked(),
    ] + after_lock_program(p)
}

/// A step that writes or modifies register `r`.
pub open spec fn touches(a: Access, r: RegId) -> bool {
    match a {
        Access::Write { reg, .. } => reg == r,
        Access::Modify { reg, .. } => reg == r,
        _ => false,
    }
}

/// A step that writes ICS C1 with the internal reference deselected.
pub open spec fn selects_external(a: Access) -> bool {
    match a {
        Access::Write { reg, value } => reg == RegId::Ics(IcsReg::C1) && value & (ICS_C1_IREFS as u32) == 0,
        _ => false,
    }
}

/// The program that brings the clocks up under `profile`.
pub fn init(profile: &ClockProfile) -> (p: Vec<Access>)
    ensures
        p@ == bringup_program(*profile),
{
    let mut p = osc::init();
    p.push(Access::Write { reg: RegId::Ics(IcsReg::C2), value: ics_c2_bdiv(profile.startup_bdiv) as u32 });
    p.push(Access::Write { reg: RegId::Ics(IcsReg::C1), value: ics_c1_rdiv(profile.rdiv) as u32 });
    p.push(Access::Delay { cycles: profile.settle_cycles });
    p.push(Access::WaitAllClear { reg: RegId::Ics(IcsReg::Status), mask: ICS_STATUS_IREFST as u32 });
    p.push(Access::WaitAllSet { reg: RegId::Ics(IcsReg::Status), mask: ICS_STATUS_LOCK as u32 });
    p.push(Access::Write { reg: RegId::Ics(IcsReg::C2), value: ics_c2_bdiv(profile.locked_bdiv) as u32 });
    p.push(Access::Write { reg: RegId::Ics(IcsReg::Status), value: ICS_STATUS_LOLS as u32 });
    if let Some(d) = profile.sim_clkdiv {
        p.push(Access::Write { reg: RegId::Sim(SimReg::Clkdiv), value: d });
        p.push(Access::Write { reg: RegId::Ics(IcsReg::C2), value: ics_c2_bdiv(profile.final_bdiv) as u32 });
    }
    assert(p@ =~= bringup_program(*profile));
    p
}

/// The bring-up polls for lock, and every poll for lock comes after the
/// write that selects the external reference and after the wait for that
/// reference to take effect. No step from that write on writes ICS C1 again,
/// so the settled reference cannot be undone while lock is polled, and the
/// SIM clock divider is written only after lock is confirmed.
pub proof fn lemma_reference_select_precedes_lock_wait(profile: ClockProfile)
    ensures
        exists|k: int| 0 <= k < bringup_program(profile).len() && bringup_program(profile)[k] == wait_locked(),
        forall|k: int|
            0 <= k < bringup_program(profile).len() && #[trigger] bringup_program(profile)[k] == wait_locked()
                ==> exists|i: int, j: int|
                0 <= i < j < k
                    && selects_external(bringup_program(profile)[i])
                    && bringup_program(profile)[j] == wait_settled()
                    && forall|n: int|
                    i < n < bringup_program(profile).len() ==> !touches(
                        #[trigger] bringup_program(profile)[n],
                        RegId::Ics(IcsReg::C1),
                    ),
        forall|n: int|
            0 <= n < bringup_program(profile).len() && touches(
                #[trigger] bringup_program(profile)[n],
                RegId::Sim(SimReg::Clkdiv),
            ) ==> n > 6,
{
    let prog = bringup_program(profile);
    let x = profile.rdiv;
    assert((((x & 7u8) << 3u8) as u32) & 4u32 == 0) by (bit_vector);
    assert(ICS_C1_IREFS == 4u8) by (bit_vector);
    assert(prog[3] == Access::Write { reg: RegId::Ics(IcsReg::C1), value: c1_value(x) });
    assert(selects_external(prog[3]));
    assert(prog[5] == wait_settled());
    assert(prog[6] == wait_locked());
    assert forall|k: int| 0 <= k < prog.len() && #[trigger] prog[k] == wait_locked() implies k == 6 by {
    }
    assert forall|k: int| 0 <= k < prog.len() && #[trigger] prog[k] == wait_locked() implies exists|i: int, j: int|
        0 <= i < j < k
            && selects_external(prog[i])
            && prog[j] == wait_settled()
            && forall|n: int| i < n < prog.len() ==> !touches(#[trigger] prog[n], RegId::Ics(IcsReg::C1)) by {
        assert(k == 6);
        assert(0 <= 3 < 5 < k);
    }
}

} // verus!
