//! System Integration Module: per-peripheral clock gating.
//!
//! Each peripheral tag owns one bit of the clock gating register (SCGC).
//! Enabling sets that bit and disabling clears it, by read-modify-write.

use vstd::prelude::*;
use crate::bus::{after_access, after_read, modify_value, read_value, Access};
use crate::registers::{slot_of, RegId, SimReg, REG_COUNT};

verus! {

/// Peripherals whose clock can be enabled or disabled.
#[derive(Clone, Copy, PartialEq, Eq, Structural, Debug)]
pub enum ClockGatingPeripheral {
    Acmp1,
    Acmp0,
    Adc,
    Irq,
    Kbi1,
    Kbi0,
    Uart2,
    Uart1,
    Uart0,
    Spi1,
    Spi0,
    I2c1,
    I2c0,
    Mscan,
    Swd,
    Flash,
    Crc,
    Fmt2,
    Fmt1,
    Fmt0,
    Pwt,
    Pit,
    Rtc,
}

/// Position of a peripheral's bit in the clock gating register.
pub open spec fn gate_bit(p: ClockGatingPeripheral) -> u32 {
    match p {
        ClockGatingPeripheral::Acmp1 => 31,
        ClockGatingPeripheral::Acmp0 => 30,
        ClockGatingPeripheral::Adc => 29,
        ClockGatingPeripheral::Irq => 27,
        ClockGatingPeripheral::Kbi1 => 25,
        ClockGatingPeripheral::Kbi0 => 24,
        ClockGatingPeripheral::Uart2 => 22,
        ClockGatingPeripheral::Uart1 => 21,
        ClockGatingPeripheral::Uart0 => 20,
        ClockGatingPeripheral::Spi1 => 19,
        ClockGatingPeripheral::Spi0 => 18,
        ClockGatingPeripheral::I2c1 => 17,
        ClockGatingPeripheral::I2c0 => 16,
        ClockGatingPeripheral::Mscan => 15,
        ClockGatingPeripheral::Swd => 13,
        ClockGatingPeripheral::Flash => 12,
        ClockGatingPeripheral::Crc => 10,
        ClockGatingPeripheral::Fmt2 => 7,
        ClockGatingPeripheral::Fmt1 => 6,
        ClockGatingPeripheral::Fmt0 => 5,
        ClockGatingPeripheral::Pwt => 4,
        ClockGatingPeripheral::Pit => 1,
        ClockGatingPeripheral::Rtc => 0,
    }
}

/// The one-bit mask of a peripheral in the clock gating register.
pub open spec fn gate_mask(p: ClockGatingPeripheral) -> u32 {
    1u32 << gate_bit(p)
}

/// The gating register's value once `p`'s clock is switched on or off.
pub open spec fn gated(scgc: u32, p: ClockGatingPeripheral, enable: bool) -> u32 {
    if enable {
        scgc | gate_mask(p)
    } else {
        scgc & !gate_mask(p)
    }
}

/// The access that switches `p`'s clock on or off.
pub open spec fn gating_access(p: ClockGatingPeripheral, enable: bool) -> Access {
    Access::Modify {
        reg: RegId::Sim(SimReg::Scgc),
        clear: if enable { 0 } else { gate_mask(p) },
        set: if enable { gate_mask(p) } else { 0 },
    }
}

/// The mask of a peripheral in the clock gating register.
pub fn gating_mask(p: ClockGatingPeripheral) -> (m: u32)
    ensures
        m == gate_mask(p),
{
    let bit: u32 = match p {
        ClockGatingPeripheral::Acmp1 => 31,
        ClockGatingPeripheral::Acmp0 => 30,
        ClockGatingPeripheral::Adc => 29,
        ClockGatingPeripheral::Irq => 27,
        ClockGatingPeripheral::Kbi1 => 25,
        ClockGatingPeripheral::Kbi0 => 24,
        ClockGatingPeripheral::Uart2 => 22,
        ClockGatingPeripheral::Uart1 => 21,
        ClockGatingPeripheral::Uart0 => 20,
        ClockGatingPeripheral::Spi1 => 19,
        ClockGatingPeripheral::Spi0 => 18,
        ClockGatingPeripheral::I2c1 => 17,
        ClockGatingPeripheral::I2c0 => 16,
        ClockGatingPeripheral::Mscan => 15,
        ClockGatingPeripheral::Swd => 13,
        ClockGatingPeripheral::Flash => 12,
        ClockGatingPeripheral::Crc => 10,
        ClockGatingPeripheral::Fmt2 => 7,
        ClockGatingPeripheral::Fmt1 => 6,
        ClockGatingPeripheral::Fmt0 => 5,
        ClockGatingPeripheral::Pwt => 4,
        ClockGatingPeripheral::Pit => 1,
        ClockGatingPeripheral::Rtc => 0,
    };
    1u32 << bit
}

/// Nothing needs setting up before gating clocks.
pub fn init() {
}

/// The access that switches on the clock of `peripheral`.
pub fn power_enable(peripheral: ClockGatingPeripheral) -> (a: Access)
    ensures
        a == gating_access(peripheral, true),
{
    power_control(peripheral, true)
}

/// The access that switches off the clock of `peripheral`.
pub fn power_disable(peripheral: ClockGatingPeripheral) -> (a: Access)
    ensures
        a == gating_access(peripheral, false),
{
    power_control(peripheral, false)
}

/// The access that switches the clock of `peripheral` on or off: a
/// read-modify-write of the gating register that sets or clears that
/// peripheral's bit alone.
pub fn power_control(peripheral: ClockGatingPeripheral, enable: bool) -> (a: Access)
    ensures
        a == gating_access(peripheral, enable),
        forall|scgc: u32|
            #![trigger gated(scgc, peripheral, enable)]
            modify_value(scgc, a->Modify_clear, a->Modify_set) == gated(scgc, peripheral, enable),
{
    let mask = gating_mask(peripheral);
    proof {
        lemma_modify_is_gated(peripheral, enable);
    }
    if enable {
        Access::Modify { reg: RegId::Sim(SimReg::Scgc), clear: 0, set: mask }
    } else {
        Access::Modify { reg: RegId::Sim(SimReg::Scgc), clear: mask, set: 0 }
    }
}

/// The read-modify-write of [`gating_access`] computes [`gated`].
pub proof fn lemma_modify_is_gated(p: ClockGatingPeripheral, enable: bool)
    ensures
        forall|scgc: u32|
            #![trigger gated(scgc, p, enable)]
            modify_value(
                scgc,
                gating_access(p, enable)->Modify_clear,
                gating_access(p, enable)->Modify_set,
            ) == gated(scgc, p, enable),
{
    let m = gate_mask(p);
    assert forall|scgc: u32| #![trigger gated(scgc, p, enable)]
        modify_value(
            scgc,
            gating_access(p, enable)->Modify_clear,
            gating_access(p, enable)->Modify_set,
        ) == gated(scgc, p, enable) by {
        assert((scgc & !0u32) | m == scgc | m) by (bit_vector);
        assert((scgc & !m) | 0u32 == scgc & !m) by (bit_vector);
    }
}

/// Slot of the clock gating register.
pub open spec fn scgc_slot() -> int {
    slot_of(RegId::Sim(SimReg::Scgc)) as int
}

/// Every peripheral owns its own bit: the masks of two distinct peripherals
/// never overlap, and switching one of them on or off leaves the other's bit
/// as it was.
pub proof fn lemma_gating_isolation(
    p: ClockGatingPeripheral,
    q: ClockGatingPeripheral,
    scgc: u32,
    enable: bool,
)
    requires
        p != q,
    ensures
        gate_bit(p) != gate_bit(q),
        gate_mask(p) & gate_mask(q) == 0,
        gated(scgc, p, enable) & gate_mask(q) == scgc & gate_mask(q),
{
    let a = gate_bit(p);
    let b = gate_bit(q);
    assert(a != b);
    assert(a < 32 && b < 32);
    assert(a != b && a < 32 && b < 32 ==> (1u32 << a) & (1u32 << b) == 0) by (bit_vector);
    let ma = gate_mask(p);
    let mb = gate_mask(q);
    assert(ma & mb == 0 ==> (scgc | ma) & mb == scgc & mb && (scgc & !ma) & mb == scgc & mb)
        by (bit_vector);
}

/// Switching a clock on twice has the effect of switching it on once. Switching
/// it on and then off leaves that peripheral's gating bit clear, so as it was
/// where it was clear before, and every other bit of the gating register and
/// every other register as it was.
pub proof fn lemma_gating_idempotent(regs: Seq<u32>, p: ClockGatingPeripheral)
    requires
        regs.len() == REG_COUNT,
    ensures
        after_access(after_access(regs, gating_access(p, true)), gating_access(p, true))
            == after_access(regs, gating_access(p, true)),
        after_access(after_access(regs, gating_access(p, true)), gating_access(p, false)).len()
            == regs.len(),
        after_access(after_access(regs, gating_access(p, true)), gating_access(p, false))[scgc_slot()]
            == regs[scgc_slot()] & !gate_mask(p),
        regs[scgc_slot()] & gate_mask(p) == 0 ==> after_access(
            after_access(regs, gating_access(p, true)),
            gating_access(p, false),
        )[scgc_slot()] == regs[scgc_slot()],
        forall|i: int|
            0 <= i < regs.len() && i != scgc_slot() ==> #[trigger] after_access(
                after_access(regs, gating_access(p, true)),
                gating_access(p, false),
            )[i] == regs[i],
{
    let s = scgc_slot();
    let m = gate_mask(p);
    let v = regs[s];
    let r = RegId::Sim(SimReg::Scgc);
    assert(read_value(regs, r) == v);
    assert(after_read(regs, r) == regs);
    assert(modify_value(v, 0, m) == v | m) by {
        assert((v & !0u32) | m == v | m) by (bit_vector);
    }
    let on = after_access(regs, gating_access(p, true));
    assert(on == regs.update(s, v | m));
    assert(read_value(on, r) == v | m);
    assert(modify_value(v | m, 0, m) == (v | m) | m) by {
        assert(((v | m) & !0u32) | m == (v | m) | m) by (bit_vector);
    }
    let twice = after_access(on, gating_access(p, true));
    assert(twice == on.update(s, (v | m) | m));
    assert((v | m) | m == v | m) by (bit_vector);
    assert(twice =~= on);
    assert(modify_value(v | m, m, 0) == (v | m) & !m) by {
        assert(((v | m) & !m) | 0u32 == (v | m) & !m) by (bit_vector);
    }
    let off = after_access(on, gating_access(p, false));
    assert(off == on.update(s, (v | m) & !m));
    assert((v | m) & !m == v & !m) by (bit_vector);
    assert(v & m == 0 ==> v & !m == v) by (bit_vector);
}

} // verus!
