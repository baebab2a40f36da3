//! Register access programs and the simulated register file.
//!
//! A driver operation is a sequence of [`Access`] steps issued in order. On the
//! chip each step is a volatile load or store; [`RegisterFile`] runs the same
//! steps against a backing store that models the hardware semantics of the
//! register map (set/clear/toggle registers, read-only status, the
//! write-one-to-clear loss-of-lock flag, a receive flag cleared by reading data).

use vstd::prelude::*;
use crate::registers::{
    mode_of, slot_of, width_of, AccessMode, GpioReg, IcsReg, RegId, UartReg, Width,
    ICS_STATUS_LOLS, REG_COUNT, UART_S1_RDRF,
};

verus! {

/// One step of a register access program.
#[derive(Clone, Copy, PartialEq, Eq, Structural, Debug)]
pub enum Access {
    /// Store `value`.
    Write { reg: RegId, value: u32 },
    /// Read, clear the bits of `clear`, then set the bits of `set`, and write back.
    Modify { reg: RegId, clear: u32, set: u32 },
    /// Poll until every bit of `mask` reads as one. There is no timeout.
    WaitAllSet { reg: RegId, mask: u32 },
    /// Poll until every bit of `mask` reads as zero. There is no timeout.
    WaitAllClear { reg: RegId, mask: u32 },
    /// Spin for this many no-operation cycles.
    Delay { cycles: u32 },
}

/// The value a read-modify-write stores.
pub open spec fn modify_value(old: u32, clear: u32, set: u32) -> u32 {
    (old & !clear) | set
}

/// A value cut to the width of a register.
pub open spec fn fit(r: RegId, v: u32) -> u32 {
    match width_of(r) {
        Width::Byte => v & 0xff,
        Width::Word => v,
    }
}

/// What a read of `r` returns in the state `regs`.
pub open spec fn read_value(regs: Seq<u32>, r: RegId) -> u32 {
    if mode_of(r) == AccessMode::WriteOnly {
        0
    } else {
        regs[slot_of(r) as int]
    }
}

/// The state after a read of `r`: reading a UART's data register clears
/// that UART's receive-ready flag; every other read leaves the state alone.
pub open spec fn after_read(regs: Seq<u32>, r: RegId) -> Seq<u32> {
    match r {
        RegId::Uart(id, UartReg::Data) => {
            let s = slot_of(RegId::Uart(id, UartReg::S1)) as int;
            regs.update(s, regs[s] & !(UART_S1_RDRF as u32))
        },
        _ => regs,
    }
}

/// The state after writing `v` to `r`.
pub open spec fn after_write(regs: Seq<u32>, r: RegId, v: u32) -> Seq<u32> {
    let v = fit(r, v);
    match r {
        RegId::Gpio(b, GpioReg::Psor) => {
            let d = slot_of(RegId::Gpio(b, GpioReg::Pdor)) as int;
            regs.update(d, regs[d] | v)
        },
        RegId::Gpio(b, GpioReg::Pcor) => {
            let d = slot_of(RegId::Gpio(b, GpioReg::Pdor)) as int;
            regs.update(d, regs[d] & !v)
        },
        RegId::Gpio(b, GpioReg::Ptor) => {
            let d = slot_of(RegId::Gpio(b, GpioReg::Pdor)) as int;
            regs.update(d, regs[d] ^ v)
        },
        RegId::Ics(IcsReg::Status) => {
            let s = slot_of(r) as int;
            regs.update(s, regs[s] & !(v & (ICS_STATUS_LOLS as u32)))
        },
        _ => if mode_of(r) == AccessMode::ReadOnly {
            regs
        } else {
            regs.update(slot_of(r) as int, v)
        },
    }
}

/// A read-write register whose reads and writes have no side effect: what is
/// written is what is stored, and reading leaves the state alone.
pub open spec fn plain(r: RegId) -> bool {
    &&& mode_of(r) == AccessMode::ReadWrite
    &&& r != RegId::Ics(IcsReg::Status)
    &&& !(r matches RegId::Uart(_, UartReg::Data))
}

/// Whether a wait's condition holds of the value read from its register;
/// every other step has none.
pub open spec fn condition_holds(a: Access, value: u32) -> bool {
    match a {
        Access::WaitAllSet { mask, .. } => value & mask == mask,
        Access::WaitAllClear { mask, .. } => value & mask == 0,
        _ => true,
    }
}

/// Whether a step can complete in the state `regs`: a wait completes once its
/// condition holds of what its register reads, every other step at once.
pub open spec fn ready(regs: Seq<u32>, a: Access) -> bool {
    match a {
        Access::WaitAllSet { reg, .. } => condition_holds(a, read_value(regs, reg)),
        Access::WaitAllClear { reg, .. } => condition_holds(a, read_value(regs, reg)),
        _ => true,
    }
}

/// The value a read-modify-write stores, given the value read.
pub fn modified(old: u32, clear: u32, set: u32) -> (r: u32)
    ensures
        r == modify_value(old, clear, set),
{
    (old & !clear) | set
}

/// Whether a wait may end, given the value just read from its register.
/// Always true of a step that is not a wait.
pub fn condition_met(a: Access, value: u32) -> (r: bool)
    ensures
        r == condition_holds(a, value),
{
    match a {
        Access::WaitAllSet { mask, .. } => value & mask == mask,
        Access::WaitAllClear { mask, .. } => value & mask == 0,
        _ => true,
    }
}

/// The state after a step completes.
pub open spec fn after_access(regs: Seq<u32>, a: Access) -> Seq<u32> {
    match a {
        Access::Write { reg, value } => after_write(regs, reg, value),
        Access::Modify { reg, clear, set } => after_write(
            after_read(regs, reg),
            reg,
            modify_value(read_value(regs, reg), clear, set),
        ),
        _ => regs,
    }
}

/// The state after the first `n` steps of `prog` have completed.
pub open spec fn state_after(regs: Seq<u32>, prog: Seq<Access>, n: nat) -> Seq<u32>
    decreases n,
{
    if n == 0 {
        regs
    } else {
        after_access(state_after(regs, prog, (n - 1) as nat), prog[n - 1])
    }
}

/// Every one of the first `n` steps of `prog` could complete when it was reached.
pub open spec fn runs_through(regs: Seq<u32>, prog: Seq<Access>, n: nat) -> bool {
    forall|k: nat| k < n ==> #[trigger] ready(state_after(regs, prog, k), prog[k as int])
}

/// A simulated backing store for the whole register map.
pub struct RegisterFile {
    values: Vec<u32>,
}

impl View for RegisterFile {
    type V = Seq<u32>;

    /// The value held in each register slot.
    closed spec fn view(&self) -> Seq<u32> {
        self.values@
    }
}

impl RegisterFile {
    pub closed spec fn wf(&self) -> bool {
        self.values@.len() == REG_COUNT
    }

    /// A well-formed register file has one slot per register.
    pub proof fn lemma_wf_len(&self)
        requires
            self.wf(),
        ensures
            self@.len() == REG_COUNT,
    {
    }

    /// A register file with every register at zero.
    pub fn new() -> (f: RegisterFile)
        ensures
            f.wf(),
            f@.len() == REG_COUNT,
            forall|i: int| 0 <= i < REG_COUNT ==> f@[i] == 0,
    {
        let mut values: Vec<u32> = Vec::new();
        while values.len() < REG_COUNT
            invariant
                values@.len() <= REG_COUNT,
                forall|i: int| 0 <= i < values@.len() ==> values@[i] == 0,
            decreases REG_COUNT - values@.len(),
        {
            values.push(0);
        }
        RegisterFile { values }
    }

    /// The value the register holds, with no side effect.
    pub fn peek(&self, r: RegId) -> (v: u32)
        requires
            self.wf(),
        ensures
            v == self@[slot_of(r) as int],
    {
        self.values[r.slot()]
    }

    /// Set what the device holds in a register, as the hardware itself would
    /// (a status flag rising, a byte arriving).
    pub fn poke(&mut self, r: RegId, v: u32)
        requires
            old(self).wf(),
        ensures
            final(self).wf(),
            final(self)@ == old(self)@.update(slot_of(r) as int, v),
    {
        self.values.set(r.slot(), v);
    }

    /// A read as the processor issues it.
    pub fn read(&mut self, r: RegId) -> (v: u32)
        requires
            old(self).wf(),
        ensures
            final(self).wf(),
            v == read_value(old(self)@, r),
            final(self)@ == after_read(old(self)@, r),
    {
        let v = match r.mode() {
            AccessMode::WriteOnly => 0,
            _ => self.values[r.slot()],
        };
        if let RegId::Uart(id, UartReg::Data) = r {
            let s = RegId::Uart(id, UartReg::S1).slot();
            let status = self.values[s];
            self.values.set(s, status & !(UART_S1_RDRF as u32));
        }
        v
    }

    /// A write as the processor issues it.
    pub fn write(&mut self, r: RegId, v: u32)
        requires
            old(self).wf(),
        ensures
            final(self).wf(),
            final(self)@ == after_write(old(self)@, r, v),
    {
        let v = match r.width() {
            Width::Byte => v & 0xff,
            Width::Word => v,
        };
        match r {
            RegId::Gpio(b, GpioReg::Psor) => {
                let d = RegId::Gpio(b, GpioReg::Pdor).slot();
                let cur = self.values[d];
                self.values.set(d, cur | v);
            },
            RegId::Gpio(b, GpioReg::Pcor) => {
                let d = RegId::Gpio(b, GpioReg::Pdor).slot();
                let cur = self.values[d];
                self.values.set(d, cur & !v);
            },
            RegId::Gpio(b, GpioReg::Ptor) => {
                let d = RegId::Gpio(b, GpioReg::Pdor).slot();
                let cur = self.values[d];
                self.values.set(d, cur ^ v);
            },
            RegId::Ics(IcsReg::Status) => {
                let s = r.slot();
                let cur = self.values[s];
                self.values.set(s, cur & !(v & (ICS_STATUS_LOLS as u32)));
            },
            _ => {
                if r.mode() != AccessMode::ReadOnly {
                    self.values.set(r.slot(), v);
                }
            },
        }
    }

    /// Read `r`, apply `f` to what was read, and write the result back. The
    /// value written is `f` of the value read, and nothing else changes but
    /// what that read and that write change.
    pub fn modify<F: Fn(u32) -> u32>(&mut self, r: RegId, f: F) -> (w: u32)
        requires
            old(self).wf(),
            f.requires((read_value(old(self)@, r),)),
        ensures
            final(self).wf(),
            f.ensures((read_value(old(self)@, r),), w),
            final(self)@ == after_write(after_read(old(self)@, r), r, w),
            plain(r) ==> final(self)@ == old(self)@.update(slot_of(r) as int, fit(r, w)),
    {
        let v = self.read(r);
        let w = f(v);
        self.write(r, w);
        w
    }

    /// Carry out one step if it can complete now. Returns whether it did; a
    /// wait whose condition does not hold leaves the state as it is.
    pub fn perform(&mut self, a: Access) -> (done: bool)
        requires
            old(self).wf(),
        ensures
            final(self).wf(),
            done == ready(old(self)@, a),
            final(self)@ == if done {
                after_access(old(self)@, a)
            } else {
                old(self)@
            },
    {
        match a {
            Access::Write { reg, value } => {
                self.write(reg, value);
                true
            },
            Access::Modify { reg, clear, set } => {
                let v = self.read(reg);
                self.write(reg, modified(v, clear, set));
                true
            },
            Access::WaitAllSet { reg, .. } | Access::WaitAllClear { reg, .. } => {
                let v = if reg.mode() == AccessMode::WriteOnly {
                    0
                } else {
                    self.values[reg.slot()]
                };
                condition_met(a, v)
            },
            Access::Delay { .. } => true,
        }
    }

    /// Run a program from its first step. The simulated registers never change
    /// on their own, so a wait whose condition does not hold when it is reached
    /// would never end: the run stops there and returns that step's index.
    /// `Ok` means every step completed.
    pub fn run(&mut self, prog: &[Access]) -> (r: Result<(), usize>)
        requires
            old(self).wf(),
        ensures
            final(self).wf(),
            r is Ok ==> runs_through(old(self)@, prog@, prog@.len())
                && final(self)@ == state_after(old(self)@, prog@, prog@.len()),
            forall|k: usize| r == Err::<(), usize>(k) ==> {
                &&& k < prog@.len()
                &&& runs_through(old(self)@, prog@, k as nat)
                &&& !ready(state_after(old(self)@, prog@, k as nat), prog@[k as int])
                &&& final(self)@ == state_after(old(self)@, prog@, k as nat)
            },
    {
        let ghost start = self@;
        let mut i: usize = 0;
        while i < prog.len()
            invariant
                self.wf(),
                start == old(self)@,
                i <= prog@.len(),
                runs_through(start, prog@, i as nat),
                self@ == state_after(start, prog@, i as nat),
            decreases prog@.len() - i,
        {
            let done = self.perform(prog[i]);
            if !done {
                return Err(i);
            }
            assert(runs_through(start, prog@, (i + 1) as nat)) by {
                assert forall|k: nat| k < i + 1 implies #[trigger] ready(
                    state_after(start, prog@, k),
                    prog@[k as int],
                ) by {
                    if k < i {
                    }
                }
            }
            i = i + 1;
        }
        Ok(())
    }
}

} // verus!
