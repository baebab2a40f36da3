use ke06z::bus::{Access, RegisterFile};
use ke06z::ics::{init, ClockProfile};
use ke06z::osc;
use ke06z::registers::{
    IcsReg, RegId, SimReg, ICS_STATUS_IREFST, ICS_STATUS_LOCK, ICS_STATUS_LOLS, OSC_CR_OSCINIT,
};

fn index_of(prog: &[Access], a: Access) -> usize {
    prog.iter().position(|x| *x == a).unwrap()
}

#[test]
fn oscillator_program() {
    let prog = osc::init();
    assert_eq!(prog.len(), 2);
    assert_eq!(prog[0], Access::Modify { reg: RegId::OscCr, clear: 0, set: 0x94 });
    assert_eq!(prog[1], Access::WaitAllSet { reg: RegId::OscCr, mask: OSC_CR_OSCINIT as u32 });
}

#[test]
fn bringup_order() {
    let prog = init(&ClockProfile::fee_40mhz());
    let select = index_of(&prog, Access::Write { reg: RegId::Ics(IcsReg::C1), value: 0x18 });
    let settled = index_of(&prog, Access::WaitAllClear { reg: RegId::Ics(IcsReg::Status), mask: ICS_STATUS_IREFST as u32 });
    let locked = index_of(&prog, Access::WaitAllSet { reg: RegId::Ics(IcsReg::Status), mask: ICS_STATUS_LOCK as u32 });
    let clkdiv = index_of(&prog, Access::Write { reg: RegId::Sim(SimReg::Clkdiv), value: 0x0110_0000 });
    assert!(select < settled && settled < locked && locked < clkdiv);
    assert_eq!(prog[select + 1], Access::Delay { cycles: 2 });
    assert_eq!(prog.len(), 11);
}

#[test]
fn bringup_runs_against_simulated_chip() {
    let prog = init(&ClockProfile::fee_40mhz());
    let mut f = RegisterFile::new();
    let status = RegId::Ics(IcsReg::Status);
    f.poke(status, ICS_STATUS_IREFST as u32);
    assert_eq!(f.run(&prog), Err(1));
    f.poke(RegId::OscCr, OSC_CR_OSCINIT as u32);
    assert_eq!(f.run(&prog), Err(5));
    assert_eq!(f.peek(RegId::Ics(IcsReg::C1)), 0x18);
    assert_eq!(f.peek(RegId::Ics(IcsReg::C2)), 0x20);
    f.poke(status, 0);
    assert_eq!(f.run(&prog[5..]), Err(1));
    f.poke(status, (ICS_STATUS_LOCK | ICS_STATUS_LOLS) as u32);
    assert_eq!(f.run(&prog[6..]), Ok(()));
    assert_eq!(f.peek(status), ICS_STATUS_LOCK as u32);
    assert_eq!(f.peek(RegId::Ics(IcsReg::C2)), 0);
    assert_eq!(f.peek(RegId::Sim(SimReg::Clkdiv)), 0x0110_0000);
    assert_eq!(f.peek(RegId::OscCr), 0x95);
}

#[test]
fn profile_without_sim_divider() {
    let prog = init(&ClockProfile::fee_20mhz());
    assert_eq!(prog.len(), 9);
    assert!(!prog.iter().any(|a| matches!(a, Access::Write { reg: RegId::Sim(SimReg::Clkdiv), .. })));
    let mut f = RegisterFile::new();
    f.poke(RegId::OscCr, OSC_CR_OSCINIT as u32);
    f.poke(RegId::Ics(IcsReg::Status), ICS_STATUS_LOCK as u32);
    assert_eq!(f.run(&prog), Ok(()));
    assert_eq!(f.peek(RegId::Ics(IcsReg::C2)), 0x20);
}
