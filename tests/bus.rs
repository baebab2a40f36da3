use ke06z::bus::{condition_met, modified, Access, RegisterFile};
use ke06z::registers::{GpioBank, GpioReg, IcsReg, RegId, SimReg, UartReg};
use ke06z::uart::UartId;

#[test]
fn new_file_is_zero() {
    let f = RegisterFile::new();
    assert_eq!(f.peek(RegId::Sim(SimReg::Scgc)), 0);
    assert_eq!(f.peek(RegId::OscCr), 0);
}

#[test]
fn modify_applies_function_to_read_value() {
    let mut f = RegisterFile::new();
    let r = RegId::Sim(SimReg::Sopt0);
    f.write(r, 0x1234_5678);
    let w = f.modify(r, |x| (x ^ 0xFFFF_0000).rotate_left(4));
    assert_eq!(w, (0x1234_5678u32 ^ 0xFFFF_0000).rotate_left(4));
    assert_eq!(f.peek(r), w);
    assert_eq!(f.peek(RegId::Sim(SimReg::Sopt1)), 0);
    assert_eq!(f.peek(RegId::Sim(SimReg::Scgc)), 0);
}

#[test]
fn modify_of_byte_register_keeps_width() {
    let mut f = RegisterFile::new();
    let r = RegId::Ics(IcsReg::C4);
    f.write(r, 0xF0);
    let w = f.modify(r, |x| x << 4);
    assert_eq!(w, 0xF00);
    assert_eq!(f.peek(r), 0);
}

#[test]
fn set_clear_toggle_registers_act_on_output() {
    let mut f = RegisterFile::new();
    let pdor = RegId::Gpio(GpioBank::Gpio1, GpioReg::Pdor);
    f.write(RegId::Gpio(GpioBank::Gpio1, GpioReg::Psor), 0b1010);
    assert_eq!(f.peek(pdor), 0b1010);
    f.write(RegId::Gpio(GpioBank::Gpio1, GpioReg::Pcor), 0b0010);
    assert_eq!(f.peek(pdor), 0b1000);
    f.write(RegId::Gpio(GpioBank::Gpio1, GpioReg::Ptor), 0b1001);
    assert_eq!(f.peek(pdor), 0b0001);
    assert_eq!(f.read(RegId::Gpio(GpioBank::Gpio1, GpioReg::Psor)), 0);
}

#[test]
fn read_only_register_ignores_writes() {
    let mut f = RegisterFile::new();
    let s1 = RegId::Uart(UartId::Uart0, UartReg::S1);
    f.poke(s1, 0xC0);
    f.write(s1, 0);
    assert_eq!(f.peek(s1), 0xC0);
}

#[test]
fn loss_of_lock_flag_clears_on_writing_one() {
    let mut f = RegisterFile::new();
    let st = RegId::Ics(IcsReg::Status);
    f.poke(st, 0xC0);
    f.write(st, 0x40);
    assert_eq!(f.peek(st), 0xC0);
    f.write(st, 0x80);
    assert_eq!(f.peek(st), 0x40);
}

#[test]
fn run_stops_at_unmet_wait() {
    let mut f = RegisterFile::new();
    let r = RegId::Sim(SimReg::Sopt0);
    let prog = vec![
        Access::Write { reg: r, value: 5 },
        Access::Delay { cycles: 3 },
        Access::WaitAllSet { reg: r, mask: 4 },
        Access::WaitAllClear { reg: r, mask: 2 },
        Access::WaitAllSet { reg: r, mask: 2 },
        Access::Write { reg: r, value: 9 },
    ];
    assert_eq!(f.run(&prog), Err(4));
    assert_eq!(f.peek(r), 5);
    f.poke(r, 2);
    assert_eq!(f.run(&prog[4..]), Ok(()));
    assert_eq!(f.peek(r), 9);
}

#[test]
fn perform_reports_wait_outcome() {
    let mut f = RegisterFile::new();
    let r = RegId::Sim(SimReg::Pinsel);
    assert!(!f.perform(Access::WaitAllSet { reg: r, mask: 1 }));
    assert!(f.perform(Access::WaitAllClear { reg: r, mask: 1 }));
    assert!(f.perform(Access::Modify { reg: r, clear: 0, set: 0x11 }));
    assert!(f.perform(Access::Modify { reg: r, clear: 0x10, set: 0x100 }));
    assert_eq!(f.peek(r), 0x101);
}

#[test]
fn interpreter_helpers() {
    let r = RegId::Sim(SimReg::Sopt0);
    assert_eq!(modified(0b1111_0000, 0b1010_0000, 0b0000_0011), 0b0101_0011);
    assert_eq!(modified(7, 0, 0), 7);
    assert!(condition_met(Access::WaitAllSet { reg: r, mask: 0b110 }, 0b111));
    assert!(!condition_met(Access::WaitAllSet { reg: r, mask: 0b110 }, 0b101));
    assert!(condition_met(Access::WaitAllClear { reg: r, mask: 0b110 }, 0b001));
    assert!(!condition_met(Access::WaitAllClear { reg: r, mask: 0b110 }, 0b010));
    assert!(condition_met(Access::Delay { cycles: 1 }, 0));
    assert!(condition_met(Access::Write { reg: r, value: 1 }, 0));
}
