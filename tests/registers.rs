use ke06z::registers::{
    ics_c1_clks, ics_c1_rdiv, ics_c2_bdiv, AccessMode, GpioBank, GpioReg, IcsReg, PortReg, RegId,
    SimReg, UartReg, Width, REG_COUNT,
};
use ke06z::uart::UartId;

#[test]
fn field_encoders() {
    assert_eq!(ics_c1_rdiv(3), 0x18);
    assert_eq!(ics_c1_rdiv(7), 0x38);
    assert_eq!(ics_c1_rdiv(8), 0);
    assert_eq!(ics_c1_clks(1), 0x40);
    assert_eq!(ics_c1_clks(3), 0xC0);
    assert_eq!(ics_c1_clks(4), 0);
    assert_eq!(ics_c2_bdiv(1), 0x20);
    assert_eq!(ics_c2_bdiv(7), 0xE0);
    assert_eq!(ics_c2_bdiv(9), 0x20);
}

#[test]
fn register_addresses() {
    assert_eq!(RegId::Uart(UartId::Uart0, UartReg::Bdh).address(), 0x4006_A000);
    assert_eq!(RegId::Uart(UartId::Uart0, UartReg::Data).address(), 0x4006_A007);
    assert_eq!(RegId::Uart(UartId::Uart2, UartReg::S1).address(), 0x4006_C004);
    assert_eq!(RegId::Gpio(GpioBank::Gpio1, GpioReg::Pddr).address(), 0xF800_0054);
    assert_eq!(RegId::Gpio(GpioBank::Gpio2, GpioReg::Pidr).address(), 0xF800_0098);
    assert_eq!(RegId::Port(PortReg::Pue2).address(), 0x4004_9010);
    assert_eq!(RegId::Sim(SimReg::Scgc).address(), 0x4004_8014);
    assert_eq!(RegId::Sim(SimReg::Clkdiv).address(), 0x4004_8024);
    assert_eq!(RegId::Ics(IcsReg::Status).address(), 0x4006_4004);
    assert_eq!(RegId::OscCr.address(), 0x4006_5000);
}

#[test]
fn register_widths_and_modes() {
    assert_eq!(RegId::Uart(UartId::Uart1, UartReg::C2).width(), Width::Byte);
    assert_eq!(RegId::Sim(SimReg::Scgc).width(), Width::Word);
    assert_eq!(RegId::Uart(UartId::Uart1, UartReg::S1).mode(), AccessMode::ReadOnly);
    assert_eq!(RegId::Gpio(GpioBank::Gpio0, GpioReg::Psor).mode(), AccessMode::WriteOnly);
    assert_eq!(RegId::Sim(SimReg::Uuidl).mode(), AccessMode::ReadOnly);
    assert_eq!(RegId::Ics(IcsReg::C1).mode(), AccessMode::ReadWrite);
}

#[test]
fn slots_are_distinct() {
    let all = [
        RegId::Uart(UartId::Uart0, UartReg::Bdh),
        RegId::Uart(UartId::Uart2, UartReg::Data),
        RegId::Gpio(GpioBank::Gpio0, GpioReg::Pdor),
        RegId::Gpio(GpioBank::Gpio2, GpioReg::Pidr),
        RegId::Port(PortReg::Ioflt0),
        RegId::Port(PortReg::Hdrve),
        RegId::Sim(SimReg::Srsid),
        RegId::Sim(SimReg::Clkdiv),
        RegId::Ics(IcsReg::C1),
        RegId::Ics(IcsReg::Status),
        RegId::OscCr,
    ];
    for (i, a) in all.iter().enumerate() {
        assert!(a.slot() < REG_COUNT);
        for b in all.iter().skip(i + 1) {
            assert_ne!(a.slot(), b.slot());
            assert_ne!(a.address(), b.address());
        }
    }
    assert_eq!(RegId::OscCr.slot(), REG_COUNT - 1);
}
