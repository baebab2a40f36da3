//! GPIO pin control.
//!
//! The documentation names nine 8-bit ports A to I; the hardware has three
//! 32-bit banks, ports A to D in the first, E to H in the second and I in the
//! third, each port a byte of its bank. Pull-ups live in the PORT module, one
//! enable register per bank.

use vstd::prelude::*;
use crate::bus::Access;
use crate::registers::{GpioBank, GpioReg, PortReg, RegId};
use crate::uart::UartId;

verus! {

/// A pin within a port.
#[derive(Clone, Copy, PartialEq, Eq, Structural, Debug)]
pub enum Pin {
    Pin0,
    Pin1,
    Pin2,
    Pin3,
    Pin4,
    Pin5,
    Pin6,
    Pin7,
}

/// A port and a pin within it.
#[derive(Clone, Copy, PartialEq, Eq, Structural, Debug)]
pub enum PinPort {
    PortA(Pin),
    PortB(Pin),
    PortC(Pin),
    PortD(Pin),
    PortE(Pin),
    PortF(Pin),
    PortG(Pin),
    PortH(Pin),
    PortI(Pin),
}

/// A pin's direction.
#[derive(Clone, Copy, PartialEq, Eq, Structural, Debug)]
pub enum PinMode {
    /// An input with a pull-up (`High`) or pull-down (`Low`)
    InputPull(Level),
    /// An input with no pull
    Input,
    /// A totem-pole output
    Output,
    /// Driven by a peripheral, no longer a GPIO
    Peripheral,
}

/// A logic level.
#[derive(Clone, Copy, PartialEq, Eq, Structural, Debug)]
pub enum Level {
    High,
    Low,
}

pub open spec fn pin_index(pin: Pin) -> u32 {
    match pin {
        Pin::Pin0 => 0,
        Pin::Pin1 => 1,
        Pin::Pin2 => 2,
        Pin::Pin3 => 3,
        Pin::Pin4 => 4,
        Pin::Pin5 => 5,
        Pin::Pin6 => 6,
        Pin::Pin7 => 7,
    }
}

/// The pin of a port and pin.
pub open spec fn pin_of(pp: PinPort) -> Pin {
    match pp {
        PinPort::PortA(p) => p,
        PinPort::PortB(p) => p,
        PinPort::PortC(p) => p,
        PinPort::PortD(p) => p,
        PinPort::PortE(p) => p,
        PinPort::PortF(p) => p,
        PinPort::PortG(p) => p,
        PinPort::PortH(p) => p,
        PinPort::PortI(p) => p,
    }
}

/// The bank that holds a port.
pub open spec fn bank_of(pp: PinPort) -> GpioBank {
    match pp {
        PinPort::PortA(_) | PinPort::PortB(_) | PinPort::PortC(_) | PinPort::PortD(_) => GpioBank::Gpio0,
        PinPort::PortE(_) | PinPort::PortF(_) | PinPort::PortG(_) | PinPort::PortH(_) => GpioBank::Gpio1,
        PinPort::PortI(_) => GpioBank::Gpio2,
    }
}

/// Where a port's byte starts within its bank.
pub open spec fn port_shift(pp: PinPort) -> u32 {
    match pp {
        PinPort::PortA(_) | PinPort::PortE(_) | PinPort::PortI(_) => 0,
        PinPort::PortB(_) | PinPort::PortF(_) => 8,
        PinPort::PortC(_) | PinPort::PortG(_) => 16,
        PinPort::PortD(_) | PinPort::PortH(_) => 24,
    }
}

/// The bit of a pin within its bank.
pub open spec fn pin_bit(pp: PinPort) -> u32 {
    (port_shift(pp) + pin_index(pin_of(pp))) as u32
}

/// The one-bit mask of a pin within its bank.
pub open spec fn pin_mask(pp: PinPort) -> u32 {
    1u32 << pin_bit(pp)
}

/// The pull-up enable register of a pin's bank.
pub open spec fn pull_register(pp: PinPort) -> RegId {
    match bank_of(pp) {
        GpioBank::Gpio0 => RegId::Port(PortReg::Pue0),
        GpioBank::Gpio1 => RegId::Port(PortReg::Pue1),
        GpioBank::Gpio2 => RegId::Port(PortReg::Pue2),
    }
}

/// Clear the pin's direction bit: an input.
pub open spec fn input_step(pp: PinPort) -> Access {
    Access::Modify { reg: RegId::Gpio(bank_of(pp), GpioReg::Pddr), clear: pin_mask(pp), set: 0 }
}

/// The program that puts a pin in a mode other than `Peripheral`.
pub open spec fn direction_program(pp: PinPort, mode: PinMode) -> Seq<Access> {
    let m = pin_mask(pp);
    let bank = bank_of(pp);
    match mode {
        PinMode::InputPull(Level::High) => seq![
            input_step(pp),
            Access::Modify { reg: pull_register(pp), clear: 0, set: m },
        ],
        PinMode::InputPull(Level::Low) => seq![
            input_step(pp),
            Access::Modify { reg: pull_register(pp), clear: m, set: 0 },
        ],
        PinMode::Input => seq![input_step(pp)],
        _ => seq![
            Access::Modify { reg: RegId::Gpio(bank, GpioReg::Pddr), clear: 0, set: m },
            level_write(pp, Level::Low),
        ],
    }
}

/// The write that drives an output pin to a level: its bit in the set-output
/// register for `High`, in the clear-output register for `Low`.
pub open spec fn level_write(pp: PinPort, level: Level) -> Access {
    Access::Write {
        reg: RegId::Gpio(
            bank_of(pp),
            if level == Level::High { GpioReg::Psor } else { GpioReg::Pcor },
        ),
        value: pin_mask(pp),
    }
}

/// Nothing needs setting up before using the pins.
pub fn init() {
}

/// The program that sets the direction of a pin. Routing a pin to a
/// peripheral is not supported on this chip yet, so `mode` is never
/// `Peripheral`. An output starts low.
pub fn set_direction(pinport: PinPort, mode: PinMode) -> (p: Vec<Access>)
    requires
        !(mode is Peripheral),
    ensures
        p@ == direction_program(pinport, mode),
{
    match mode {
        PinMode::InputPull(Level::High) => make_input_pullup(pinport),
        PinMode::InputPull(Level::Low) => make_input_pulldown(pinport),
        PinMode::Input => make_input(pinport),
        _ => {
            let p = make_output(pinport, Level::Low);
            assert(p@ =~= direction_program(pinport, mode));
            p
        },
    }
}

/// The write that drives an output pin to `level`.
pub fn set(pinport: PinPort, level: Level) -> (a: Access)
    ensures
        a == level_write(pinport, level),
{
    let (bank, mask) = get_internal(pinport);
    match level {
        Level::High => Access::Write { reg: RegId::Gpio(bank, GpioReg::Psor), value: mask },
        Level::Low => Access::Write { reg: RegId::Gpio(bank, GpioReg::Pcor), value: mask },
    }
}

/// The register whose value [`read`] takes: the data input register of the pin's bank.
pub fn input_register(pinport: PinPort) -> (r: RegId)
    ensures
        r == RegId::Gpio(bank_of(pinport), GpioReg::Pdir),
{
    let (bank, _) = get_internal(pinport);
    RegId::Gpio(bank, GpioReg::Pdir)
}

/// The level of an input pin, given the value of its bank's data input register.
pub fn read(pinport: PinPort, input: u32) -> (l: Level)
    ensures
        l == (if input & pin_mask(pinport) == pin_mask(pinport) {
            Level::High
        } else {
            Level::Low
        }),
{
    let (_, mask) = get_internal(pinport);
    if input & mask == mask {
        Level::High
    } else {
        Level::Low
    }
}

/// Route a UART to its usual pins. No routing is needed yet: UART0 sits on
/// A0 and A1 out of reset.
pub fn enable_uart(_id: UartId) {
}

/// The bank of a pin and the pin's mask within it.
fn get_internal(pinport: PinPort) -> (r: (GpioBank, u32))
    ensures
        r.0 == bank_of(pinport),
        r.1 == pin_mask(pinport),
{
    let (bank, pin, shift): (GpioBank, Pin, u32) = match pinport {
        PinPort::PortA(pin) => (GpioBank::Gpio0, pin, 0),
        PinPort::PortB(pin) => (GpioBank::Gpio0, pin, 8),
        PinPort::PortC(pin) => (GpioBank::Gpio0, pin, 16),
        PinPort::PortD(pin) => (GpioBank::Gpio0, pin, 24),
        PinPort::PortE(pin) => (GpioBank::Gpio1, pin, 0),
        PinPort::PortF(pin) => (GpioBank::Gpio1, pin, 8),
        PinPort::PortG(pin) => (GpioBank::Gpio1, pin, 16),
        PinPort::PortH(pin) => (GpioBank::Gpio1, pin, 24),
        PinPort::PortI(pin) => (GpioBank::Gpio2, pin, 0),
    };
    let m = get_pin_mask(pin);
    let ghost i = pin_index(pin);
    assert(i < 8 && shift <= 24 ==> (1u32 << i) << shift == 1u32 << (shift + i)) by (bit_vector);
    (bank, m << shift)
}

/// The mask of a pin within its port: `Pin0` is 1, `Pin7` is 128.
fn get_pin_mask(pin: Pin) -> (m: u32)
    ensures
        m == 1u32 << pin_index(pin),
{
    let i: u32 = match pin {
        Pin::Pin0 => 0,
        Pin::Pin1 => 1,
        Pin::Pin2 => 2,
        Pin::Pin3 => 3,
        Pin::Pin4 => 4,
        Pin::Pin5 => 5,
        Pin::Pin6 => 6,
        Pin::Pin7 => 7,
    };
    1u32 << i
}

/// The pull-up enable register of a pin's bank.
fn get_pull_register(pinport: PinPort) -> (r: RegId)
    ensures
        r == pull_register(pinport),
{
    match get_internal(pinport).0 {
        GpioBank::Gpio0 => RegId::Port(PortReg::Pue0),
        GpioBank::Gpio1 => RegId::Port(PortReg::Pue1),
        GpioBank::Gpio2 => RegId::Port(PortReg::Pue2),
    }
}

fn make_input(pinport: PinPort) -> (p: Vec<Access>)
    ensures
        p@ == direction_program(pinport, PinMode::Input),
{
    let (bank, mask) = get_internal(pinport);
    let mut p: Vec<Access> = Vec::new();
    p.push(Access::Modify { reg: RegId::Gpio(bank, GpioReg::Pddr), clear: mask, set: 0 });
    assert(p@ =~= direction_program(pinport, PinMode::Input));
    p
}

fn make_input_pullup(pinport: PinPort) -> (p: Vec<Access>)
    ensures
        p@ == direction_program(pinport, PinMode::InputPull(Level::High)),
{
    let mut p = make_input(pinport);
    let (_, mask) = get_internal(pinport);
    p.push(Access::Modify { reg: get_pull_register(pinport), clear: 0, set: mask });
    assert(p@ =~= direction_program(pinport, PinMode::InputPull(Level::High)));
    p
}

fn make_input_pulldown(pinport: PinPort) -> (p: Vec<Access>)
    ensures
        p@ == direction_program(pinport, PinMode::InputPull(Level::Low)),
{
    let mut p = make_input(pinport);
    let (_, mask) = get_internal(pinport);
    p.push(Access::Modify { reg: get_pull_register(pinport), clear: mask, set: 0 });
    assert(p@ =~= direction_program(pinport, PinMode::InputPull(Level::Low)));
    p
}

/// An output driven to `level`: the direction bit is set first, then the pin's
/// bit is written to the set-output register for `High` or the clear-output
/// register for `Low`.
fn make_output(pinport: PinPort, level: Level) -> (p: Vec<Access>)
    ensures
        p@ == seq![
            Access::Modify {
                reg: RegId::Gpio(bank_of(pinport), GpioReg::Pddr),
                clear: 0,
                set: pin_mask(pinport),
            },
            level_write(pinport, level),
        ],
{
    let (bank, mask) = get_internal(pinport);
    let mut p: Vec<Access> = Vec::new();
    p.push(Access::Modify { reg: RegId::Gpio(bank, GpioReg::Pddr), clear: 0, set: mask });
    p.push(set(pinport, level));
    assert(p@ =~= seq![
        Access::Modify {
            reg: RegId::Gpio(bank_of(pinport), GpioReg::Pddr),
            clear: 0,
            set: pin_mask(pinport),
        },
        level_write(pinport, level),
    ]);
    p
}

} // verus!
