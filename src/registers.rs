//! Register map of the Kinetis KE06Z: fixed base addresses, the layout of each
//! peripheral's register block, access modes, and the bit fields the drivers use.
//!
//! A register is named by a [`RegId`]; its physical address, width and access
//! mode follow from the datasheet layout and are fixed here.

use vstd::prelude::*;
use crate::uart::UartId;

verus! {

pub const SIM_BASE: usize = 0x4004_8000;
pub const PORT_BASE: usize = 0x4004_9000;
pub const ICS_BASE: usize = 0x4006_4000;
pub const OSC_BASE: usize = 0x4006_5000;
pub const UART0_BASE: usize = 0x4006_A000;
pub const UART1_BASE: usize = 0x4006_B000;
pub const UART2_BASE: usize = 0x4006_C000;
pub const GPIO0_BASE: usize = 0xF800_0000;
pub const GPIO1_BASE: usize = 0xF800_0040;
pub const GPIO2_BASE: usize = 0xF800_0080;

pub const ICS_C1_IREFSTEN: u8 = 1 << 0;
pub const ICS_C1_IRCLKEN: u8 = 1 << 1;
pub const ICS_C1_IREFS: u8 = 1 << 2;
pub const ICS_C1_RDIV: u8 = 0b111 << 3;
pub const ICS_C1_CLKS: u8 = 0b11 << 6;

pub const ICS_C2_LP: u8 = 1 << 4;
pub const ICS_C2_BDIV: u8 = 0b111 << 5;

pub const ICS_C4_SCFTRIM: u8 = 1 << 0;
pub const ICS_C4_CME: u8 = 1 << 5;
pub const ICS_C4_LOLIE: u8 = 1 << 7;

pub const ICS_STATUS_CLKST: u8 = 0b11 << 2;
pub const ICS_STATUS_IREFST: u8 = 1 << 4;
pub const ICS_STATUS_LOCK: u8 = 1 << 6;
pub const ICS_STATUS_LOLS: u8 = 1 << 7;

pub const UART_C1_PT: u8 = 1 << 0;
pub const UART_C1_PE: u8 = 1 << 1;
pub const UART_C1_ILT: u8 = 1 << 2;
pub const UART_C1_WAKE: u8 = 1 << 3;
pub const UART_C1_M: u8 = 1 << 4;
pub const UART_C1_RSRC: u8 = 1 << 5;
pub const UART_C1_UARTSWAI: u8 = 1 << 6;
pub const UART_C1_LOOPS: u8 = 1 << 7;

pub const UART_C2_SBK: u8 = 1 << 0;
pub const UART_C2_RWU: u8 = 1 << 1;
pub const UART_C2_RE: u8 = 1 << 2;
pub const UART_C2_TE: u8 = 1 << 3;
pub const UART_C2_ILIE: u8 = 1 << 4;
pub const UART_C2_RIE: u8 = 1 << 5;
pub const UART_C2_TCIE: u8 = 1 << 6;
pub const UART_C2_TIE: u8 = 1 << 7;

pub const UART_S1_PF: u8 = 1 << 0;
pub const UART_S1_FE: u8 = 1 << 1;
pub const UART_S1_NF: u8 = 1 << 2;
pub const UART_S1_OR: u8 = 1 << 3;
pub const UART_S1_IDLE: u8 = 1 << 4;
pub const UART_S1_RDRF: u8 = 1 << 5;
pub const UART_S1_TC: u8 = 1 << 6;
pub const UART_S1_TDRE: u8 = 1 << 7;

pub const SIM_SCGC_RTC: u32 = 1 << 0;
pub const SIM_SCGC_PIT: u32 = 1 << 1;
pub const SIM_SCGC_PWT: u32 = 1 << 4;
pub const SIM_SCGC_FTM0: u32 = 1 << 5;
pub const SIM_SCGC_FTM1: u32 = 1 << 6;
pub const SIM_SCGC_FTM2: u32 = 1 << 7;
pub const SIM_SCGC_CRC: u32 = 1 << 10;
pub const SIM_SCGC_FLASH: u32 = 1 << 12;
pub const SIM_SCGC_SWD: u32 = 1 << 13;
pub const SIM_SCGC_MSCAN: u32 = 1 << 15;
pub const SIM_SCGC_I2C0: u32 = 1 << 16;
pub const SIM_SCGC_I2C1: u32 = 1 << 17;
pub const SIM_SCGC_SPI0: u32 = 1 << 18;
pub const SIM_SCGC_SPI1: u32 = 1 << 19;
pub const SIM_SCGC_UART0: u32 = 1 << 20;
pub const SIM_SCGC_UART1: u32 = 1 << 21;
pub const SIM_SCGC_UART2: u32 = 1 << 22;
pub const SIM_SCGC_KBI0: u32 = 1 << 24;
pub const SIM_SCGC_KBI1: u32 = 1 << 25;
pub const SIM_SCGC_IRQ: u32 = 1 << 27;
pub const SIM_SCGC_ADC: u32 = 1 << 29;
pub const SIM_SCGC_ACMP0: u32 = 1 << 30;
pub const SIM_SCGC_ACMP1: u32 = 1 << 31;

pub const OSC_CR_OSCINIT: u8 = 1 << 0;
pub const OSC_CR_HGO: u8 = 1 << 1;
pub const OSC_CR_RANGE: u8 = 1 << 2;
pub const OSC_CR_OSCOS: u8 = 1 << 4;
pub const OSC_CR_OSCSTEN: u8 = 1 << 5;
pub const OSC_CR_OSCEN: u8 = 1 << 7;

/// Number of registers in the map, one slot each.
pub const REG_COUNT: usize = 67;

/// Width of a register.
#[derive(Clone, Copy, PartialEq, Eq, Structural, Debug)]
pub enum Width {
    Byte,
    Word,
}

/// What an access to a register may do.
#[derive(Clone, Copy, PartialEq, Eq, Structural, Debug)]
pub enum AccessMode {
    /// Status: writes are ignored.
    ReadOnly,
    /// Set/clear/toggle actions: reads return zero.
    WriteOnly,
    /// Control and configuration.
    ReadWrite,
}

/// Registers of a UART instance, eight consecutive bytes.
#[derive(Clone, Copy, PartialEq, Eq, Structural, Debug)]
pub enum UartReg {
    Bdh,
    Bdl,
    C1,
    C2,
    S1,
    S2,
    C3,
    Data,
}

/// The three 32-bit GPIO banks; each covers four 8-bit ports (the last one only port I).
#[derive(Clone, Copy, PartialEq, Eq, Structural, Debug)]
pub enum GpioBank {
    /// Ports A, B, C and D
    Gpio0,
    /// Ports E, F, G and H
    Gpio1,
    /// Port I
    Gpio2,
}

/// Registers of a GPIO bank, seven consecutive words.
#[derive(Clone, Copy, PartialEq, Eq, Structural, Debug)]
pub enum GpioReg {
    /// Data output
    Pdor,
    /// Set output (write-only)
    Psor,
    /// Clear output (write-only)
    Pcor,
    /// Toggle output (write-only)
    Ptor,
    /// Data input (read-only)
    Pdir,
    /// Data direction
    Pddr,
    /// Input disable
    Pidr,
}

/// Registers of the PORT module: input filters, pull-up enables, drive strength.
#[derive(Clone, Copy, PartialEq, Eq, Structural, Debug)]
pub enum PortReg {
    Ioflt0,
    Ioflt1,
    /// Pull-up enables of ports A to D
    Pue0,
    /// Pull-up enables of ports E to H
    Pue1,
    /// Pull-up enables of port I
    Pue2,
    Hdrve,
}

/// Registers of the System Integration Module, consecutive words.
#[derive(Clone, Copy, PartialEq, Eq, Structural, Debug)]
pub enum SimReg {
    /// Reset status and ID (read-only)
    Srsid,
    Sopt0,
    Sopt1,
    Pinsel,
    Pinsel1,
    /// Clock gating control
    Scgc,
    /// Unique identifier, low (read-only)
    Uuidl,
    /// Unique identifier, middle low (read-only)
    Uuidml,
    /// Unique identifier, middle high (read-only)
    Uuidmh,
    /// Core and bus clock dividers
    Clkdiv,
}

/// Registers of the Internal Clock Source, consecutive bytes.
#[derive(Clone, Copy, PartialEq, Eq, Structural, Debug)]
pub enum IcsReg {
    C1,
    C2,
    C3,
    C4,
    Status,
}

/// One hardware register of the chip.
#[derive(Clone, Copy, PartialEq, Eq, Structural, Debug)]
pub enum RegId {
    Uart(UartId, UartReg),
    Gpio(GpioBank, GpioReg),
    Port(PortReg),
    Sim(SimReg),
    Ics(IcsReg),
    /// The oscillator's single control register
    OscCr,
}

pub open spec fn uart_index(id: UartId) -> nat {
    match id {
        UartId::Uart0 => 0,
        UartId::Uart1 => 1,
        UartId::Uart2 => 2,
    }
}

pub open spec fn uart_base(id: UartId) -> nat {
    match id {
        UartId::Uart0 => UART0_BASE as nat,
        UartId::Uart1 => UART1_BASE as nat,
        UartId::Uart2 => UART2_BASE as nat,
    }
}

pub open spec fn bank_index(b: GpioBank) -> nat {
    match b {
        GpioBank::Gpio0 => 0,
        GpioBank::Gpio1 => 1,
        GpioBank::Gpio2 => 2,
    }
}

pub open spec fn bank_base(b: GpioBank) -> nat {
    match b {
        GpioBank::Gpio0 => GPIO0_BASE as nat,
        GpioBank::Gpio1 => GPIO1_BASE as nat,
        GpioBank::Gpio2 => GPIO2_BASE as nat,
    }
}

/// Position of a register within its UART block.
pub open spec fn uart_reg_index(r: UartReg) -> nat {
    match r {
        UartReg::Bdh => 0,
        UartReg::Bdl => 1,
        UartReg::C1 => 2,
        UartReg::C2 => 3,
        UartReg::S1 => 4,
        UartReg::S2 => 5,
        UartReg::C3 => 6,
        UartReg::Data => 7,
    }
}

/// Position of a register within its GPIO bank.
pub open spec fn gpio_reg_index(r: GpioReg) -> nat {
    match r {
        GpioReg::Pdor => 0,
        GpioReg::Psor => 1,
        GpioReg::Pcor => 2,
        GpioReg::Ptor => 3,
        GpioReg::Pdir => 4,
        GpioReg::Pddr => 5,
        GpioReg::Pidr => 6,
    }
}

/// Position of a register within the PORT block.
pub open spec fn port_reg_index(r: PortReg) -> nat {
    match r {
        PortReg::Ioflt0 => 0,
        PortReg::Ioflt1 => 1,
        PortReg::Pue0 => 2,
        PortReg::Pue1 => 3,
        PortReg::Pue2 => 4,
        PortReg::Hdrve => 5,
    }
}

/// Position of a register within the SIM block.
pub open spec fn sim_reg_index(r: SimReg) -> nat {
    match r {
        SimReg::Srsid => 0,
        SimReg::Sopt0 => 1,
        SimReg::Sopt1 => 2,
        SimReg::Pinsel => 3,
        SimReg::Pinsel1 => 4,
        SimReg::Scgc => 5,
        SimReg::Uuidl => 6,
        SimReg::Uuidml => 7,
        SimReg::Uuidmh => 8,
        SimReg::Clkdiv => 9,
    }
}

/// Position of a register within the ICS block.
pub open spec fn ics_reg_index(r: IcsReg) -> nat {
    match r {
        IcsReg::C1 => 0,
        IcsReg::C2 => 1,
        IcsReg::C3 => 2,
        IcsReg::C4 => 3,
        IcsReg::Status => 4,
    }
}

/// Physical address of a register: the block's base plus the register's
/// position times the register width in bytes.
pub open spec fn address_of(r: RegId) -> nat {
    match r {
        RegId::Uart(id, u) => uart_base(id) + uart_reg_index(u),
        RegId::Gpio(b, g) => bank_base(b) + 4 * gpio_reg_index(g),
        RegId::Port(p) => PORT_BASE as nat + 4 * port_reg_index(p),
        RegId::Sim(s) => SIM_BASE as nat + 4 * sim_reg_index(s),
        RegId::Ics(i) => ICS_BASE as nat + ics_reg_index(i),
        RegId::OscCr => OSC_BASE as nat,
    }
}

/// Slot of a register in a register file: each register has its own.
pub open spec fn slot_of(r: RegId) -> nat {
    match r {
        RegId::Uart(id, u) => 8 * uart_index(id) + uart_reg_index(u),
        RegId::Gpio(b, g) => 24 + 7 * bank_index(b) + gpio_reg_index(g),
        RegId::Port(p) => 45 + port_reg_index(p),
        RegId::Sim(s) => 51 + sim_reg_index(s),
        RegId::Ics(i) => 61 + ics_reg_index(i),
        RegId::OscCr => 66,
    }
}

pub open spec fn width_of(r: RegId) -> Width {
    match r {
        RegId::Uart(_, _) | RegId::Ics(_) | RegId::OscCr => Width::Byte,
        _ => Width::Word,
    }
}

pub open spec fn mode_of(r: RegId) -> AccessMode {
    match r {
        RegId::Uart(_, UartReg::S1) => AccessMode::ReadOnly,
        RegId::Gpio(_, GpioReg::Pdir) => AccessMode::ReadOnly,
        RegId::Gpio(_, GpioReg::Psor) => AccessMode::WriteOnly,
        RegId::Gpio(_, GpioReg::Pcor) => AccessMode::WriteOnly,
        RegId::Gpio(_, GpioReg::Ptor) => AccessMode::WriteOnly,
        RegId::Sim(SimReg::Srsid) => AccessMode::ReadOnly,
        RegId::Sim(SimReg::Uuidl) => AccessMode::ReadOnly,
        RegId::Sim(SimReg::Uuidml) => AccessMode::ReadOnly,
        RegId::Sim(SimReg::Uuidmh) => AccessMode::ReadOnly,
        _ => AccessMode::ReadWrite,
    }
}

/// Two distinct registers never share a slot, and every slot is in range.
pub proof fn lemma_slot_injective(r: RegId, q: RegId)
    ensures
        slot_of(r) < REG_COUNT,
        slot_of(r) == slot_of(q) ==> r == q,
{
}

/// Two distinct registers never share an address.
pub proof fn lemma_address_injective(r: RegId, q: RegId)
    ensures
        address_of(r) == address_of(q) ==> r == q,
{
}

impl RegId {
    /// Physical address of the register.
    pub fn address(self) -> (a: usize)
        ensures
            a as nat == address_of(self),
    {
        match self {
            RegId::Uart(id, u) => {
                let base = match id {
                    UartId::Uart0 => UART0_BASE,
                    UartId::Uart1 => UART1_BASE,
                    UartId::Uart2 => UART2_BASE,
                };
                base + u.index()
            },
            RegId::Gpio(b, g) => {
                let base = match b {
                    GpioBank::Gpio0 => GPIO0_BASE,
                    GpioBank::Gpio1 => GPIO1_BASE,
                    GpioBank::Gpio2 => GPIO2_BASE,
                };
                base + 4 * g.index()
            },
            RegId::Port(p) => PORT_BASE + 4 * p.index(),
            RegId::Sim(s) => SIM_BASE + 4 * s.index(),
            RegId::Ics(i) => ICS_BASE + i.index(),
            RegId::OscCr => OSC_BASE,
        }
    }

    /// Slot of the register in a [`crate::bus::RegisterFile`].
    pub fn slot(self) -> (s: usize)
        ensures
            s as nat == slot_of(self),
            s < REG_COUNT,
    {
        match self {
            RegId::Uart(id, u) => {
                let i: usize = match id {
                    UartId::Uart0 => 0,
                    UartId::Uart1 => 1,
                    UartId::Uart2 => 2,
                };
                8 * i + u.index()
            },
            RegId::Gpio(b, g) => {
                let i: usize = match b {
                    GpioBank::Gpio0 => 0,
                    GpioBank::Gpio1 => 1,
                    GpioBank::Gpio2 => 2,
                };
                24 + 7 * i + g.index()
            },
            RegId::Port(p) => 45 + p.index(),
            RegId::Sim(s) => 51 + s.index(),
            RegId::Ics(i) => 61 + i.index(),
            RegId::OscCr => 66,
        }
    }

    pub fn width(self) -> (w: Width)
        ensures
            w == width_of(self),
    {
        match self {
            RegId::Uart(_, _) | RegId::Ics(_) | RegId::OscCr => Width::Byte,
            _ => Width::Word,
        }
    }

    pub fn mode(self) -> (m: AccessMode)
        ensures
            m == mode_of(self),
    {
        match self {
            RegId::Uart(_, UartReg::S1) => AccessMode::ReadOnly,
            RegId::Gpio(_, GpioReg::Pdir) => AccessMode::ReadOnly,
            RegId::Gpio(_, GpioReg::Psor) => AccessMode::WriteOnly,
            RegId::Gpio(_, GpioReg::Pcor) => AccessMode::WriteOnly,
            RegId::Gpio(_, GpioReg::Ptor) => AccessMode::WriteOnly,
            RegId::Sim(SimReg::Srsid) => AccessMode::ReadOnly,
            RegId::Sim(SimReg::Uuidl) => AccessMode::ReadOnly,
            RegId::Sim(SimReg::Uuidml) => AccessMode::ReadOnly,
            RegId::Sim(SimReg::Uuidmh) => AccessMode::ReadOnly,
            _ => AccessMode::ReadWrite,
        }
    }
}

impl UartReg {
    pub fn index(self) -> (i: usize)
        ensures
            i as nat == uart_reg_index(self),
    {
        match self {
            UartReg::Bdh => 0,
            UartReg::Bdl => 1,
            UartReg::C1 => 2,
            UartReg::C2 => 3,
            UartReg::S1 => 4,
            UartReg::S2 => 5,
            UartReg::C3 => 6,
            UartReg::Data => 7,
        }
    }
}

impl GpioReg {
    pub fn index(self) -> (i: usize)
        ensures
            i as nat == gpio_reg_index(self),
    {
        match self {
            GpioReg::Pdor => 0,
            GpioReg::Psor => 1,
            GpioReg::Pcor => 2,
            GpioReg::Ptor => 3,
            GpioReg::Pdir => 4,
            GpioReg::Pddr => 5,
            GpioReg::Pidr => 6,
        }
    }
}

impl PortReg {
    pub fn index(self) -> (i: usize)
        ensures
            i as nat == port_reg_index(self),
    {
        match self {
            PortReg::Ioflt0 => 0,
            PortReg::Ioflt1 => 1,
            PortReg::Pue0 => 2,
            PortReg::Pue1 => 3,
            PortReg::Pue2 => 4,
            PortReg::Hdrve => 5,
        }
    }
}

impl SimReg {
    pub fn index(self) -> (i: usize)
        ensures
            i as nat == sim_reg_index(self),
    {
        match self {
            SimReg::Srsid => 0,
            SimReg::Sopt0 => 1,
            SimReg::Sopt1 => 2,
            SimReg::Pinsel => 3,
            SimReg::Pinsel1 => 4,
            SimReg::Scgc => 5,
            SimReg::Uuidl => 6,
            SimReg::Uuidml => 7,
            SimReg::Uuidmh => 8,
            SimReg::Clkdiv => 9,
        }
    }
}

impl IcsReg {
    pub fn index(self) -> (i: usize)
        ensures
            i as nat == ics_reg_index(self),
    {
        match self {
            IcsReg::C1 => 0,
            IcsReg::C2 => 1,
            IcsReg::C3 => 2,
            IcsReg::C4 => 3,
            IcsReg::Status => 4,
        }
    }
}

/// Encode a value into the ICS C1 reference divider field (bits 3 to 5).
pub fn ics_c1_rdiv(x: u8) -> (r: u8)
    ensures
        r == ((x & 7) << 3u8),
        r as int == (x as int % 8) * 8,
{
    let r = (x & 0b111) << 3;
    assert(r == ((x & 7) << 3u8) && r as int == (x as int % 8) * 8)
        by (bit_vector)
        requires
            r == ((x & 7u8) << 3u8),
    ;
    r
}

/// Encode a value into the ICS C1 clock source select field (bits 6 and 7).
pub fn ics_c1_clks(x: u8) -> (r: u8)
    ensures
        r == ((x & 3) << 6u8),
        r as int == (x as int % 4) * 64,
{
    let r = (x & 0b11) << 6;
    assert(r == ((x & 3) << 6u8) && r as int == (x as int % 4) * 64)
        by (bit_vector)
        requires
            r == ((x & 3u8) << 6u8),
    ;
    r
}

/// Encode a value into the ICS C2 bus divider field (bits 5 to 7).
pub fn ics_c2_bdiv(x: u8) -> (r: u8)
    ensures
        r == ((x & 7) << 5u8),
        r as int == (x as int % 8) * 32,
{
    let r = (x & 0b111) << 5;
    assert(r == ((x & 7) << 5u8) && r as int == (x as int % 8) * 32)
        by (bit_vector)
        requires
            r == ((x & 7u8) << 5u8),
    ;
    r
}

} // verus!
