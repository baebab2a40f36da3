//! Polled UART driver, 8 data bits, no parity, 1 stop bit.
//!
//! Configuration and transmission are register access programs; transmission
//! waits for the data register to empty before each byte. Reception is a
//! non-blocking poll of the receive-ready flag.

use vstd::prelude::*;
use vstd::string::StringSliceAdditionalSpecFns;
use vstd::arithmetic::div_mod::{lemma_fundamental_div_mod, lemma_fundamental_div_mod_converse, lemma_mod_pos_bound};
use crate::bus::{after_read, read_value, Access, RegisterFile};
use crate::registers::{slot_of, RegId, UartReg, UART_C2_RE, UART_C2_TE, UART_S1_RDRF, UART_S1_TDRE};
use crate::sim::{gating_access, power_enable, ClockGatingPeripheral};

verus! {

/// The UART instances of the chip.
#[derive(Clone, Copy, PartialEq, Eq, Structural, Debug)]
pub enum UartId {
    Uart0,
    Uart1,
    Uart2,
}

/// Newline handling on transmission.
#[derive(Clone, Copy, PartialEq, Eq, Structural, Debug)]
pub enum NewlineMode {
    /// Emit bytes as given.
    Binary,
    /// Emit a carriage return before every line feed.
    SwapLFtoCRLF,
}

/// The system clock the UARTs run from, in Hz.
pub const CLOCK_SPEED: u32 = 20_000_000;

/// Largest divisor the 13-bit baud rate field holds.
pub const MAX_BAUD_DIVISOR: u32 = 8191;

/// Lowest baud rate whose divisor at [`CLOCK_SPEED`] fits the baud rate field.
pub const MIN_BAUD: u32 = 153;

/// A handle on one UART instance. At most one handle per instance should exist.
pub struct Uart {
    id: UartId,
    nl_mode: NewlineMode,
    divisor: u32,
}

/// The baud rate divisor: `clock / 16 / baud`, rounded half up.
pub open spec fn divisor_for(clock: nat, baud: nat) -> nat
    recommends
        baud > 0,
{
    (clock + 8 * baud) / (16 * baud)
}

/// The clock gating tag of a UART instance.
pub open spec fn gate_of(id: UartId) -> ClockGatingPeripheral {
    match id {
        UartId::Uart0 => ClockGatingPeripheral::Uart0,
        UartId::Uart1 => ClockGatingPeripheral::Uart1,
        UartId::Uart2 => ClockGatingPeripheral::Uart2,
    }
}

/// The bytes emitted for one byte in a newline mode.
pub open spec fn encode_byte(mode: NewlineMode, b: u8) -> Seq<u8> {
    if mode == NewlineMode::SwapLFtoCRLF && b == 0x0A {
        seq![0x0Du8, 0x0Au8]
    } else {
        seq![b]
    }
}

/// The bytes emitted for `s` in a newline mode.
pub open spec fn encoded(mode: NewlineMode, s: Seq<u8>) -> Seq<u8>
    decreases s.len(),
{
    if s.len() == 0 {
        seq![]
    } else {
        encoded(mode, s.drop_last()) + encode_byte(mode, s.last())
    }
}

/// The steps that send one byte: wait for the data register to empty, then store the byte.
pub open spec fn putc_program(id: UartId, b: u8) -> Seq<Access> {
    seq![
        Access::WaitAllSet { reg: RegId::Uart(id, UartReg::S1), mask: UART_S1_TDRE as u32 },
        Access::Write { reg: RegId::Uart(id, UartReg::Data), value: b as u32 },
    ]
}

/// The steps that send the bytes of `s` one after the other.
pub open spec fn send_program(id: UartId, s: Seq<u8>) -> Seq<Access>
    decreases s.len(),
{
    if s.len() == 0 {
        seq![]
    } else {
        send_program(id, s.drop_last()) + putc_program(id, s.last())
    }
}

/// The steps that bring a UART up: gate its clock on, stop the transmitter and
/// receiver, select 8/N/1, program the divisor, and start both again.
pub open spec fn configure_program(id: UartId, divisor: u32) -> Seq<Access> {
    let both = (UART_C2_TE | UART_C2_RE) as u32;
    seq![
        gating_access(gate_of(id), true),
        Access::Modify { reg: RegId::Uart(id, UartReg::C2), clear: both, set: 0 },
        Access::Write { reg: RegId::Uart(id, UartReg::C1), value: 0 },
        Access::Write { reg: RegId::Uart(id, UartReg::Bdh), value: divisor >> 8 },
        Access::Write { reg: RegId::Uart(id, UartReg::Bdl), value: divisor & 0xFF },
        Access::Modify { reg: RegId::Uart(id, UartReg::C2), clear: 0, set: both },
    ]
}

/// The baud rate divisor for a clock and a baud rate: `clock / 16 / baud`,
/// rounded half up.
pub fn baud_divisor(clock: u32, baud: u32) -> (d: u32)
    requires
        baud > 0,
    ensures
        d as nat == divisor_for(clock as nat, baud as nat),
{
    let num: u64 = clock as u64 + 8 * (baud as u64);
    let den: u64 = 16 * (baud as u64);
    let d = num / den;
    assert(d <= num / 16) by (nonlinear_arith)
        requires
            d == num / den,
            den >= 16,
    ;
    d as u32
}

/// Whether a status register value reports received data.
pub fn rx_ready(status: u32) -> (r: bool)
    ensures
        r == (status & (UART_S1_RDRF as u32) != 0),
{
    status & (UART_S1_RDRF as u32) != 0
}

impl Uart {
    pub closed spec fn spec_id(&self) -> UartId {
        self.id
    }

    pub closed spec fn spec_nl_mode(&self) -> NewlineMode {
        self.nl_mode
    }

    pub closed spec fn spec_divisor(&self) -> u32 {
        self.divisor
    }

    /// A handle on UART `id` at `baud` from [`CLOCK_SPEED`], with newline
    /// handling `nl_mode`. The caller makes sure that only one handle exists
    /// for each instance.
    pub fn new(id: UartId, baud: u32, nl_mode: NewlineMode) -> (u: Uart)
        requires
            MIN_BAUD <= baud,
        ensures
            u.spec_id() == id,
            u.spec_nl_mode() == nl_mode,
            u.spec_divisor() as nat == divisor_for(CLOCK_SPEED as nat, baud as nat),
            u.spec_divisor() <= MAX_BAUD_DIVISOR,
    {
        proof {
            lemma_min_baud(baud as nat);
        }
        Uart { id, nl_mode, divisor: baud_divisor(CLOCK_SPEED, baud) }
    }

    pub fn id(&self) -> (r: UartId)
        ensures
            r == self.spec_id(),
    {
        self.id
    }

    pub fn nl_mode(&self) -> (r: NewlineMode)
        ensures
            r == self.spec_nl_mode(),
    {
        self.nl_mode
    }

    /// The baud rate divisor this handle programs.
    pub fn divisor(&self) -> (r: u32)
        ensures
            r == self.spec_divisor(),
    {
        self.divisor
    }

    /// The program that brings this UART up. Its first step gates the UART's
    /// clock on; every later step touches the UART's own registers.
    pub fn configure(&self) -> (p: Vec<Access>)
        ensures
            p@ == configure_program(self.spec_id(), self.spec_divisor()),
    {
        let id = self.id;
        let both = (UART_C2_TE | UART_C2_RE) as u32;
        let gate = match id {
            UartId::Uart0 => ClockGatingPeripheral::Uart0,
            UartId::Uart1 => ClockGatingPeripheral::Uart1,
            UartId::Uart2 => ClockGatingPeripheral::Uart2,
        };
        let mut p: Vec<Access> = Vec::new();
        p.push(power_enable(gate));
        p.push(Access::Modify { reg: RegId::Uart(id, UartReg::C2), clear: both, set: 0 });
        p.push(Access::Write { reg: RegId::Uart(id, UartReg::C1), value: 0 });
        p.push(Access::Write { reg: RegId::Uart(id, UartReg::Bdh), value: self.divisor >> 8 });
        p.push(Access::Write { reg: RegId::Uart(id, UartReg::Bdl), value: self.divisor & 0xFF });
        p.push(Access::Modify { reg: RegId::Uart(id, UartReg::C2), clear: 0, set: both });
        assert(p@ =~= configure_program(id, self.divisor));
        p
    }

    /// The program that sends one byte once the data register is empty.
    pub fn putc(&self, value: u8) -> (p: Vec<Access>)
        ensures
            p@ == putc_program(self.spec_id(), value),
    {
        let mut p: Vec<Access> = Vec::new();
        p.push(Access::WaitAllSet { reg: RegId::Uart(self.id, UartReg::S1), mask: UART_S1_TDRE as u32 });
        p.push(Access::Write { reg: RegId::Uart(self.id, UartReg::Data), value: value as u32 });
        assert(p@ =~= putc_program(self.id, value));
        p
    }

    /// Poll for a received byte without waiting: `Err(())` when the receive
    /// flag is clear, which leaves the registers alone; otherwise the byte in
    /// the data register, whose read clears the flag.
    pub fn getc_try(&self, regs: &mut RegisterFile) -> (r: Result<u8, ()>)
        requires
            old(regs).wf(),
        ensures
            final(regs).wf(),
            ({
                let s1 = old(regs)@[slot_of(RegId::Uart(self.spec_id(), UartReg::S1)) as int];
                let data = RegId::Uart(self.spec_id(), UartReg::Data);
                if s1 & (UART_S1_RDRF as u32) == 0 {
                    r == Err::<u8, ()>(()) && final(regs)@ == old(regs)@
                } else {
                    r == Ok::<u8, ()>(read_value(old(regs)@, data) as u8)
                        && final(regs)@ == after_read(old(regs)@, data)
                }
            }),
    {
        let status = regs.read(RegId::Uart(self.id, UartReg::S1));
        if !rx_ready(status) {
            Err(())
        } else {
            let v = regs.read(RegId::Uart(self.id, UartReg::Data));
            Ok(v as u8)
        }
    }

    /// The bytes this UART emits for `bytes`: as given in binary mode, with a
    /// carriage return before every line feed in CRLF mode.
    pub fn encode(&self, bytes: &[u8]) -> (out: Vec<u8>)
        ensures
            out@ == encoded(self.spec_nl_mode(), bytes@),
    {
        let mut out: Vec<u8> = Vec::new();
        let mut i: usize = 0;
        while i < bytes.len()
            invariant
                i <= bytes@.len(),
                out@ == encoded(self.nl_mode, bytes@.subrange(0, i as int)),
            decreases bytes@.len() - i,
        {
            let b = bytes[i];
            if self.nl_mode == NewlineMode::SwapLFtoCRLF && b == 0x0A {
                out.push(0x0D);
            }
            out.push(b);
            assert(bytes@.subrange(0, i + 1).drop_last() =~= bytes@.subrange(0, i as int));
            assert(out@ =~= encoded(self.nl_mode, bytes@.subrange(0, i + 1)));
            i = i + 1;
        }
        assert(bytes@.subrange(0, i as int) =~= bytes@);
        out
    }

    /// The program that sends `s`, translated by the newline mode, one byte at a time.
    pub fn write_str(&self, s: &str) -> (p: Vec<Access>)
        ensures
            p@ == send_program(self.spec_id(), encoded(self.spec_nl_mode(), s.spec_bytes())),
    {
        let out = self.encode(s.as_bytes());
        let mut p: Vec<Access> = Vec::new();
        let mut i: usize = 0;
        while i < out.len()
            invariant
                i <= out@.len(),
                p@ == send_program(self.id, out@.subrange(0, i as int)),
            decreases out@.len() - i,
        {
            p.push(Access::WaitAllSet { reg: RegId::Uart(self.id, UartReg::S1), mask: UART_S1_TDRE as u32 });
            p.push(Access::Write { reg: RegId::Uart(self.id, UartReg::Data), value: out[i] as u32 });
            assert(out@.subrange(0, i + 1).drop_last() =~= out@.subrange(0, i as int));
            assert(p@ =~= send_program(self.id, out@.subrange(0, i + 1)));
            i = i + 1;
        }
        assert(out@.subrange(0, i as int) =~= out@);
        p
    }
}

/// The UART instances that have a handle. A handle is only had through
/// [`UartClaims::claim`], which refuses a second one for the same instance.
pub struct UartClaims {
    uart0: bool,
    uart1: bool,
    uart2: bool,
}

impl UartClaims {
    /// Whether instance `id` has a handle.
    pub closed spec fn taken(&self, id: UartId) -> bool {
        match id {
            UartId::Uart0 => self.uart0,
            UartId::Uart1 => self.uart1,
            UartId::Uart2 => self.uart2,
        }
    }

    /// No instance has a handle.
    pub fn new() -> (c: UartClaims)
        ensures
            forall|id: UartId| !c.taken(id),
    {
        UartClaims { uart0: false, uart1: false, uart2: false }
    }

    pub fn is_taken(&self, id: UartId) -> (r: bool)
        ensures
            r == self.taken(id),
    {
        match id {
            UartId::Uart0 => self.uart0,
            UartId::Uart1 => self.uart1,
            UartId::Uart2 => self.uart2,
        }
    }

    /// A handle on UART `id`, as [`Uart::new`] makes it, unless that instance
    /// already has one: then `None`, and nothing changes.
    pub fn claim(&mut self, id: UartId, baud: u32, nl_mode: NewlineMode) -> (r: Option<Uart>)
        requires
            MIN_BAUD <= baud,
        ensures
            old(self).taken(id) ==> r is None,
            !old(self).taken(id) ==> r is Some && r->Some_0.spec_id() == id
                && r->Some_0.spec_nl_mode() == nl_mode
                && r->Some_0.spec_divisor() as nat == divisor_for(CLOCK_SPEED as nat, baud as nat),
            final(self).taken(id),
            forall|other: UartId| other != id ==> final(self).taken(other) == old(self).taken(other),
    {
        if self.is_taken(id) {
            return None;
        }
        match id {
            UartId::Uart0 => self.uart0 = true,
            UartId::Uart1 => self.uart1 = true,
            UartId::Uart2 => self.uart2 = true,
        }
        Some(Uart::new(id, baud, nl_mode))
    }
}

/// The divisor fits the baud rate field exactly from [`MIN_BAUD`] up.
pub proof fn lemma_min_baud(baud: nat)
    requires
        baud > 0,
    ensures
        divisor_for(CLOCK_SPEED as nat, baud) <= MAX_BAUD_DIVISOR <==> MIN_BAUD <= baud,
{
    let c = CLOCK_SPEED as nat;
    let d = divisor_for(c, baud);
    assert(d * (16 * baud) <= c + 8 * baud < (d + 1) * (16 * baud)) by (nonlinear_arith)
        requires
            d == (c + 8 * baud) / (16 * baud),
            baud > 0,
    ;
    if baud >= 153 {
        assert(d <= 8191) by (nonlinear_arith)
            requires
                d * (16 * baud) <= c + 8 * baud,
                c == 20_000_000,
                baud >= 153,
        ;
    } else {
        assert(d >= 8192) by (nonlinear_arith)
            requires
                c + 8 * baud < (d + 1) * (16 * baud),
                c == 20_000_000,
                baud <= 152,
                baud > 0,
        ;
    }
}

/// For every baud rate, the divisor is the clock divided by 16, plus half the
/// baud rate, over the baud rate, in integer arithmetic: since 16 divides the
/// clock, that is clock / 16 / baud rounded half up. [`Uart::configure`] writes
/// its upper bits to the high baud register and its low byte to the low one.
pub proof fn lemma_divisor_formula(baud: nat)
    requires
        baud > 0,
    ensures
        divisor_for(CLOCK_SPEED as nat, baud) == (CLOCK_SPEED as nat / 16 + baud / 2) / baud,
{
    let n: int = 1_250_000;
    let b = baud as int;
    let x = n + b / 2;
    let q = x / b;
    let r = x % b;
    lemma_fundamental_div_mod(x, b);
    lemma_mod_pos_bound(x, b);
    lemma_fundamental_div_mod(b, 2);
    lemma_mod_pos_bound(b, 2);
    let e = 8 * b - 16 * (b / 2);
    assert(0 <= e <= 8);
    assert(20_000_000 + 8 * b == q * (16 * b) + (16 * r + e)) by (nonlinear_arith)
        requires
            x == b * q + r,
            x == n + b / 2,
            n == 1_250_000,
            e == 8 * b - 16 * (b / 2),
    ;
    lemma_fundamental_div_mod_converse(20_000_000 + 8 * b, 16 * b, q, 16 * r + e);
    assert(CLOCK_SPEED as nat / 16 == 1_250_000);
}

/// Binary mode emits every byte as given.
pub proof fn lemma_binary_unchanged(s: Seq<u8>)
    ensures
        encoded(NewlineMode::Binary, s) == s,
    decreases s.len(),
{
    if s.len() > 0 {
        lemma_binary_unchanged(s.drop_last());
        assert(s.drop_last().push(s.last()) =~= s);
    }
}

} // verus!
