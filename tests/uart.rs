use ke06z::bus::{Access, RegisterFile};
use ke06z::registers::{RegId, SimReg, UartReg, UART_C2_RE, UART_C2_TE, UART_S1_RDRF, UART_S1_TDRE};
use ke06z::uart::{baud_divisor, rx_ready, NewlineMode, Uart, UartClaims, UartId, CLOCK_SPEED, MAX_BAUD_DIVISOR, MIN_BAUD};

fn data_bytes(prog: &[Access]) -> Vec<u8> {
    prog.iter()
        .filter_map(|a| match a {
            Access::Write { reg: RegId::Uart(_, UartReg::Data), value } => Some(*value as u8),
            _ => None,
        })
        .collect()
}

#[test]
fn divisor_for_9600_baud() {
    assert_eq!(baud_divisor(20_000_000, 9600), 130);
    let u = Uart::new(UartId::Uart0, 9600, NewlineMode::Binary);
    assert_eq!(u.divisor(), 130);
    let prog = u.configure();
    assert!(prog.contains(&Access::Write { reg: RegId::Uart(UartId::Uart0, UartReg::Bdh), value: 0 }));
    assert!(prog.contains(&Access::Write { reg: RegId::Uart(UartId::Uart0, UartReg::Bdl), value: 130 }));
}

#[test]
fn divisor_rounds_half_up() {
    assert_eq!(baud_divisor(16 * 10 + 8, 1), 11);
    assert_eq!(baud_divisor(16 * 10 + 7, 1), 10);
    assert_eq!(baud_divisor(CLOCK_SPEED, 115_200), 11);
    assert_eq!(baud_divisor(CLOCK_SPEED, 300), 4167);
    assert_eq!(baud_divisor(u32::MAX, 1), 268_435_456);
}

#[test]
fn divisor_split_across_baud_registers() {
    let u = Uart::new(UartId::Uart1, 300, NewlineMode::Binary);
    let mut f = RegisterFile::new();
    assert_eq!(f.run(&u.configure()), Ok(()));
    assert_eq!(f.peek(RegId::Uart(UartId::Uart1, UartReg::Bdh)), 4167 >> 8);
    assert_eq!(f.peek(RegId::Uart(UartId::Uart1, UartReg::Bdl)), 4167 & 0xFF);
}

#[test]
fn configure_gates_clock_first() {
    let u = Uart::new(UartId::Uart2, 19_200, NewlineMode::SwapLFtoCRLF);
    let prog = u.configure();
    assert_eq!(prog.len(), 6);
    assert_eq!(prog[0], Access::Modify { reg: RegId::Sim(SimReg::Scgc), clear: 0, set: 1 << 22 });
    let mut f = RegisterFile::new();
    f.write(RegId::Uart(UartId::Uart2, UartReg::C1), 0xFF);
    assert_eq!(f.run(&prog), Ok(()));
    assert_eq!(f.peek(RegId::Sim(SimReg::Scgc)), 1 << 22);
    assert_eq!(f.peek(RegId::Uart(UartId::Uart2, UartReg::C1)), 0);
    assert_eq!(
        f.peek(RegId::Uart(UartId::Uart2, UartReg::C2)),
        (UART_C2_TE | UART_C2_RE) as u32
    );
}

#[test]
fn putc_waits_for_empty_data_register() {
    let u = Uart::new(UartId::Uart0, 9600, NewlineMode::Binary);
    let prog = u.putc(0x55);
    let mut f = RegisterFile::new();
    assert_eq!(f.run(&prog), Err(0));
    f.poke(RegId::Uart(UartId::Uart0, UartReg::S1), UART_S1_TDRE as u32);
    assert_eq!(f.run(&prog), Ok(()));
    assert_eq!(f.peek(RegId::Uart(UartId::Uart0, UartReg::Data)), 0x55);
}

#[test]
fn crlf_mode_inserts_carriage_return() {
    let u = Uart::new(UartId::Uart0, 9600, NewlineMode::SwapLFtoCRLF);
    assert_eq!(u.encode(b"ab\ncd\n"), b"ab\r\ncd\r\n".to_vec());
    let prog = u.write_str("hi\nthere");
    assert_eq!(data_bytes(&prog), b"hi\r\nthere".to_vec());
    assert_eq!(prog.len(), 2 * 9);
}

#[test]
fn binary_mode_passes_bytes_through() {
    let u = Uart::new(UartId::Uart0, 9600, NewlineMode::Binary);
    assert_eq!(u.encode(b"ab\ncd\n"), b"ab\ncd\n".to_vec());
    let prog = u.write_str("hi\nthere");
    assert_eq!(data_bytes(&prog), b"hi\nthere".to_vec());
    assert_eq!(u.write_str("").len(), 0);
}

#[test]
fn write_str_waits_before_every_byte() {
    let u = Uart::new(UartId::Uart1, 9600, NewlineMode::SwapLFtoCRLF);
    let prog = u.write_str("\n");
    let s1 = RegId::Uart(UartId::Uart1, UartReg::S1);
    let data = RegId::Uart(UartId::Uart1, UartReg::Data);
    assert_eq!(
        prog,
        vec![
            Access::WaitAllSet { reg: s1, mask: UART_S1_TDRE as u32 },
            Access::Write { reg: data, value: 0x0D },
            Access::WaitAllSet { reg: s1, mask: UART_S1_TDRE as u32 },
            Access::Write { reg: data, value: 0x0A },
        ]
    );
}

#[test]
fn getc_try_without_data() {
    let u = Uart::new(UartId::Uart0, 9600, NewlineMode::Binary);
    let mut f = RegisterFile::new();
    f.poke(RegId::Uart(UartId::Uart0, UartReg::Data), 0x41);
    f.poke(RegId::Uart(UartId::Uart0, UartReg::S1), UART_S1_TDRE as u32);
    assert_eq!(u.getc_try(&mut f), Err(()));
    assert_eq!(f.peek(RegId::Uart(UartId::Uart0, UartReg::S1)), UART_S1_TDRE as u32);
}

#[test]
fn getc_try_returns_staged_byte() {
    let u = Uart::new(UartId::Uart2, 9600, NewlineMode::Binary);
    let s1 = RegId::Uart(UartId::Uart2, UartReg::S1);
    let mut f = RegisterFile::new();
    f.poke(RegId::Uart(UartId::Uart2, UartReg::Data), 0x7E);
    f.poke(s1, (UART_S1_RDRF | UART_S1_TDRE) as u32);
    assert_eq!(f.read(s1), (UART_S1_RDRF | UART_S1_TDRE) as u32);
    assert_eq!(f.peek(s1), (UART_S1_RDRF | UART_S1_TDRE) as u32);
    assert_eq!(u.getc_try(&mut f), Ok(0x7E));
    assert_eq!(f.peek(s1), UART_S1_TDRE as u32);
    assert_eq!(u.getc_try(&mut f), Err(()));
}

#[test]
fn receive_flag_decoding() {
    assert!(rx_ready(UART_S1_RDRF as u32));
    assert!(rx_ready(0xFF));
    assert!(!rx_ready(0xDF));
    assert!(!rx_ready(0));
}

#[test]
fn second_handle_on_an_instance_is_refused() {
    let mut claims = UartClaims::new();
    assert!(!claims.is_taken(UartId::Uart1));
    let first = claims.claim(UartId::Uart1, 9600, NewlineMode::Binary);
    assert!(first.is_some());
    assert_eq!(first.unwrap().divisor(), 130);
    assert!(claims.is_taken(UartId::Uart1));
    assert!(claims.claim(UartId::Uart1, 115_200, NewlineMode::Binary).is_none());
    assert!(!claims.is_taken(UartId::Uart0));
    let other = claims.claim(UartId::Uart0, 115_200, NewlineMode::SwapLFtoCRLF).unwrap();
    assert_eq!(other.id(), UartId::Uart0);
    assert_eq!(other.nl_mode(), NewlineMode::SwapLFtoCRLF);
    assert!(!claims.is_taken(UartId::Uart2));
}

#[test]
fn lowest_baud_rate_fits_divisor_field() {
    assert_eq!(baud_divisor(CLOCK_SPEED, MIN_BAUD), 8170);
    assert!(baud_divisor(CLOCK_SPEED, MIN_BAUD) <= MAX_BAUD_DIVISOR);
    assert_eq!(baud_divisor(CLOCK_SPEED, MIN_BAUD - 1), 8224);
    let u = Uart::new(UartId::Uart0, MIN_BAUD, NewlineMode::Binary);
    let mut f = RegisterFile::new();
    assert_eq!(f.run(&u.configure()), Ok(()));
    assert_eq!(f.peek(RegId::Uart(UartId::Uart0, UartReg::Bdh)), 8170 >> 8);
    assert_eq!(f.peek(RegId::Uart(UartId::Uart0, UartReg::Bdl)), 8170 & 0xFF);
}

#[test]
fn divisor_matches_half_baud_formula() {
    for baud in [153u32, 300, 1200, 2400, 4801, 9600, 19_200, 38_400, 57_601, 115_200, 1_000_003] {
        assert_eq!(baud_divisor(CLOCK_SPEED, baud), (CLOCK_SPEED / 16 + baud / 2) / baud);
    }
}
