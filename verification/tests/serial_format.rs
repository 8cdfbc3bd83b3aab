use rust_core::serial::{
    term, uart_put_bytes, uart_put_bytes_fast, uart_put_bytes_unbuffered, uart_put_str,
    uart_send_i32, uart_send_i32_decimal, uart_send_i32f32_array, uart_send_i32f32_binary,
    uart_send_i32f32_hex, uart_send_i32f32_scaled, uart_send_i64_decimal, uart_send_u16,
    uart_send_u16_hex, uart_send_u32_decimal, uart_send_u32_decimal_padded, uart_send_u32_hex,
};
use rust_core::serial_core::TermCmd;

fn out_of(f: impl FnOnce(&mut Vec<u8>)) -> Vec<u8> {
    let mut v = Vec::new();
    f(&mut v);
    v
}

#[test]
fn decimal_numbers() {
    assert_eq!(out_of(|o| uart_send_u32_decimal(o, 0)), b"0");
    assert_eq!(out_of(|o| uart_send_u32_decimal(o, 1250)), b"1250");
    assert_eq!(out_of(|o| uart_send_u32_decimal(o, u32::MAX)), b"4294967295");
    assert_eq!(out_of(|o| uart_send_i32_decimal(o, -42)), b"-42");
    assert_eq!(out_of(|o| uart_send_i32_decimal(o, i32::MAX)), b"2147483647");
}

#[test]
fn i64_is_sent_as_two_halves() {
    assert_eq!(out_of(|o| uart_send_i64_decimal(o, 12345)), b"12345");
    assert_eq!(out_of(|o| uart_send_i64_decimal(o, 5)), b"5");
    assert_eq!(out_of(|o| uart_send_i64_decimal(o, -4294967296)), b"-4294967296");
    assert_eq!(out_of(|o| uart_send_i64_decimal(o, -((3i64 << 32) + 7))), b"-12884901895");
    assert_eq!(out_of(|o| uart_send_i64_decimal(o, i64::MIN)), b"-9223372036854775808");
}

#[test]
fn padded_decimal() {
    assert_eq!(out_of(|o| uart_send_u32_decimal_padded(o, 42, 5)), b"00042");
    assert_eq!(out_of(|o| uart_send_u32_decimal_padded(o, 123456, 3)), b"456");
    assert_eq!(out_of(|o| uart_send_u32_decimal_padded(o, 7, 0)), b"");
}

#[test]
fn hex_numbers() {
    assert_eq!(out_of(|o| uart_send_u32_hex(o, 0xBEEF)), b"0x0000BEEF");
    assert_eq!(out_of(|o| uart_send_u16_hex(o, 0xA5)), b"0x00A5");
    assert_eq!(out_of(|o| uart_send_i32f32_hex(o, -1)), b"FFFFFFFF");
    assert_eq!(out_of(|o| uart_send_i32f32_hex(o, 0x1_2345_6789)), b"23456789");
}

#[test]
fn raw_bytes() {
    assert_eq!(out_of(|o| uart_send_u16(o, 0x1234)), vec![0x34, 0x12, b'\r', b'\n']);
    assert_eq!(out_of(|o| uart_send_i32(o, 0x1_41)), vec![0x41, b'\r', b'\n']);
    assert_eq!(out_of(|o| uart_send_i32(o, -1)), vec![0xFF, b'\r', b'\n']);
    assert_eq!(out_of(|o| uart_send_i32f32_binary(o, 0x0102_0304)), vec![4, 3, 2, 1]);
    assert_eq!(
        out_of(|o| uart_send_i32f32_array(o, &[1, -1])),
        vec![1, 0, 0, 0, 0xFF, 0xFF, 0xFF, 0xFF]
    );
}

#[test]
fn scaled_fixed_point() {
    // 1.5 in I32F32 is 150 hundredths
    assert_eq!(out_of(|o| uart_send_i32f32_scaled(o, 3i64 << 31)), b"150");
    // -0.255 rounds toward -inf: -25.5 -> -26
    let bits = -((0.255f64 * 4294967296.0) as i64);
    assert_eq!(out_of(|o| uart_send_i32f32_scaled(o, bits)), b"-26");
}

#[test]
fn strings_are_c_strings() {
    assert_eq!(out_of(|o| uart_put_str(o, "\n\r-PSOC RS\r\n")), b"\n\r-PSOC RS\r\n");
    assert_eq!(out_of(|o| uart_put_bytes(o, b"ab\0cd")), b"ab");
    let long = [b'x'; 100];
    assert_eq!(out_of(|o| uart_put_bytes(o, &long)).len(), 63);
    assert_eq!(out_of(|o| uart_put_bytes_fast(o, b"a\0b")), b"a\0b");
    assert_eq!(out_of(|o| uart_put_bytes_unbuffered(o, b"xyz")), b"xyz");
}

#[test]
fn terminal_sequences() {
    assert_eq!(out_of(|o| term(o, TermCmd::ClearScreen)), b"\x1B[2J\x1B[H");
    assert_eq!(out_of(|o| term(o, TermCmd::Home)), b"\x1B[H");
}
