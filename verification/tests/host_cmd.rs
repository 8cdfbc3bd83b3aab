use rust_core::host_cmd::{assign_command, assign_command_signed, encode_command};
use rust_core::serial_core::{Command, SerialParser};

fn decode(bytes: &[u8]) -> Vec<Command> {
    let mut p = SerialParser::new();
    let mut out = Vec::new();
    for &b in bytes {
        if let Some(c) = p.parse_byte(b) {
            out.push(c);
        }
    }
    out
}

#[test]
fn assignment_bytes_are_decimal() {
    assert_eq!(assign_command(b'w', 32_768_000), b">w32768000,".to_vec());
    assert_eq!(assign_command(b'm', 0), b">m0,".to_vec());
    assert_eq!(assign_command(b'p', u64::MAX), b">p18446744073709551615,".to_vec());
}

#[test]
fn signed_assignment_bytes() {
    assert_eq!(assign_command_signed(b'q', 250), b">q250,".to_vec());
    assert_eq!(assign_command_signed(b'q', -5), b">q-5,".to_vec());
    assert_eq!(
        assign_command_signed(b'q', i64::MIN),
        b">q-9223372036854775808,".to_vec()
    );
}

#[test]
fn single_letter_encoding() {
    assert_eq!(encode_command(Command::StartMove), b"r".to_vec());
    assert_eq!(encode_command(Command::StartSpeed), b"s".to_vec());
    assert_eq!(encode_command(Command::Stop), b"t".to_vec());
    assert_eq!(encode_command(Command::Kill), b"k".to_vec());
    assert_eq!(encode_command(Command::Reset), b"z".to_vec());
    assert_eq!(encode_command(Command::ToggleDir), b"d".to_vec());
    assert_eq!(encode_command(Command::ToggleDebug), b"p".to_vec());
    assert_eq!(encode_command(Command::Unknown(b'x')), b"x".to_vec());
}

#[test]
fn board_decodes_what_the_host_sends() {
    let cmds = [
        Command::ToggleDir,
        Command::Kill,
        Command::ToggleDebug,
        Command::StartMove,
        Command::StartSpeed,
        Command::Stop,
        Command::Reset,
        Command::Unknown(b'x'),
        Command::Assign { var: b'w', value: 65_536_000 },
        Command::Assign { var: b'a', value: 0 },
        Command::Assign { var: b'Q', value: u64::MAX },
    ];
    for c in cmds {
        assert_eq!(decode(&encode_command(c)), vec![c]);
    }
}

#[test]
fn negative_assignment_is_not_decoded() {
    // `-` is no digit: the parser drops the assignment and reads the rest
    // as single bytes.
    assert_eq!(
        decode(&assign_command_signed(b'q', -5)),
        vec![Command::Unknown(b'5'), Command::Unknown(b',')]
    );
}
