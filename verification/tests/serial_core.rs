use rust_core::serial_core::{Command, ParseState, SerialParser};

fn feed(p: &mut SerialParser, bytes: &[u8]) -> Vec<Command> {
    let mut out = Vec::new();
    for &b in bytes {
        if let Some(c) = p.parse_byte(b) {
            out.push(c);
        }
    }
    out
}

#[test]
fn single_letter_commands() {
    let mut p = SerialParser::new();
    assert_eq!(
        feed(&mut p, b"dDkKprRsStTzZ"),
        vec![
            Command::ToggleDir,
            Command::ToggleDir,
            Command::Kill,
            Command::Kill,
            Command::ToggleDebug,
            Command::StartMove,
            Command::StartMove,
            Command::StartSpeed,
            Command::StartSpeed,
            Command::Stop,
            Command::Stop,
            Command::Reset,
            Command::Reset,
        ]
    );
    assert_eq!(p.state, ParseState::Idle);
}

#[test]
fn upper_case_p_is_unknown_and_nul_is_ignored() {
    let mut p = SerialParser::new();
    assert_eq!(feed(&mut p, b"P\0x"), vec![Command::Unknown(b'P'), Command::Unknown(b'x')]);
}

#[test]
fn assignment_decodes_decimal_value() {
    let mut p = SerialParser::new();
    assert_eq!(
        feed(&mut p, b">a21626,"),
        vec![Command::Assign { var: b'a', value: 21626 }]
    );
    assert_eq!(p.state, ParseState::Idle);
    assert_eq!(feed(&mut p, b">w,"), vec![Command::Assign { var: b'w', value: 0 }]);
    assert_eq!(
        feed(&mut p, b">Q18446744073709551615,"),
        vec![Command::Assign { var: b'Q', value: u64::MAX }]
    );
}

#[test]
fn assignment_states() {
    let mut p = SerialParser::new();
    assert_eq!(p.parse_byte(b'>'), None);
    assert_eq!(p.state, ParseState::WaitVar);
    assert_eq!(p.parse_byte(b'm'), None);
    assert_eq!(p.state, ParseState::ReadNumber { var: b'm', value: 0 });
    assert_eq!(p.parse_byte(b'4'), None);
    assert_eq!(p.parse_byte(b'2'), None);
    assert_eq!(p.state, ParseState::ReadNumber { var: b'm', value: 42 });
}

#[test]
fn malformed_assignments_are_dropped() {
    let mut p = SerialParser::new();
    // not a letter after '>'
    assert_eq!(feed(&mut p, b">1"), vec![]);
    assert_eq!(p.state, ParseState::Idle);
    // a non-digit inside the number aborts it; the byte is consumed
    assert_eq!(feed(&mut p, b">a12x"), vec![]);
    assert_eq!(p.state, ParseState::Idle);
    assert_eq!(feed(&mut p, b"k"), vec![Command::Kill]);
}
