//! Commands as the host sends them: the bytes that the command parser on
//! the board turns back into the same command.
use vstd::prelude::*;
use crate::serial_core::{Command, ParseState, decimal_value, idle_command, is_digit, is_letter, parse_run};
use crate::serial::{decimal_bytes, decimal_digits, digit_char, push_all, signed_decimal};

verus! {

/// The bytes that assign `value` to the variable named by `var`: `>`, the
/// letter, the decimal digits of `value` and `,`.
pub open spec fn assignment_bytes(var: u8, digits: Seq<u8>) -> Seq<u8> {
    seq![62u8, var] + digits + seq![44u8]
}

/// The letter that stands for a single-letter command.
pub open spec fn command_letter(cmd: Command) -> u8 {
    match cmd {
        Command::ToggleDir => 100u8,
        Command::Kill => 107u8,
        Command::ToggleDebug => 112u8,
        Command::StartMove => 114u8,
        Command::StartSpeed => 115u8,
        Command::Stop => 116u8,
        Command::Reset => 122u8,
        Command::Unknown(b) => b,
        Command::Assign { var, .. } => var,
    }
}

/// The bytes the host sends for `cmd`.
pub open spec fn command_bytes(cmd: Command) -> Seq<u8> {
    match cmd {
        Command::Assign { var, value } => assignment_bytes(var, decimal_digits(value as nat)),
        _ => seq![command_letter(cmd)],
    }
}

/// The parser can give `cmd` back: an assignment names a letter, and a
/// byte without a meaning is not one of the bytes the parser treats
/// specially.
pub open spec fn round_trips(cmd: Command) -> bool {
    match cmd {
        Command::Assign { var, .. } => is_letter(var),
        Command::Unknown(b) => idle_command(b) == Some(Command::Unknown(b)),
        _ => true,
    }
}

/// Builds the bytes that assign `value` to the variable named by `var`.
pub fn assign_command(var: u8, value: u64) -> (r: Vec<u8>)
    ensures
        r@ == assignment_bytes(var, decimal_digits(value as nat)),
{
    let mut out: Vec<u8> = Vec::new();
    out.push(62u8);
    out.push(var);
    let digits = decimal_bytes(value);
    push_all(&mut out, digits.as_slice());
    out.push(44u8);
    assert(out@ =~= assignment_bytes(var, decimal_digits(value as nat)));
    out
}

/// Builds the bytes that assign a signed `value` to the variable named by
/// `var`, with a `-` before the digits of a negative value.
pub fn assign_command_signed(var: u8, value: i64) -> (r: Vec<u8>)
    ensures
        r@ == assignment_bytes(var, signed_decimal(value as int)),
{
    let mut out: Vec<u8> = Vec::new();
    out.push(62u8);
    out.push(var);
    let magnitude: u64 = if value < 0 {
        out.push(45u8);
        if value == i64::MIN {
            9_223_372_036_854_775_808u64
        } else {
            (-value) as u64
        }
    } else {
        value as u64
    };
    let digits = decimal_bytes(magnitude);
    push_all(&mut out, digits.as_slice());
    out.push(44u8);
    assert(out@ =~= assignment_bytes(var, signed_decimal(value as int)));
    out
}

/// Builds the bytes the host sends for `cmd`.
pub fn encode_command(cmd: Command) -> (r: Vec<u8>)
    ensures
        r@ == command_bytes(cmd),
{
    match cmd {
        Command::Assign { var, value } => assign_command(var, value),
        _ => {
            let b: u8 = match cmd {
                Command::ToggleDir => 100u8,
                Command::Kill => 107u8,
                Command::ToggleDebug => 112u8,
                Command::StartMove => 114u8,
                Command::StartSpeed => 115u8,
                Command::Stop => 116u8,
                Command::Reset => 122u8,
                Command::Unknown(b) => b,
                Command::Assign { var, .. } => var,
            };
            let mut out: Vec<u8> = Vec::new();
            out.push(b);
            assert(out@ =~= seq![command_letter(cmd)]);
            out
        },
    }
}

/// The decimal digits of a number are digits, and read back as the number.
proof fn lemma_decimal_digits_value(n: nat)
    ensures
        forall|i: int| 0 <= i < decimal_digits(n).len() ==> is_digit(#[trigger] decimal_digits(n)[i]),
        decimal_value(decimal_digits(n)) == n,
    decreases n,
{
    if n < 10 {
        let s = decimal_digits(n);
        assert(s =~= seq![digit_char(n)]);
        assert(s.drop_last() =~= Seq::<u8>::empty());
        assert(decimal_value(s.drop_last()) == 0);
        assert(s.last() == 48 + n);
    } else {
        lemma_decimal_digits_value(n / 10);
        let init = decimal_digits(n / 10);
        let s = decimal_digits(n);
        assert(s == init.push(digit_char(n % 10)));
        assert(s.drop_last() =~= init);
        assert(forall|i: int| 0 <= i < init.len() ==> s[i] == init[i]);
        assert(s.last() == 48 + n % 10);
        assert(decimal_value(s) == decimal_value(init) * 10 + (s.last() - 48));
        assert((n / 10) * 10 + n % 10 == n);
    }
}

/// What the host sends, the board decodes. From the idle state, the parser
/// takes the bytes the host builds for a command back to the idle state and
/// completes that same command, for every command the parser can give back.
pub proof fn lemma_host_command_round_trip(cmd: Command)
    requires
        round_trips(cmd),
    ensures
        parse_run(ParseState::Idle, command_bytes(cmd)) == (ParseState::Idle, Some(cmd)),
{
    match cmd {
        Command::Assign { var, value } => {
            let ds = decimal_digits(value as nat);
            lemma_decimal_digits_value(value as nat);
            crate::serial_core::lemma_assignment_decodes(var, ds);
            assert(command_bytes(cmd) == seq![62u8, var] + ds + seq![44u8]);
            assert(decimal_value(ds) as u64 == value);
        },
        _ => {
            let s = command_bytes(cmd);
            assert(s.drop_last() =~= Seq::<u8>::empty());
            assert(parse_run(ParseState::Idle, Seq::<u8>::empty()) == (ParseState::Idle, None::<Command>));
            assert(s.last() == command_letter(cmd));
        },
    }
}

} // verus!
