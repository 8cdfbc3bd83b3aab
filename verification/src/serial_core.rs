//! Byte-at-a-time parser for the serial command protocol.
//!
//! Single letters are commands (`d` toggle direction, `k` kill, `p` toggle
//! debug output, `r` start move, `s` start speed, `t` stop, `z` zero the
//! encoder). `>` followed by a letter, decimal digits and `,` assigns the
//! number to the variable named by the letter.
use vstd::prelude::*;

verus! {

/// A decoded command.
#[derive(Debug, Clone, Copy, PartialEq, Eq, Structural)]
pub enum Command {
    ToggleDir,
    Kill,
    ToggleDebug,
    StartMove,
    StartSpeed,
    Stop,
    Reset,
    Assign { var: u8, value: u64 },
    Unknown(u8),
}

/// Where the parser stands within an assignment.
#[derive(Debug, Clone, Copy, PartialEq, Eq, Structural)]
pub enum ParseState {
    Idle,
    WaitVar,
    ReadNumber { var: u8, value: u64 },
}

/// Host-side access to a UART.
pub trait UartHardware {
    fn put_str(&self, s: &str);

    fn init(&self);

    fn clear_rx_buffer(&self);
}

/// Terminal control sequences.
pub enum TermCmd {
    ClearScreen,
    Home,
}

/// An ASCII letter.
pub open spec fn is_letter(b: u8) -> bool {
    (97 <= b && b <= 122) || (65 <= b && b <= 90)
}

/// An ASCII decimal digit.
pub open spec fn is_digit(b: u8) -> bool {
    48 <= b && b <= 57
}

/// The command a single byte stands for when the parser is idle.
pub open spec fn idle_command(b: u8) -> Option<Command> {
    if b == 100 || b == 68 {
        Some(Command::ToggleDir)
    } else if b == 107 || b == 75 {
        Some(Command::Kill)
    } else if b == 112 {
        Some(Command::ToggleDebug)
    } else if b == 114 || b == 82 {
        Some(Command::StartMove)
    } else if b == 115 || b == 83 {
        Some(Command::StartSpeed)
    } else if b == 116 || b == 84 {
        Some(Command::Stop)
    } else if b == 122 || b == 90 {
        Some(Command::Reset)
    } else if b == 62 || b == 0 {
        None
    } else {
        Some(Command::Unknown(b))
    }
}

/// The transition of the parser on one byte: the next state and the command
/// completed by this byte, if any.
pub open spec fn parse_step(s: ParseState, b: u8) -> (ParseState, Option<Command>) {
    match s {
        ParseState::Idle => {
            if b == 62 {
                (ParseState::WaitVar, None)
            } else {
                (ParseState::Idle, idle_command(b))
            }
        },
        ParseState::WaitVar => {
            if is_letter(b) {
                (ParseState::ReadNumber { var: b, value: 0 }, None)
            } else {
                (ParseState::Idle, None)
            }
        },
        ParseState::ReadNumber { var, value } => {
            if is_digit(b) {
                (ParseState::ReadNumber { var, value: (value * 10 + (b - 48)) as u64 }, None)
            } else if b == 44 {
                (ParseState::Idle, Some(Command::Assign { var, value }))
            } else {
                (ParseState::Idle, None)
            }
        },
    }
}

/// The byte can be taken in state `s` without the number overflowing `u64`.
pub open spec fn step_fits(s: ParseState, b: u8) -> bool {
    match s {
        ParseState::ReadNumber { var, value } => is_digit(b) ==> value * 10 + (b - 48) <= u64::MAX,
        _ => true,
    }
}

/// The state after feeding `bytes` from state `s`, and the command completed
/// by the last byte.
pub open spec fn parse_run(s: ParseState, bytes: Seq<u8>) -> (ParseState, Option<Command>)
    decreases bytes.len(),
{
    if bytes.len() == 0 {
        (s, None)
    } else {
        parse_step(parse_run(s, bytes.drop_last()).0, bytes.last())
    }
}

/// The number written by a string of decimal digits.
pub open spec fn decimal_value(ds: Seq<u8>) -> int
    decreases ds.len(),
{
    if ds.len() == 0 {
        0
    } else {
        decimal_value(ds.drop_last()) * 10 + (ds.last() - 48)
    }
}

/// The parser for the serial command protocol.
pub struct SerialParser {
    pub state: ParseState,
}

impl SerialParser {
    /// An idle parser.
    pub fn new() -> (p: Self)
        ensures
            p.state == ParseState::Idle,
    {
        Self { state: ParseState::Idle }
    }

    /// Feeds one byte; returns the command it completes, if any.
    pub fn parse_byte(&mut self, b: u8) -> (c: Option<Command>)
        requires
            step_fits(old(self).state, b),
        ensures
            (final(self).state, c) == parse_step(old(self).state, b),
    {
        match self.state {
            ParseState::Idle => {
                if b == 100u8 || b == 68u8 {
                    return Some(Command::ToggleDir);
                } else if b == 107u8 || b == 75u8 {
                    return Some(Command::Kill);
                } else if b == 112u8 {
                    return Some(Command::ToggleDebug);
                } else if b == 114u8 || b == 82u8 {
                    return Some(Command::StartMove);
                } else if b == 115u8 || b == 83u8 {
                    return Some(Command::StartSpeed);
                } else if b == 116u8 || b == 84u8 {
                    return Some(Command::Stop);
                } else if b == 122u8 || b == 90u8 {
                    return Some(Command::Reset);
                } else if b == 62u8 {
                    self.state = ParseState::WaitVar;
                } else if b == 0 {
                } else {
                    return Some(Command::Unknown(b));
                }
            },
            ParseState::WaitVar => {
                if (b >= 97u8 && b <= 122u8) || (b >= 65u8 && b <= 90u8) {
                    self.state = ParseState::ReadNumber { var: b, value: 0 };
                } else {
                    self.state = ParseState::Idle;
                }
            },
            ParseState::ReadNumber { var, value } => {
                if b >= 48u8 && b <= 57u8 {
                    let value = value * 10 + (b - 48u8) as u64;
                    self.state = ParseState::ReadNumber { var, value };
                } else if b == 44u8 {
                    self.state = ParseState::Idle;
                    return Some(Command::Assign { var, value });
                } else {
                    self.state = ParseState::Idle;
                }
            },
        }
        None
    }
}

/// A string of digits has a value no smaller than any of its prefixes.
proof fn lemma_decimal_prefix_le(ds: Seq<u8>, k: int)
    requires
        0 <= k <= ds.len(),
        forall|i: int| 0 <= i < ds.len() ==> is_digit(#[trigger] ds[i]),
    ensures
        decimal_value(ds.subrange(0, k)) <= decimal_value(ds),
    decreases ds.len() - k,
{
    if k < ds.len() {
        lemma_decimal_prefix_le(ds, k + 1);
        let p = ds.subrange(0, k + 1);
        assert(p.drop_last() =~= ds.subrange(0, k));
        assert(decimal_value(p) == decimal_value(p.drop_last()) * 10 + (p.last() - 48));
        assert(decimal_value(p.drop_last()) >= 0) by {
            lemma_decimal_nonneg(p.drop_last());
        }
    } else {
        assert(ds.subrange(0, k) =~= ds);
    }
}

/// The value of a string of digits is not negative.
proof fn lemma_decimal_nonneg(ds: Seq<u8>)
    requires
        forall|i: int| 0 <= i < ds.len() ==> is_digit(#[trigger] ds[i]),
    ensures
        decimal_value(ds) >= 0,
    decreases ds.len(),
{
    if ds.len() > 0 {
        lemma_decimal_nonneg(ds.drop_last());
    }
}

/// After `>`, a letter and some digits, the parser is reading the number
/// with the digits' value so far.
proof fn lemma_reading_digits(v: u8, ds: Seq<u8>)
    requires
        is_letter(v),
        forall|i: int| 0 <= i < ds.len() ==> is_digit(#[trigger] ds[i]),
        decimal_value(ds) <= u64::MAX,
    ensures
        parse_run(ParseState::Idle, seq![62u8, v] + ds).0 == (ParseState::ReadNumber {
            var: v,
            value: decimal_value(ds) as u64,
        }),
    decreases ds.len(),
{
    let pre = seq![62u8, v];
    if ds.len() == 0 {
        assert(pre + ds =~= pre);
        assert(pre.drop_last() =~= seq![62u8]);
        assert(seq![62u8].drop_last() =~= Seq::<u8>::empty());
        assert(parse_run(ParseState::Idle, Seq::<u8>::empty()) == (
            ParseState::Idle,
            None::<Command>,
        ));
        assert(seq![62u8].last() == 62u8);
        assert(parse_run(ParseState::Idle, seq![62u8]) == (ParseState::WaitVar, None::<Command>));
        assert(pre.last() == v);
        assert(parse_run(ParseState::Idle, pre).0 == (ParseState::ReadNumber { var: v, value: 0 }));
    } else {
        let init = ds.drop_last();
        assert((pre + ds).drop_last() =~= pre + init);
        assert((pre + ds).last() == ds.last());
        lemma_decimal_nonneg(init);
        lemma_decimal_prefix_le(ds, ds.len() - 1);
        assert(ds.subrange(0, ds.len() - 1) =~= init);
        lemma_reading_digits(v, init);
        assert(is_digit(ds.last()));
        assert(decimal_value(ds) == decimal_value(init) * 10 + (ds.last() - 48));
    }
}

/// An assignment is decoded with the decimal value of its digits. From
/// the idle state, the bytes `>`, a letter, any digits whose value fits in
/// `u64`, and `,` bring the parser back to idle and complete the command
/// `Assign { var: letter, value }`.
pub proof fn lemma_assignment_decodes(v: u8, ds: Seq<u8>)
    requires
        is_letter(v),
        forall|i: int| 0 <= i < ds.len() ==> is_digit(#[trigger] ds[i]),
        decimal_value(ds) <= u64::MAX,
    ensures
        parse_run(ParseState::Idle, seq![62u8, v] + ds + seq![44u8]) == (
            ParseState::Idle,
            Some(Command::Assign { var: v, value: decimal_value(ds) as u64 }),
        ),
{
    lemma_reading_digits(v, ds);
    let all = seq![62u8, v] + ds + seq![44u8];
    assert(all.drop_last() =~= seq![62u8, v] + ds);
    assert(all.last() == 44u8);
}

/// Each byte fed by `parse_byte` advances the run of the parser over
/// the bytes seen so far by exactly one step.
pub proof fn lemma_run_extends(s: ParseState, bytes: Seq<u8>, b: u8)
    ensures
        parse_run(s, bytes.push(b)) == parse_step(parse_run(s, bytes).0, b),
{
    assert(bytes.push(b).drop_last() =~= bytes);
}

} // verus!
