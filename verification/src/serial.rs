//! Serial output formatting and command dispatch.
//!
//! The formatting functions append to a transmit buffer the bytes the UART
//! sends, one byte per transmitted character; the caller drains the buffer
//! to the hardware. `dispatch_command` applies a decoded command to the
//! axis and the system state machine and returns the acknowledgement to
//! print, if any.
use vstd::prelude::*;
use crate::serial_core::TermCmd;
use vstd::string::StringSliceAdditionalSpecFns;
use crate::serial_core::Command;
use crate::encoder_core::EncoderOps;
use crate::motor::{AdrcMode, Motion, MotorDirection, MotorIo, Stepper, sign_of, signed_target, ADRC_TS};
use crate::adrc::Adrc;
use crate::fixed_point::{i32f32_from_i32, i32f32_mul, i32f32_to_i32};
use crate::encoder_core::Encoder;
use crate::sys::{System_State, System_T};

verus! {

/// The character for a digit value: `0`-`9`, then upper-case `A`-`F`.
pub open spec fn digit_char(d: nat) -> u8 {
    if d < 10 {
        (48 + d) as u8
    } else {
        (55 + d) as u8
    }
}

/// The decimal digits of `n`, most significant first, without leading zeros.
pub open spec fn decimal_digits(n: nat) -> Seq<u8>
    decreases n,
{
    if n < 10 {
        seq![digit_char(n)]
    } else {
        decimal_digits(n / 10).push(digit_char(n % 10))
    }
}

/// The `w` least significant digits of `n` in base `b`, most significant
/// first, padded with zeros.
pub open spec fn padded_digits(n: nat, w: nat, b: nat) -> Seq<u8>
    decreases w,
{
    if w == 0 {
        Seq::empty()
    } else {
        padded_digits(n / b, (w - 1) as nat, b).push(digit_char(n % b))
    }
}

/// `-` followed by the decimal digits of `|v|` for negative `v`, else the
/// decimal digits of `v`.
pub open spec fn signed_decimal(v: int) -> Seq<u8> {
    if v < 0 {
        seq![45u8] + decimal_digits((-v) as nat)
    } else {
        decimal_digits(v as nat)
    }
}

/// The bytes a C string routine sends for `s`: everything before the first
/// NUL.
pub open spec fn before_nul(s: Seq<u8>) -> Seq<u8>
    decreases s.len(),
{
    if s.len() == 0 {
        s
    } else if s[0] == 0 {
        Seq::empty()
    } else {
        seq![s[0]] + before_nul(s.drop_first())
    }
}

/// The most bytes a string transmission sends (a 64-byte buffer with its
/// terminating NUL).
pub const PUT_STRING_MAX: usize = 63;

/// The zero-padded digits of `n` in base `b` in a buffer of width `w`.
fn padded_radix(n: u64, w: usize, b: u64) -> (r: Vec<u8>)
    requires
        b == 10 || b == 16,
        w <= 16,
    ensures
        r@ == padded_digits(n as nat, w as nat, b as nat),
{
    let mut buf: Vec<u8> = Vec::new();
    let mut k: usize = 0;
    while k < w
        invariant
            k <= w,
            buf@.len() == k,
            forall|j: int| 0 <= j < k ==> buf@[j] == 48u8,
        decreases w - k,
    {
        buf.push(48u8);
        k += 1;
    }
    let mut temp = n;
    let mut i = w;
    while i > 0 && temp > 0
        invariant
            i <= w,
            b == 10 || b == 16,
            buf@.len() == w,
            forall|j: int| 0 <= j < i ==> buf@[j] == 48u8,
            padded_digits(n as nat, w as nat, b as nat) == padded_digits(temp as nat, i as nat, b as nat)
                + buf@.subrange(i as int, w as int),
        decreases i,
    {
        let ghost old_buf = buf@;
        let ghost old_temp = temp;
        i -= 1;
        let d = (temp % b) as u8;
        proof {
            assert(digit_char((temp % b) as nat) == (if d < 10 {
                48 + d
            } else {
                55 + d
            }));
        }
        let c = if d < 10 {
            48 + d
        } else {
            55 + d
        };
        buf.set(i, c);
        temp = temp / b;
        proof {
            assert(buf@.subrange(i as int, w as int) =~= seq![c] + old_buf.subrange(
                i + 1,
                w as int,
            ));
            assert(padded_digits(old_temp as nat, (i + 1) as nat, b as nat)
                == padded_digits(temp as nat, i as nat, b as nat).push(c));
        }
    }
    proof {
        if temp == 0 {
            lemma_padded_zero(i as nat, b as nat);
            assert(buf@.subrange(0, i as int) =~= padded_digits(0, i as nat, b as nat));
        }
        assert(buf@ =~= buf@.subrange(0, i as int) + buf@.subrange(i as int, w as int));
    }
    buf
}

/// Zero is all zeros at any width.
proof fn lemma_padded_zero(w: nat, b: nat)
    requires
        b > 0,
    ensures
        padded_digits(0, w, b).len() == w,
        forall|j: int| 0 <= j < w ==> padded_digits(0, w, b)[j] == 48u8,
    decreases w,
{
    if w > 0 {
        lemma_padded_zero((w - 1) as nat, b);
    }
}

/// Appends `bytes` to `out`.
pub(crate) fn push_all(out: &mut Vec<u8>, bytes: &[u8])
    ensures
        final(out)@ == old(out)@ + bytes@,
{
    let mut i: usize = 0;
    while i < bytes.len()
        invariant
            i <= bytes@.len(),
            out@ == old(out)@ + bytes@.subrange(0, i as int),
        decreases bytes.len() - i,
    {
        out.push(bytes[i]);
        i += 1;
        assert(bytes@.subrange(0, i as int) =~= bytes@.subrange(0, i - 1).push(bytes@[i - 1]));
    }
    assert(bytes@.subrange(0, i as int) =~= bytes@);
}

/// The decimal digits of `value`, most significant first.
pub(crate) fn decimal_bytes(value: u64) -> (r: Vec<u8>)
    ensures
        r@ == decimal_digits(value as nat),
{
    if value == 0 {
        let mut z: Vec<u8> = Vec::new();
        z.push(48u8);
        assert(z@ =~= decimal_digits(0));
        return z;
    }
    let mut buf: Vec<u8> = Vec::new();
    let mut v = value;
    while v > 0
        invariant
            value > 0,
            v > 0 ==> decimal_digits(value as nat) == decimal_digits(v as nat) + buf@.reverse(),
            v == 0 ==> decimal_digits(value as nat) == buf@.reverse(),
        decreases v,
    {
        let ghost old_buf = buf@;
        let ghost old_v = v;
        let c = 48u8 + (v % 10) as u8;
        buf.push(c);
        v = v / 10;
        proof {
            assert(buf@.reverse() =~= seq![c] + old_buf.reverse());
            assert(c == digit_char((old_v % 10) as nat));
            if v > 0 {
                assert(decimal_digits(old_v as nat) == decimal_digits(v as nat).push(c));
                assert(decimal_digits(v as nat).push(c) + old_buf.reverse() =~= decimal_digits(
                    v as nat,
                ) + (seq![c] + old_buf.reverse()));
            } else {
                assert(decimal_digits(old_v as nat) == seq![c]);
            }
        }
    }
    let mut out: Vec<u8> = Vec::new();
    let mut i = buf.len();
    while i > 0
        invariant
            i <= buf@.len(),
            out@ == buf@.subrange(i as int, buf@.len() as int).reverse(),
        decreases i,
    {
        i -= 1;
        out.push(buf[i]);
        assert(out@ =~= buf@.subrange(i as int, buf@.len() as int).reverse());
    }
    assert(buf@.subrange(0, buf@.len() as int) =~= buf@);
    out
}

/// Sends `value` in decimal.
pub fn uart_send_u32_decimal(out: &mut Vec<u8>, value: u32)
    ensures
        final(out)@ == old(out)@ + decimal_digits(value as nat),
{
    let digits = decimal_bytes(value as u64);
    push_all(out, digits.as_slice());
}

/// Sends `value` in decimal with a leading `-` when negative.
pub fn uart_send_i32_decimal(out: &mut Vec<u8>, value: i32)
    requires
        value != i32::MIN,
    ensures
        final(out)@ == old(out)@ + signed_decimal(value as int),
{
    let mut value = value;
    if value < 0 {
        out.push(45u8);
        value = -value;
    }
    uart_send_u32_decimal(out, value as u32);
}

/// Sends `value` in decimal with a leading `-` when negative.
pub fn uart_send_i64_decimal(out: &mut Vec<u8>, value: i64)
    ensures
        final(out)@ == old(out)@ + signed_decimal(value as int),
{
    let magnitude: u64 = if value < 0 {
        out.push(45u8);
        if value == i64::MIN {
            9_223_372_036_854_775_808u64
        } else {
            (-value) as u64
        }
    } else {
        value as u64
    };
    let digits = decimal_bytes(magnitude);
    push_all(out, digits.as_slice());
}

/// Sends the `width` least significant decimal digits of `value`, padded
/// with leading zeros.
pub fn uart_send_u32_decimal_padded(out: &mut Vec<u8>, value: u32, width: u8)
    requires
        width <= 10,
    ensures
        final(out)@ == old(out)@ + padded_digits(value as nat, width as nat, 10),
{
    let digits = padded_radix(value as u64, width as usize, 10);
    push_all(out, digits.as_slice());
}

/// Sends `0x` and `value` as eight upper-case hex digits.
pub fn uart_send_u32_hex(out: &mut Vec<u8>, value: u32)
    ensures
        final(out)@ == old(out)@ + seq![48u8, 120u8] + padded_digits(value as nat, 8, 16),
{
    out.push(48u8);
    out.push(120u8);
    let digits = padded_radix(value as u64, 8, 16);
    push_all(out, digits.as_slice());
}

/// Sends `0x` and `value` as four upper-case hex digits.
pub fn uart_send_u16_hex(out: &mut Vec<u8>, value: u16)
    ensures
        final(out)@ == old(out)@ + seq![48u8, 120u8] + padded_digits(value as nat, 4, 16),
{
    out.push(48u8);
    out.push(120u8);
    let digits = padded_radix(value as u64, 4, 16);
    push_all(out, digits.as_slice());
}

/// Sends the low byte of `value`, then the high byte followed by CR LF.
pub fn uart_send_u16(out: &mut Vec<u8>, value: u16)
    ensures
        final(out)@ == old(out)@ + seq![(value % 256) as u8, (value / 256) as u8, 13u8, 10u8],
{
    out.push((value % 256) as u8);
    out.push((value / 256) as u8);
    out.push(13u8);
    out.push(10u8);
}

/// Sends the low byte of `value` followed by CR LF.
pub fn uart_send_i32(out: &mut Vec<u8>, value: i32)
    ensures
        final(out)@ == old(out)@ + seq![((value as u32) % 256) as u8, 13u8, 10u8],
{
    #[verifier::truncate]
    let w = value as u32;
    out.push((w % 256) as u8);
    out.push(13u8);
    out.push(10u8);
}

/// The four low bytes of a 64-bit word, least significant first.
pub open spec fn low_bytes_le(bits: i64) -> Seq<u8> {
    let w = (bits as u32) as nat;
    seq![(w % 256) as u8, ((w / 256) % 256) as u8, ((w / 65536) % 256) as u8, (w / 16777216) as u8]
}

/// Sends the four low bytes of the raw bits of an I32F32 value, least
/// significant first.
pub fn uart_send_i32f32_binary(out: &mut Vec<u8>, bits: i64)
    ensures
        final(out)@ == old(out)@ + low_bytes_le(bits),
{
    #[verifier::truncate]
    let w = bits as u32;
    out.push((w % 256) as u8);
    out.push(((w / 256) % 256) as u8);
    out.push(((w / 65536) % 256) as u8);
    out.push((w / 16777216) as u8);
}

/// Sends the raw bits of each I32F32 value as four bytes, least
/// significant first.
pub fn uart_send_i32f32_array(out: &mut Vec<u8>, values: &[i64])
    ensures
        final(out)@.len() == old(out)@.len() + 4 * values@.len(),
        forall|k: int|
            0 <= k < values@.len() ==> final(out)@.subrange(
                old(out)@.len() + 4 * k,
                old(out)@.len() + 4 * k + 4,
            ) == low_bytes_le(#[trigger] values@[k]),
        final(out)@.subrange(0, old(out)@.len() as int) == old(out)@,
{
    let mut i: usize = 0;
    while i < values.len()
        invariant
            i <= values@.len(),
            out@.len() == old(out)@.len() + 4 * i,
            out@.subrange(0, old(out)@.len() as int) == old(out)@,
            forall|k: int|
                0 <= k < i ==> out@.subrange(old(out)@.len() + 4 * k, old(out)@.len() + 4 * k + 4)
                    == low_bytes_le(#[trigger] values@[k]),
        decreases values.len() - i,
    {
        let ghost before = out@;
        uart_send_i32f32_binary(out, values[i]);
        proof {
            assert forall|k: int| 0 <= k < i + 1 implies out@.subrange(
                old(out)@.len() + 4 * k,
                old(out)@.len() + 4 * k + 4,
            ) == low_bytes_le(#[trigger] values@[k]) by {
                if k < i {
                    assert(out@.subrange(old(out)@.len() + 4 * k, old(out)@.len() + 4 * k + 4)
                        =~= before.subrange(old(out)@.len() + 4 * k, old(out)@.len() + 4 * k + 4));
                } else {
                    assert(out@.subrange(old(out)@.len() + 4 * k, old(out)@.len() + 4 * k + 4)
                        =~= low_bytes_le(values@[k]));
                }
            }
            assert(out@.subrange(0, old(out)@.len() as int) =~= before.subrange(
                0,
                old(out)@.len() as int,
            ));
        }
        i += 1;
    }
}

/// Sends the raw bits of an I32F32 value as eight upper-case hex digits of
/// its low 32 bits.
pub fn uart_send_i32f32_hex(out: &mut Vec<u8>, bits: i64)
    ensures
        final(out)@ == old(out)@ + padded_digits((bits as u32) as nat, 8, 16),
{
    #[verifier::truncate]
    let w = bits as u32;
    let digits = padded_radix(w as u64, 8, 16);
    push_all(out, digits.as_slice());
}

/// The integer part of 100 times an I32F32 value (raw bits), rounded toward
/// −∞.
pub open spec fn percent_of(bits: i64) -> int {
    (bits * 100) / 0x1_0000_0000
}

/// Sends 100 times an I32F32 value (raw bits) as a signed decimal integer,
/// its fraction discarded (rounding toward −∞).
pub fn uart_send_i32f32_scaled(out: &mut Vec<u8>, bits: i64)
    requires
        i64::MIN <= bits * 100 <= i64::MAX,
        percent_of(bits) != i32::MIN,
    ensures
        final(out)@ == old(out)@ + signed_decimal(percent_of(bits)),
{
    let hundred = i32f32_from_i32(100);
    assert(bits * hundred * 0x1_0000_0000 == (bits * 100) * 0x1_0000_0000_0000_0000) by (
    nonlinear_arith)
        requires
            hundred == 100 * 0x1_0000_0000,
    ;
    assert(i128::MIN <= (bits * 100) * 0x1_0000_0000_0000_0000 <= i128::MAX) by (
    nonlinear_arith)
        requires
            i64::MIN <= bits * 100 <= i64::MAX,
    ;
    let product = i32f32_mul(bits, hundred);
    assert((bits * hundred) / 0x1_0000_0000 == bits * 100) by (nonlinear_arith)
        requires
            hundred == 100 * 0x1_0000_0000,
    ;
    let scaled = i32f32_to_i32(product);
    uart_send_i32_decimal(out, scaled);
}

/// Sends `bytes` as a C string: at most `PUT_STRING_MAX` bytes, stopping at
/// the first NUL.
pub fn uart_put_bytes(out: &mut Vec<u8>, bytes: &[u8])
    ensures
        final(out)@ == old(out)@ + before_nul(
            bytes@.subrange(
                0,
                if bytes@.len() < PUT_STRING_MAX {
                    bytes@.len() as int
                } else {
                    PUT_STRING_MAX as int
                },
            ),
        ),
{
    let len = if bytes.len() < PUT_STRING_MAX {
        bytes.len()
    } else {
        PUT_STRING_MAX
    };
    let ghost s = bytes@.subrange(0, len as int);
    let mut i: usize = 0;
    assert(s.subrange(0, len as int) =~= s);
    assert(bytes@.subrange(0, 0) + before_nul(s) =~= before_nul(s));
    while i < len && bytes[i] != 0
        invariant
            i <= len <= bytes@.len(),
            s == bytes@.subrange(0, len as int),
            forall|j: int| 0 <= j < i ==> bytes@[j] != 0,
            out@ == old(out)@ + bytes@.subrange(0, i as int),
            before_nul(s) == bytes@.subrange(0, i as int) + before_nul(s.subrange(i as int, len as int)),
        decreases len - i,
    {
        let ghost rest = s.subrange(i as int, len as int);
        out.push(bytes[i]);
        proof {
            assert(rest.drop_first() =~= s.subrange(i + 1, len as int));
            assert(rest[0] == bytes@[i as int]);
            assert(bytes@.subrange(0, i + 1) =~= bytes@.subrange(0, i as int).push(bytes@[i as int]));
            assert(bytes@.subrange(0, i as int) + (seq![bytes@[i as int]] + before_nul(
                s.subrange(i + 1, len as int),
            )) =~= bytes@.subrange(0, i + 1) + before_nul(s.subrange(i + 1, len as int)));
        }
        i += 1;
    }
    proof {
        let rest = s.subrange(i as int, len as int);
        if i < len {
            assert(rest[0] == 0);
        } else {
            assert(rest.len() == 0);
        }
        assert(before_nul(rest) =~= Seq::<u8>::empty());
        assert(bytes@.subrange(0, i as int) + Seq::<u8>::empty() =~= bytes@.subrange(0, i as int));
    }
}

/// Sends the UTF-8 bytes of `s` as a C string (see [`uart_put_bytes`]).
pub fn uart_put_str(out: &mut Vec<u8>, s: &str)
    ensures
        final(out)@ == old(out)@ + before_nul(
            s.spec_bytes().subrange(
                0,
                if s.spec_bytes().len() < PUT_STRING_MAX {
                    s.spec_bytes().len() as int
                } else {
                    PUT_STRING_MAX as int
                },
            ),
        ),
{
    uart_put_bytes(out, s.as_bytes());
}

/// Sends every byte of `bytes` as it is.
pub fn uart_put_bytes_fast(out: &mut Vec<u8>, bytes: &[u8])
    ensures
        final(out)@ == old(out)@ + bytes@,
{
    push_all(out, bytes);
}

/// Sends every byte of `bytes` as it is.
pub fn uart_put_bytes_unbuffered(out: &mut Vec<u8>, bytes: &[u8])
    ensures
        final(out)@ == old(out)@ + bytes@,
{
    push_all(out, bytes);
}

/// The escape sequence of a terminal command: clear screen and home
/// (`ESC [2J ESC [H`), or home (`ESC [H`).
pub open spec fn term_bytes(cmd: TermCmd) -> Seq<u8> {
    match cmd {
        TermCmd::ClearScreen => seq![27u8, 91u8, 50u8, 74u8, 27u8, 91u8, 72u8],
        TermCmd::Home => seq![27u8, 91u8, 72u8],
    }
}

/// Sends a terminal control sequence.
pub fn term(out: &mut Vec<u8>, cmd: TermCmd)
    ensures
        final(out)@ == old(out)@ + term_bytes(cmd),
{
    match cmd {
        TermCmd::ClearScreen => {
            out.push(27u8);
            out.push(91u8);
            out.push(50u8);
            out.push(74u8);
            out.push(27u8);
            out.push(91u8);
            out.push(72u8);
        },
        TermCmd::Home => {
            out.push(27u8);
            out.push(91u8);
            out.push(72u8);
        },
    }
}

/// The acknowledgement printed for a command.
#[derive(Debug, Clone, Copy, PartialEq, Eq, Structural)]
pub enum Reply {
    NewGainA(u64),
    DirChanged(MotorDirection),
    Unknown(u8),
}

/// The closed-loop mode selected by the number sent with `>m`.
pub open spec fn mode_of(value: u64) -> AdrcMode {
    if value == 1 {
        AdrcMode::Speed
    } else if value == 2 {
        AdrcMode::Position
    } else {
        AdrcMode::Off
    }
}

/// The system phase requested by a command, if it requests one.
pub open spec fn requested_phase(cmd: Command) -> Option<System_State> {
    match cmd {
        Command::Kill => Some(System_State::KILL),
        Command::StartMove => Some(System_State::START_MOVE),
        Command::StartSpeed => Some(System_State::START_SPD),
        Command::Stop => Some(System_State::STOPPING),
        _ => None,
    }
}

/// A command can be applied without overflow: a speed set with `>p` must
/// give a signed command that fits.
pub open spec fn dispatch_ok(cmd: Command, dir: MotorDirection) -> bool {
    match cmd {
        Command::Assign { var, value } => var == 112u8 ==> i64::MIN <= sign_of(dir) * (
        value as i64) <= i64::MAX,
        _ => true,
    }
}

/// `after` is `before` retuned for `mode` with its own `w0`, `wc`, `b0`
/// (unchanged when the loop is off).
pub open spec fn retuned(before: Adrc, after: Adrc, mode: AdrcMode) -> bool {
    match mode {
        AdrcMode::Off => after == before,
        AdrcMode::Speed => Adrc::tuned_speed(before, after, ADRC_TS),
        AdrcMode::Position => Adrc::tuned_position(before, after, ADRC_TS),
    }
}

/// The effect on the axis of assigning `value` to the variable `var`.
pub open spec fn assign_effect<T: EncoderOps, IO: MotorIo>(
    var: u8,
    value: u64,
    a: &Stepper<T, IO>,
    b: &Stepper<T, IO>,
) -> bool {
    let e = a.encoder;
    if var == 97u8 || var == 65u8 {
        b.encoder == (Encoder { g_a: value, ..e }) && b.motion() == a.motion() && b.adrc
            == a.adrc && b.target_pos_steps == a.target_pos_steps
    } else if var == 98u8 || var == 66u8 {
        b.encoder == (Encoder { g_b: value, ..e }) && b.motion() == a.motion() && b.adrc
            == a.adrc && b.target_pos_steps == a.target_pos_steps
    } else if var == 99u8 || var == 67u8 {
        b.encoder == (Encoder { g_c: value, ..e }) && b.motion() == a.motion() && b.adrc
            == a.adrc && b.target_pos_steps == a.target_pos_steps
    } else if var == 119u8 {
        b.encoder == e && b.motion() == a.motion() && retuned(
            Adrc { w0: value, ..a.adrc },
            b.adrc,
            a.adrc_mode,
        ) && b.target_pos_steps == a.target_pos_steps
    } else if var == 118u8 {
        b.encoder == e && b.motion() == a.motion() && retuned(
            Adrc { wc: value, ..a.adrc },
            b.adrc,
            a.adrc_mode,
        ) && b.target_pos_steps == a.target_pos_steps
    } else if var == 111u8 {
        b.encoder == e && b.motion() == a.motion() && retuned(
            Adrc { b0: value, ..a.adrc },
            b.adrc,
            a.adrc_mode,
        ) && b.target_pos_steps == a.target_pos_steps
    } else if var == 109u8 {
        b.encoder == e && b.motion() == (Motion { adrc_mode: mode_of(value), ..a.motion() })
            && retuned(a.adrc, b.adrc, mode_of(value)) && b.target_pos_steps
            == a.target_pos_steps
    } else if var == 113u8 {
        b.encoder == e && b.motion() == a.motion() && b.adrc == a.adrc && b.target_pos_steps
            == value as i32
    } else if var == 112u8 {
        b.encoder == e && b.motion() == (Motion {
            target: value as i64,
            curr_target: signed_target(a.dir, value as i64),
            ..a.motion()
        }) && b.adrc == a.adrc && b.target_pos_steps == a.target_pos_steps
    } else {
        b.encoder == e && b.motion() == a.motion() && b.adrc == a.adrc && b.target_pos_steps
            == a.target_pos_steps
    }
}

/// The variable named by `var` holds `value` afterwards and the other
/// tuning inputs keep theirs: `a`/`b`/`c` are the filter gains, `w`, `v`, `o`
/// the controller's `w0`, `wc`, `b0`, `m` the loop mode, `q` the target
/// position and `p` the speed command; any other letter changes none of
/// them.
pub open spec fn assigned_variable<T: EncoderOps, IO: MotorIo>(
    var: u8,
    value: u64,
    a: &Stepper<T, IO>,
    b: &Stepper<T, IO>,
) -> bool {
    let ga = if var == 97u8 || var == 65u8 { value } else { a.encoder.g_a };
    let gb = if var == 98u8 || var == 66u8 { value } else { a.encoder.g_b };
    let gc = if var == 99u8 || var == 67u8 { value } else { a.encoder.g_c };
    let w0 = if var == 119u8 { value } else { a.adrc.w0 };
    let wc = if var == 118u8 { value } else { a.adrc.wc };
    let b0 = if var == 111u8 { value } else { a.adrc.b0 };
    &&& b.encoder.g_a == ga && b.encoder.g_b == gb && b.encoder.g_c == gc
    &&& b.adrc.w0 == w0 && b.adrc.wc == wc && b.adrc.b0 == b0
    &&& b.adrc_mode == (if var == 109u8 { mode_of(value) } else { a.adrc_mode })
    &&& b.target_pos_steps == (if var == 113u8 { value as i32 } else { a.target_pos_steps })
    &&& b.target_speed_hz == (if var == 112u8 { value as i64 } else { a.target_speed_hz })
}

/// Every assignment sets exactly the variable it names: whatever the loop
/// mode, the effect of assigning `value` to `var` leaves that variable
/// holding `value` and every other tuning input as it was.
pub proof fn lemma_assignment_sets_named_variable<T: EncoderOps, IO: MotorIo>(
    var: u8,
    value: u64,
    a: &Stepper<T, IO>,
    b: &Stepper<T, IO>,
)
    requires
        assign_effect(var, value, a, b),
    ensures
        assigned_variable(var, value, a, b),
{
}

/// Applies a decoded command to the axis and the system state machine, and
/// returns the acknowledgement to print.
///
/// Assignments: `a`/`b`/`c` (either case) set the encoder filter gains
/// (`a` is acknowledged); `w`, `v`, `o` set the controller's `w0`, `wc`,
/// `b0` and retune it when a loop is active; `m` selects the loop (1 speed,
/// 2 position, else off); `q` sets the target position; `p` sets the
/// commanded speed and the signed running target. Other variables are
/// ignored. `d` reverses the direction, `z` zeroes the encoder, `p` toggles
/// debug output, and `k`, `r`, `s`, `t` request the kill, start-move,
/// start-speed and stopping phases.
pub fn dispatch_command<T: EncoderOps, IO: MotorIo>(
    cmd: Command,
    axis: &mut Stepper<T, IO>,
    sys: &mut System_T,
) -> (reply: Option<Reply>)
    requires
        dispatch_ok(cmd, old(axis).dir),
    ensures
        requested_phase(cmd) matches Some(p) ==> *final(sys) == (System_T {
            next_state: p,
            ..*old(sys)
        }),
        cmd == Command::ToggleDebug ==> *final(sys) == (System_T {
            print_dbg: !old(sys).print_dbg,
            ..*old(sys)
        }),
        requested_phase(cmd) is None && cmd != Command::ToggleDebug ==> *final(sys) == *old(sys),
        final(axis).step_pin == old(axis).step_pin,
        final(axis).curr_pos_steps == old(axis).curr_pos_steps,
        cmd matches Command::Assign { var, value } ==> assigned_variable(
            var,
            value,
            old(axis),
            final(axis),
        ),
        match cmd {
            Command::ToggleDir => {
                let d = if old(axis).dir == MotorDirection::BWD {
                    MotorDirection::FWD
                } else {
                    MotorDirection::BWD
                };
                &&& final(axis).motion() == (Motion { dir: d, ..old(axis).motion() })
                &&& IO::dir_written(old(axis).io, final(axis).io, d == MotorDirection::BWD)
                &&& Stepper::same_rest_but_io(final(axis), old(axis))
                &&& reply == Some(Reply::DirChanged(d))
            },
            Command::Reset => {
                &&& final(axis).encoder.counts == 0 && final(axis).encoder.turns == 0
                    && final(axis).encoder.prev_enc_counts == 0
                &&& Encoder::same_filter(&final(axis).encoder, &old(axis).encoder)
                &&& T::counter_set(old(axis).encoder.ops, final(axis).encoder.ops, 0x8000)
                &&& final(axis).io == old(axis).io
                &&& final(axis).motion() == old(axis).motion()
                &&& final(axis).adrc == old(axis).adrc
                &&& final(axis).target_pos_steps == old(axis).target_pos_steps
                &&& reply is None
            },
            Command::Unknown(b) => {
                &&& Stepper::same_rest(final(axis), old(axis))
                &&& final(axis).motion() == old(axis).motion()
                &&& reply == Some(Reply::Unknown(b))
            },
            Command::Assign { var, value } => {
                &&& assign_effect(var, value, old(axis), final(axis))
                &&& final(axis).io == old(axis).io
                &&& reply == (if var == 97u8 || var == 65u8 {
                    Some(Reply::NewGainA(value))
                } else {
                    None
                })
            },
            _ => {
                &&& Stepper::same_rest(final(axis), old(axis))
                &&& final(axis).motion() == old(axis).motion()
                &&& reply is None
            },
        },
{
    match cmd {
        Command::Assign { var, value } => {
            if var == 97u8 || var == 65u8 {
                axis.encoder.g_a = value;
                return Some(Reply::NewGainA(value));
            } else if var == 98u8 || var == 66u8 {
                axis.encoder.g_b = value;
            } else if var == 99u8 || var == 67u8 {
                axis.encoder.g_c = value;
            } else if var == 119u8 {
                axis.adrc_update_w0(value);
                if axis.adrc_mode != AdrcMode::Off {
                    let mode = axis.adrc_mode;
                    axis.adrc_set_mode(mode);
                }
            } else if var == 118u8 {
                axis.adrc_update_wc(value);
                if axis.adrc_mode != AdrcMode::Off {
                    let mode = axis.adrc_mode;
                    axis.adrc_set_mode(mode);
                }
            } else if var == 111u8 {
                axis.adrc_update_b0(value);
                if axis.adrc_mode != AdrcMode::Off {
                    let mode = axis.adrc_mode;
                    axis.adrc_set_mode(mode);
                }
            } else if var == 109u8 {
                let mode = if value == 1 {
                    AdrcMode::Speed
                } else if value == 2 {
                    AdrcMode::Position
                } else {
                    AdrcMode::Off
                };
                axis.adrc_set_mode(mode);
            } else if var == 113u8 {
                #[verifier::truncate]
                let p = value as i32;
                axis.target_pos_steps = p;
            } else if var == 112u8 {
                #[verifier::truncate]
                let v = value as i64;
                axis.target_speed_hz = v;
                axis.curr_target_speed_hz = axis.dir_sign() * v;
            }
            None
        },
        Command::ToggleDir => {
            let dir = if axis.dir == MotorDirection::BWD {
                MotorDirection::FWD
            } else {
                MotorDirection::BWD
            };
            axis.set_direction(dir);
            Some(Reply::DirChanged(dir))
        },
        Command::Kill => {
            sys.next_state = System_State::KILL;
            None
        },
        Command::ToggleDebug => {
            sys.print_dbg = !sys.print_dbg;
            None
        },
        Command::StartMove => {
            sys.next_state = System_State::START_MOVE;
            None
        },
        Command::StartSpeed => {
            sys.next_state = System_State::START_SPD;
            None
        },
        Command::Stop => {
            sys.next_state = System_State::STOPPING;
            None
        },
        Command::Reset => {
            axis.encoder.zero();
            None
        },
        Command::Unknown(b) => Some(Reply::Unknown(b)),
    }
}

} // verus!
