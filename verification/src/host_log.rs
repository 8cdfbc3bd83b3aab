//! Host-side handling of the telemetry received from the board: splitting
//! the stream into fields (the board separates values with `,`, `\r` and
//! `\n`) and keeping the most recent values and log lines.
use vstd::prelude::*;
use std::collections::VecDeque;

verus! {

/// A field separator of the telemetry stream: `\n`, `,` or `\r`.
pub open spec fn is_separator(b: u8) -> bool {
    b == 10u8 || b == 44u8 || b == 13u8
}

/// `p` is the position of the first separator in `s`.
pub open spec fn first_separator(s: Seq<u8>, p: int) -> bool {
    &&& 0 <= p < s.len()
    &&& is_separator(s[p])
    &&& forall|j: int| 0 <= j < p ==> !is_separator(#[trigger] s[j])
}

/// Takes the first complete field off the front of the receive buffer: the
/// bytes before the first separator. The separator is dropped and the rest
/// stays in the buffer. Without a separator nothing is taken.
pub fn take_log_field(buf: &mut Vec<u8>) -> (field: Option<Vec<u8>>)
    ensures
        match field {
            Some(f) => exists|p: int|
                {
                    &&& first_separator(old(buf)@, p)
                    &&& f@ == old(buf)@.subrange(0, p)
                    &&& final(buf)@ == old(buf)@.subrange(p + 1, old(buf)@.len() as int)
                },
            None => {
                &&& forall|j: int| 0 <= j < old(buf)@.len() ==> !is_separator(#[trigger] old(buf)@[j])
                &&& final(buf)@ == old(buf)@
            },
        },
{
    let mut p: usize = 0;
    while p < buf.len() && !(buf[p] == 10u8 || buf[p] == 44u8 || buf[p] == 13u8)
        invariant
            p <= buf@.len(),
            forall|j: int| 0 <= j < p ==> !is_separator(#[trigger] buf@[j]),
        decreases buf.len() - p,
    {
        p += 1;
    }
    if p == buf.len() {
        return None;
    }
    let mut f: Vec<u8> = Vec::new();
    let mut rest: Vec<u8> = Vec::new();
    let mut i: usize = 0;
    while i < buf.len()
        invariant
            p < buf@.len(),
            i <= buf@.len(),
            f@ == buf@.subrange(0, if i < p { i as int } else { p as int }),
            rest@ == (if i <= p + 1 {
                Seq::empty()
            } else {
                buf@.subrange(p + 1, i as int)
            }),
        decreases buf.len() - i,
    {
        if i < p {
            f.push(buf[i]);
            assert(f@ =~= buf@.subrange(0, i + 1));
        } else if i > p {
            rest.push(buf[i]);
            assert(rest@ =~= buf@.subrange(p + 1, i + 1));
        }
        i += 1;
    }
    assert(first_separator(buf@, p as int));
    *buf = rest;
    Some(f)
}

/// What the logger does with one received field.
#[derive(Debug, Clone, Copy, PartialEq, Eq, Structural)]
pub enum LogStep {
    /// A blank field: nothing is logged or counted.
    Skip,
    /// The field is logged and counted; `echo` prints it to the console
    /// (every tenth line, starting with the first) and `stop` ends the
    /// logging (the line limit is reached).
    Record { echo: bool, stop: bool },
}

/// The logger's decision on one field, given the lines logged so far and
/// the optional line limit; returns the decision and the new line count.
pub fn log_field_step(lines_read: usize, blank: bool, max_lines: Option<usize>) -> (r: (
    LogStep,
    usize,
))
    requires
        !blank ==> lines_read < usize::MAX,
    ensures
        blank ==> r == (LogStep::Skip, lines_read),
        !blank ==> r.1 == lines_read + 1 && r.0 == (LogStep::Record {
            echo: lines_read % 10 == 0,
            stop: match max_lines {
                Some(m) => lines_read + 1 >= m,
                None => false,
            },
        }),
{
    if blank {
        return (LogStep::Skip, lines_read);
    }
    let echo = lines_read % 10 == 0;
    let n = lines_read + 1;
    let stop = match max_lines {
        Some(m) => n >= m,
        None => false,
    };
    (LogStep::Record { echo, stop }, n)
}

/// The last `max` items of `s`, or all of `s` when it is shorter.
pub open spec fn keep_last<T>(s: Seq<T>, max: nat) -> Seq<T> {
    if s.len() <= max {
        s
    } else {
        s.subrange(s.len() - max, s.len() as int)
    }
}

/// Appends `item` to the history `q` and drops the oldest entries until at
/// most `max` remain.
pub fn push_bounded<T>(q: &mut VecDeque<T>, item: T, max: usize)
    ensures
        final(q)@ == keep_last(old(q)@.push(item), max as nat),
{
    q.push_back(item);
    let ghost all = q@;
    while q.len() > max
        invariant
            all.len() >= q@.len(),
            q@ == all.subrange(all.len() - q@.len(), all.len() as int),
            q@.len() >= max || q@ == all,
        decreases q@.len(),
    {
        let _ = q.pop_front();
    }
    assert(all.subrange(0, all.len() as int) =~= all);
}

} // verus!
