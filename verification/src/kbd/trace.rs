//! The trace line that a debugging interceptor prints for each event.

use vstd::prelude::*;
use crate::kbd::event::InputEvent;

verus! {

/// The character of the decimal digit `d`.
pub open spec fn digit_char(d: nat) -> char {
    if d == 0 {
        '0'
    } else if d == 1 {
        '1'
    } else if d == 2 {
        '2'
    } else if d == 3 {
        '3'
    } else if d == 4 {
        '4'
    } else if d == 5 {
        '5'
    } else if d == 6 {
        '6'
    } else if d == 7 {
        '7'
    } else if d == 8 {
        '8'
    } else {
        '9'
    }
}

/// The decimal digits of `n`, most significant first, without leading zeros.
pub open spec fn digits(n: nat) -> Seq<char>
    decreases n,
{
    if n < 10 {
        seq![digit_char(n)]
    } else {
        digits(n / 10).push(digit_char(n % 10))
    }
}

/// `v` in decimal, with a minus sign in front where it is negative.
pub open spec fn decimal(v: int) -> Seq<char> {
    if v < 0 {
        seq!['-'] + digits((-v) as nat)
    } else {
        digits(v as nat)
    }
}

/// The word for a modifier state.
pub open spec fn flag_word(flag: bool) -> Seq<char> {
    if flag {
        "true"@
    } else {
        "false"@
    }
}

/// The trace line for `ev`, read from the device at `device_path` while the
/// modifier state was `active`: the path in square brackets, ` caps:` and the
/// modifier state, `, ev: ` and the event's kind, code and value in decimal
/// with a space between them.
pub open spec fn trace_text(device_path: Seq<char>, active: bool, ev: InputEvent) -> Seq<char> {
    "["@ + device_path + "] caps:"@ + flag_word(active) + ", ev: "@ + decimal(ev.kind as int)
        + " "@ + decimal(ev.code as int) + " "@ + decimal(ev.value as int)
}

fn digit_str(d: u64) -> (s: &'static str)
    requires
        d < 10,
    ensures
        s@ == seq![digit_char(d as nat)],
{
    proof {
        reveal_strlit("0");
        reveal_strlit("1");
        reveal_strlit("2");
        reveal_strlit("3");
        reveal_strlit("4");
        reveal_strlit("5");
        reveal_strlit("6");
        reveal_strlit("7");
        reveal_strlit("8");
        reveal_strlit("9");
    }
    let s: &'static str = if d == 0 {
        "0"
    } else if d == 1 {
        "1"
    } else if d == 2 {
        "2"
    } else if d == 3 {
        "3"
    } else if d == 4 {
        "4"
    } else if d == 5 {
        "5"
    } else if d == 6 {
        "6"
    } else if d == 7 {
        "7"
    } else if d == 8 {
        "8"
    } else {
        "9"
    };
    s
}

fn append_digits(text: &mut String, n: u64)
    ensures
        final(text)@ == old(text)@ + digits(n as nat),
    decreases n,
{
    if n >= 10 {
        append_digits(text, n / 10);
    }
    text.append(digit_str(n % 10));
}

fn append_decimal(text: &mut String, v: i64)
    ensures
        final(text)@ == old(text)@ + decimal(v as int),
{
    if v < 0 {
        proof {
            reveal_strlit("-");
        }
        text.append("-");
        let magnitude: u64 = (-(v + 1)) as u64 + 1;
        append_digits(text, magnitude);
    } else {
        append_digits(text, v as u64);
    }
}

/// Renders the trace line for `ev`, read from the device at `device_path`
/// while the modifier state was `active`.
pub fn render_trace(device_path: &str, active: bool, ev: &InputEvent) -> (line: String)
    ensures
        line@ == trace_text(device_path@, active, *ev),
{
    let mut line = String::from_str("[");
    line.append(device_path);
    line.append("] caps:");
    line.append(
        if active {
            "true"
        } else {
            "false"
        },
    );
    line.append(", ev: ");
    append_decimal(&mut line, ev.kind as i64);
    line.append(" ");
    append_decimal(&mut line, ev.code as i64);
    line.append(" ");
    append_decimal(&mut line, ev.value as i64);
    line
}

} // verus!
