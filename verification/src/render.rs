//! Rendering a log line: a `[HH:MM:SS.mmm] ` timestamp prefix followed by
//! the caller's message text.

use vstd::prelude::*;
use crate::stamp::Timestamp;

verus! {

/// The decimal digit character for a value below ten.
pub open spec fn digit_char(d: int) -> char {
    if d == 0 {
        '0'
    } else if d == 1 {
        '1'
    } else if d == 2 {
        '2'
    } else if d == 3 {
        '3'
    } else if d == 4 {
        '4'
    } else if d == 5 {
        '5'
    } else if d == 6 {
        '6'
    } else if d == 7 {
        '7'
    } else if d == 8 {
        '8'
    } else {
        '9'
    }
}

/// A value below one hundred, written with exactly two decimal digits.
pub open spec fn two_digits(n: int) -> Seq<char> {
    seq![digit_char(n / 10), digit_char(n % 10)]
}

/// A value below one thousand, written with exactly three decimal digits.
pub open spec fn three_digits(n: int) -> Seq<char> {
    seq![digit_char(n / 100), digit_char((n / 10) % 10), digit_char(n % 10)]
}

/// The timestamp prefix of a rendered line: `[HH:MM:SS.mmm] `.
pub open spec fn stamp_prefix(ts: Timestamp) -> Seq<char> {
    seq!['['] + two_digits(ts.hour as int) + seq![':'] + two_digits(ts.minute as int) + seq![':']
        + two_digits(ts.second as int) + seq!['.'] + three_digits(ts.millis as int) + seq![
        ']',
        ' ',
    ]
}

/// A rendered line: the timestamp prefix followed by the message text.
pub open spec fn rendered(ts: Timestamp, msg: Seq<char>) -> Seq<char> {
    stamp_prefix(ts) + msg
}

/// Is `c` a decimal digit character?
pub open spec fn is_digit(c: char) -> bool {
    '0' <= c && c <= '9'
}

/// A rendered line always begins with the fifteen-character timestamp
/// prefix `[HH:MM:SS.mmm] ` — brackets, separators and digits in their
/// places — and what follows the prefix is exactly the caller's message.
pub proof fn lemma_rendered_shape(ts: Timestamp, msg: Seq<char>)
    requires
        ts.wf(),
    ensures
        rendered(ts, msg).len() == 15 + msg.len(),
        rendered(ts, msg).subrange(15, rendered(ts, msg).len() as int) == msg,
        rendered(ts, msg)[0] == '[',
        rendered(ts, msg)[3] == ':',
        rendered(ts, msg)[6] == ':',
        rendered(ts, msg)[9] == '.',
        rendered(ts, msg)[13] == ']',
        rendered(ts, msg)[14] == ' ',
        forall|k: int|
            (1 <= k <= 2 || 4 <= k <= 5 || 7 <= k <= 8 || 10 <= k <= 12) ==> is_digit(
                #[trigger] rendered(ts, msg)[k],
            ),
{
    assert forall|d: int| 0 <= d < 10 implies is_digit(digit_char(d)) by {
    }
    assert(rendered(ts, msg).subrange(15, rendered(ts, msg).len() as int) =~= msg);
}

/// The literal for one decimal digit.
fn digit_str(d: u32) -> (r: &'static str)
    requires
        d < 10,
    ensures
        r@ =~= seq![digit_char(d as int)],
{
    proof {
        reveal_strlit("0");
        reveal_strlit("1");
        reveal_strlit("2");
        reveal_strlit("3");
        reveal_strlit("4");
        reveal_strlit("5");
        reveal_strlit("6");
        reveal_strlit("7");
        reveal_strlit("8");
        reveal_strlit("9");
    }
    match d {
        0 => "0",
        1 => "1",
        2 => "2",
        3 => "3",
        4 => "4",
        5 => "5",
        6 => "6",
        7 => "7",
        8 => "8",
        _ => "9",
    }
}

/// Appends a value below one hundred as two decimal digits.
fn push_two_digits(s: &mut String, n: u32)
    requires
        n < 100,
    ensures
        final(s)@ == old(s)@ + two_digits(n as int),
{
    s.append(digit_str(n / 10));
    s.append(digit_str(n % 10));
    proof {
        assert(s@ =~= old(s)@ + two_digits(n as int));
    }
}

/// Appends a value below one thousand as three decimal digits.
fn push_three_digits(s: &mut String, n: u32)
    requires
        n < 1000,
    ensures
        final(s)@ == old(s)@ + three_digits(n as int),
{
    s.append(digit_str(n / 100));
    s.append(digit_str((n / 10) % 10));
    s.append(digit_str(n % 10));
    proof {
        assert(s@ =~= old(s)@ + three_digits(n as int));
    }
}

/// Renders one log line: the timestamp as `[HH:MM:SS.mmm] `, then the
/// message exactly as the caller gave it.
pub fn render(ts: &Timestamp, msg: &str) -> (r: String)
    requires
        ts.wf(),
    ensures
        r@ == rendered(*ts, msg@),
{
    proof {
        reveal_strlit("[");
        reveal_strlit(":");
        reveal_strlit(".");
        reveal_strlit("] ");
    }
    let mut s = String::new();
    s.append("[");
    push_two_digits(&mut s, ts.hour);
    s.append(":");
    push_two_digits(&mut s, ts.minute);
    s.append(":");
    push_two_digits(&mut s, ts.second);
    s.append(".");
    push_three_digits(&mut s, ts.millis);
    s.append("] ");
    s.append(msg);
    proof {
        assert(s@ =~= rendered(*ts, msg@));
    }
    s
}

} // verus!
