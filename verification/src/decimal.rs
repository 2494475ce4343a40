//! Identifiers as text: a number written in decimal digits.

use vstd::prelude::*;
use vstd::string::StringExecFns;

verus! {

/// The character of the digit `d`, for `d` below ten.
pub open spec fn digit_char(d: int) -> char {
    if d == 0 {
        '0'
    } else if d == 1 {
        '1'
    } else if d == 2 {
        '2'
    } else if d == 3 {
        '3'
    } else if d == 4 {
        '4'
    } else if d == 5 {
        '5'
    } else if d == 6 {
        '6'
    } else if d == 7 {
        '7'
    } else if d == 8 {
        '8'
    } else {
        '9'
    }
}

/// The decimal digits of `n`, most significant first, without leading
/// zeros: the digits of `n / 10` followed by the digit `n % 10`.
pub open spec fn decimal(n: nat) -> Seq<char>
    decreases n,
{
    if n < 10 {
        seq![digit_char(n as int)]
    } else {
        decimal(n / 10).push(digit_char((n % 10) as int))
    }
}

/// The digits in `low`, which holds the least significant first, read from
/// its end.
pub open spec fn from_low_digits(low: Seq<u8>) -> Seq<char> {
    Seq::new(low.len(), |k: int| digit_char(low[low.len() - 1 - k] as int))
}

fn digit_text(d: u8) -> (text: &'static str)
    requires
        d < 10,
    ensures
        text@ == seq![digit_char(d as int)],
{
    proof {
        reveal_strlit("0");
        reveal_strlit("1");
        reveal_strlit("2");
        reveal_strlit("3");
        reveal_strlit("4");
        reveal_strlit("5");
        reveal_strlit("6");
        reveal_strlit("7");
        reveal_strlit("8");
        reveal_strlit("9");
    }
    let text = if d == 0 {
        "0"
    } else if d == 1 {
        "1"
    } else if d == 2 {
        "2"
    } else if d == 3 {
        "3"
    } else if d == 4 {
        "4"
    } else if d == 5 {
        "5"
    } else if d == 6 {
        "6"
    } else if d == 7 {
        "7"
    } else if d == 8 {
        "8"
    } else {
        "9"
    };
    assert(text@ =~= seq![digit_char(d as int)]);
    text
}

/// Appends the decimal digits of `n` to `text`.
pub fn push_decimal(text: &mut String, n: u64)
    ensures
        final(text)@ == old(text)@ + decimal(n as nat),
{
    let mut low: Vec<u8> = Vec::new();
    let mut rest: u64 = n;
    assert(decimal(n as nat) =~= decimal(rest as nat) + from_low_digits(low@));
    while rest >= 10
        invariant
            decimal(n as nat) == decimal(rest as nat) + from_low_digits(low@),
            forall|k: int| 0 <= k < low@.len() ==> low@[k] < 10,
        decreases rest,
    {
        let d: u8 = (rest % 10) as u8;
        let ghost before = low@;
        low.push(d);
        proof {
            let higher = (rest / 10) as nat;
            assert(decimal(rest as nat) == decimal(higher).push(digit_char(d as int)));
            assert(from_low_digits(low@) =~= seq![digit_char(d as int)] + from_low_digits(
                before,
            ));
            assert(decimal(higher) + from_low_digits(low@) =~= decimal(rest as nat)
                + from_low_digits(before));
        }
        rest = rest / 10;
    }
    let ghost start = text@;
    let ghost tail = from_low_digits(low@);
    text.append(digit_text(rest as u8));
    let mut i: usize = low.len();
    assert(text@ =~= start + decimal(rest as nat) + tail.take(0));
    while i > 0
        invariant
            i <= low@.len(),
            tail == from_low_digits(low@),
            forall|k: int| 0 <= k < low@.len() ==> low@[k] < 10,
            text@ == start + decimal(rest as nat) + tail.take(low@.len() - i),
        decreases i,
    {
        i -= 1;
        let ghost done = low@.len() - i - 1;
        text.append(digit_text(low[i]));
        assert(tail.take(done + 1) =~= tail.take(done).push(tail[done]));
        assert(text@ =~= start + decimal(rest as nat) + tail.take(done + 1));
    }
    assert(tail.take(low@.len() as int) =~= tail);
    assert(start + decimal(rest as nat) + tail =~= start + (decimal(rest as nat) + tail));
}

/// The decimal digits of `n` as a string.
pub fn decimal_string(n: u64) -> (text: String)
    ensures
        text@ == decimal(n as nat),
{
    let mut text = String::new();
    push_decimal(&mut text, n);
    assert(Seq::<char>::empty() + decimal(n as nat) =~= decimal(n as nat));
    text
}

} // verus!
