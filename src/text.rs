//! Decimal renderings used in human-readable messages.

use vstd::prelude::*;

verus! {

/// The decimal digit `d` (for `d < 10`) as a character.
pub open spec fn digit_char(d: nat) -> char {
    seq!['0', '1', '2', '3', '4', '5', '6', '7', '8', '9'][d as int]
}

/// Decimal rendering of `n`, without leading zeros.
pub open spec fn decimal_text(n: nat) -> Seq<char>
    decreases n,
{
    if n < 10 {
        seq![digit_char(n)]
    } else {
        decimal_text(n / 10).push(digit_char(n % 10))
    }
}

/// Two-digit rendering of `n < 100`, zero-padded.
pub open spec fn two_digit_text(n: nat) -> Seq<char> {
    seq![digit_char(n / 10), digit_char(n % 10)]
}

/// Rendering of `whole.hundredths`, with exactly two digits after the point.
pub open spec fn hundredths_text(whole: nat, hundredths: nat) -> Seq<char> {
    decimal_text(whole) + "."@ + two_digit_text(hundredths)
}

/// `n` divided by `d`, rounded to the nearest integer, halves up.
pub open spec fn round_div(n: int, d: int) -> int {
    (2 * n + d) / (2 * d)
}

/// The character of a decimal digit, as a one-character string.
fn digit_str(d: u128) -> (r: &'static str)
    requires
        d < 10,
    ensures
        r@ == seq![digit_char(d as nat)],
{
    let r = if d == 0 {
        proof { reveal_strlit("0"); }
        "0"
    } else if d == 1 {
        proof { reveal_strlit("1"); }
        "1"
    } else if d == 2 {
        proof { reveal_strlit("2"); }
        "2"
    } else if d == 3 {
        proof { reveal_strlit("3"); }
        "3"
    } else if d == 4 {
        proof { reveal_strlit("4"); }
        "4"
    } else if d == 5 {
        proof { reveal_strlit("5"); }
        "5"
    } else if d == 6 {
        proof { reveal_strlit("6"); }
        "6"
    } else if d == 7 {
        proof { reveal_strlit("7"); }
        "7"
    } else if d == 8 {
        proof { reveal_strlit("8"); }
        "8"
    } else {
        proof { reveal_strlit("9"); }
        "9"
    };
    assert(r@ =~= seq![digit_char(d as nat)]);
    r
}

/// Appends the decimal rendering of `n` to `s`.
pub(crate) fn push_decimal(s: &mut String, n: u128)
    ensures
        final(s)@ == old(s)@ + decimal_text(n as nat),
    decreases n,
{
    if n >= 10 {
        push_decimal(s, n / 10);
    }
    s.append(digit_str(n % 10));
    if n >= 10 {
        assert(final(s)@ =~= old(s)@ + decimal_text(n as nat));
    } else {
        assert(final(s)@ =~= old(s)@ + decimal_text(n as nat));
    }
}

/// Appends `whole.hundredths`, with two digits after the point, to `s`.
pub(crate) fn push_hundredths(s: &mut String, whole: u128, hundredths: u128)
    requires
        hundredths < 100,
    ensures
        final(s)@ == old(s)@ + hundredths_text(whole as nat, hundredths as nat),
{
    push_decimal(s, whole);
    s.append(".");
    s.append(digit_str(hundredths / 10));
    s.append(digit_str(hundredths % 10));
    assert(final(s)@ =~= old(s)@ + hundredths_text(whole as nat, hundredths as nat));
}

} // verus!
