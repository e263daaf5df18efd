//! Decimal rendering of small integers, used for the date strings and file
//! names that the library builds.

use vstd::prelude::*;

verus! {

/// The decimal digit character for `x`, which must lie in `0..10`.
pub open spec fn digit_char(x: int) -> char {
    if x == 0 {
        '0'
    } else if x == 1 {
        '1'
    } else if x == 2 {
        '2'
    } else if x == 3 {
        '3'
    } else if x == 4 {
        '4'
    } else if x == 5 {
        '5'
    } else if x == 6 {
        '6'
    } else if x == 7 {
        '7'
    } else if x == 8 {
        '8'
    } else {
        '9'
    }
}

/// Two-digit, zero-padded decimal representation of `x` (for `x < 100`).
pub open spec fn two_digits(x: int) -> Seq<char> {
    seq![digit_char(x / 10), digit_char(x % 10)]
}

/// Four-digit, zero-padded decimal representation of `x` (for `x < 10000`).
pub open spec fn four_digits(x: int) -> Seq<char> {
    seq![
        digit_char(x / 1000),
        digit_char((x / 100) % 10),
        digit_char((x / 10) % 10),
        digit_char(x % 10),
    ]
}

/// Unpadded decimal representation of `x` (for `x < 10000`).
pub open spec fn unpadded(x: int) -> Seq<char> {
    if x >= 1000 {
        four_digits(x)
    } else if x >= 100 {
        seq![digit_char(x / 100), digit_char((x / 10) % 10), digit_char(x % 10)]
    } else if x >= 10 {
        two_digits(x)
    } else {
        seq![digit_char(x)]
    }
}

/// Appends the single digit character for `x` to `s`.
pub fn push_digit(s: &mut String, x: u32)
    requires
        x < 10,
    ensures
        final(s)@ == old(s)@ + seq![digit_char(x as int)],
{
    proof {
        reveal_strlit("0");
        reveal_strlit("1");
        reveal_strlit("2");
        reveal_strlit("3");
        reveal_strlit("4");
        reveal_strlit("5");
        reveal_strlit("6");
        reveal_strlit("7");
        reveal_strlit("8");
        reveal_strlit("9");
    }
    if x == 0 {
        s.append("0");
    } else if x == 1 {
        s.append("1");
    } else if x == 2 {
        s.append("2");
    } else if x == 3 {
        s.append("3");
    } else if x == 4 {
        s.append("4");
    } else if x == 5 {
        s.append("5");
    } else if x == 6 {
        s.append("6");
    } else if x == 7 {
        s.append("7");
    } else if x == 8 {
        s.append("8");
    } else {
        s.append("9");
    }
    assert(s@ =~= old(s)@ + seq![digit_char(x as int)]);
}

/// Appends the two-digit, zero-padded representation of `x` to `s`.
pub fn push_two_digits(s: &mut String, x: u32)
    requires
        x < 100,
    ensures
        final(s)@ == old(s)@ + two_digits(x as int),
{
    push_digit(s, x / 10);
    push_digit(s, x % 10);
    assert(s@ =~= old(s)@ + two_digits(x as int));
}

/// Appends the four-digit, zero-padded representation of `x` to `s`.
pub fn push_four_digits(s: &mut String, x: u32)
    requires
        x < 10000,
    ensures
        final(s)@ == old(s)@ + four_digits(x as int),
{
    push_digit(s, x / 1000);
    push_digit(s, (x / 100) % 10);
    push_digit(s, (x / 10) % 10);
    push_digit(s, x % 10);
    assert(s@ =~= old(s)@ + four_digits(x as int));
}

/// Appends the unpadded decimal representation of `x` to `s`.
pub fn push_unpadded(s: &mut String, x: u32)
    requires
        x < 10000,
    ensures
        final(s)@ == old(s)@ + unpadded(x as int),
{
    if x >= 1000 {
        push_four_digits(s, x);
    } else if x >= 100 {
        push_digit(s, x / 100);
        push_digit(s, (x / 10) % 10);
        push_digit(s, x % 10);
    } else if x >= 10 {
        push_two_digits(s, x);
    } else {
        push_digit(s, x);
    }
    assert(s@ =~= old(s)@ + unpadded(x as int));
}

} // verus!
