//! Decimal text: the canonical textual rendering of the integers and booleans
//! that the argument flattener and the table parser stringify.

use vstd::prelude::*;

verus! {

/// The decimal digits of `n`, most significant first.
pub open spec fn spec_digits(n: nat) -> Seq<char>
    decreases n,
{
    if n < 10 {
        seq![spec_digit_char(n)]
    } else {
        spec_digits(n / 10).push(spec_digit_char(n % 10))
    }
}

/// The character for one decimal digit.
pub open spec fn spec_digit_char(d: nat) -> char {
    if d == 0 {
        '0'
    } else if d == 1 {
        '1'
    } else if d == 2 {
        '2'
    } else if d == 3 {
        '3'
    } else if d == 4 {
        '4'
    } else if d == 5 {
        '5'
    } else if d == 6 {
        '6'
    } else if d == 7 {
        '7'
    } else if d == 8 {
        '8'
    } else {
        '9'
    }
}

/// The decimal text of `i`: a minus sign for negative values, then the digits.
pub open spec fn spec_int_text(i: int) -> Seq<char> {
    if i < 0 {
        seq!['-'] + spec_digits((-i) as nat)
    } else {
        spec_digits(i as nat)
    }
}

/// The text `true` or `false`.
pub open spec fn spec_bool_text(b: bool) -> Seq<char> {
    if b {
        "true"@
    } else {
        "false"@
    }
}

/// Appends the character for the decimal digit `d` to `s`.
fn push_digit_char(d: u64, s: &mut String)
    requires
        d < 10,
    ensures
        final(s)@ == old(s)@ + seq![spec_digit_char(d as nat)],
{
    proof {
        reveal_strlit("0");
        reveal_strlit("1");
        reveal_strlit("2");
        reveal_strlit("3");
        reveal_strlit("4");
        reveal_strlit("5");
        reveal_strlit("6");
        reveal_strlit("7");
        reveal_strlit("8");
        reveal_strlit("9");
    }
    if d == 0 {
        s.append("0");
    } else if d == 1 {
        s.append("1");
    } else if d == 2 {
        s.append("2");
    } else if d == 3 {
        s.append("3");
    } else if d == 4 {
        s.append("4");
    } else if d == 5 {
        s.append("5");
    } else if d == 6 {
        s.append("6");
    } else if d == 7 {
        s.append("7");
    } else if d == 8 {
        s.append("8");
    } else {
        s.append("9");
    }
    proof {
        assert(final(s)@ =~= old(s)@ + seq![spec_digit_char(d as nat)]);
    }
}

/// Appends the decimal digits of `n` to `s`, most significant first.
fn push_decimal_digits(n: u64, s: &mut String)
    ensures
        final(s)@ == old(s)@ + spec_digits(n as nat),
    decreases n,
{
    if n >= 10 {
        push_decimal_digits(n / 10, s);
    }
    push_digit_char(n % 10, s);
    proof {
        assert(final(s)@ =~= old(s)@ + spec_digits(n as nat));
    }
}

/// The decimal text of `n`.
pub fn u64_to_decimal(n: u64) -> (s: String)
    ensures
        s@ == spec_digits(n as nat),
{
    let mut s = String::new();
    push_decimal_digits(n, &mut s);
    proof {
        assert(s@ =~= spec_digits(n as nat));
    }
    s
}

/// The decimal text of `i`, with a leading minus sign when `i` is negative.
pub fn i64_to_decimal(i: i64) -> (s: String)
    ensures
        s@ == spec_int_text(i as int),
{
    if i >= 0 {
        u64_to_decimal(i as u64)
    } else {
        let mag: u64 = (-(i as i128)) as u64;
        assert(mag as nat == (-(i as int)) as nat);
        let mut s = String::from_str("-");
        proof {
            reveal_strlit("-");
        }
        push_decimal_digits(mag, &mut s);
        proof {
            assert(s@ =~= spec_int_text(i as int));
        }
        s
    }
}

/// The text `true` or `false`.
pub fn bool_to_text(b: bool) -> (s: String)
    ensures
        s@ == spec_bool_text(b),
{
    if b {
        String::from_str("true")
    } else {
        String::from_str("false")
    }
}

} // verus!
