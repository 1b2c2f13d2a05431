//! Decimal rendering of the integer ids that the wire schema carries.

use vstd::prelude::*;

verus! {

/// The decimal digit character for `d`, which should lie in `0 ..= 9`.
pub open spec fn digit_char(d: int) -> char {
    if d == 0 {
        '0'
    } else if d == 1 {
        '1'
    } else if d == 2 {
        '2'
    } else if d == 3 {
        '3'
    } else if d == 4 {
        '4'
    } else if d == 5 {
        '5'
    } else if d == 6 {
        '6'
    } else if d == 7 {
        '7'
    } else if d == 8 {
        '8'
    } else {
        '9'
    }
}

/// The decimal digits of `n` without a leading zero; empty when `n <= 0`.
pub open spec fn decimal_digits(n: int) -> Seq<char>
    decreases n,
{
    if n <= 0 {
        Seq::empty()
    } else {
        decimal_digits(n / 10).push(digit_char(n % 10))
    }
}

/// The usual decimal rendering of `n`: `"0"` for zero, a leading `-` when negative.
pub open spec fn decimal_of(n: int) -> Seq<char> {
    if n == 0 {
        seq!['0']
    } else if n < 0 {
        seq!['-'] + decimal_digits(-n)
    } else {
        decimal_digits(n)
    }
}

/// Relies on std's `String::push`: appends the given character at the end.
pub assume_specification[ String::push ](s: &mut String, c: char)
    ensures
        final(s)@ == old(s)@.push(c),
;

fn digit_to_char(d: u32) -> (c: char)
    requires
        d < 10,
    ensures
        c == digit_char(d as int),
{
    match d {
        0 => '0',
        1 => '1',
        2 => '2',
        3 => '3',
        4 => '4',
        5 => '5',
        6 => '6',
        7 => '7',
        8 => '8',
        _ => '9',
    }
}

fn push_decimal_digits(s: &mut String, n: u32)
    ensures
        final(s)@ == old(s)@ + decimal_digits(n as int),
    decreases n,
{
    if n > 0 {
        push_decimal_digits(s, n / 10);
        let c = digit_to_char(n % 10);
        s.push(c);
        proof {
            assert(s@ =~= old(s)@ + decimal_digits(n as int));
        }
    } else {
        proof {
            assert(s@ =~= old(s)@ + decimal_digits(0));
        }
    }
}

/// Renders `n` in decimal, exactly as `decimal_of` states it.
pub fn i32_to_string(n: i32) -> (s: String)
    ensures
        s@ == decimal_of(n as int),
{
    let mut s = String::new();
    if n == 0 {
        s.push('0');
        proof {
            assert(s@ =~= decimal_of(0));
        }
    } else if n < 0 {
        s.push('-');
        let m: u32 = (-(n as i64)) as u32;
        proof {
            assert(m as int == -(n as int));
        }
        push_decimal_digits(&mut s, m);
        proof {
            assert(s@ =~= decimal_of(n as int));
        }
    } else {
        push_decimal_digits(&mut s, n as u32);
        proof {
            assert(s@ =~= decimal_of(n as int));
        }
    }
    s
}

} // verus!
