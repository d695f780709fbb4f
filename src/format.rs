//! Decimal rendering of line numbers.

use vstd::prelude::*;
use vstd::string::*;

verus! {

/// Width of the right-aligned field that holds a line number.
pub const NUMBER_WIDTH: usize = 6;

/// The character for a decimal digit.
pub open spec fn digit_char(d: nat) -> char {
    if d == 0 {
        '0'
    } else if d == 1 {
        '1'
    } else if d == 2 {
        '2'
    } else if d == 3 {
        '3'
    } else if d == 4 {
        '4'
    } else if d == 5 {
        '5'
    } else if d == 6 {
        '6'
    } else if d == 7 {
        '7'
    } else if d == 8 {
        '8'
    } else {
        '9'
    }
}

/// The decimal digits of `n`, most significant first, without leading zeros.
pub open spec fn decimal(n: nat) -> Seq<char>
    decreases n,
{
    if n < 10 {
        seq![digit_char(n)]
    } else {
        decimal(n / 10).push(digit_char(n % 10))
    }
}

/// `s` preceded by enough spaces to fill `width` characters.
pub open spec fn pad_left(s: Seq<char>, width: nat) -> Seq<char> {
    if s.len() < width {
        Seq::new((width - s.len()) as nat, |i: int| ' ') + s
    } else {
        s
    }
}

/// A line number as it appears in front of a numbered line.
pub open spec fn number_field(n: nat) -> Seq<char> {
    pad_left(decimal(n), NUMBER_WIDTH as nat)
}

fn digit_str(d: u64) -> (r: &'static str)
    requires
        d < 10,
    ensures
        r@ == seq![digit_char(d as nat)],
{
    proof {
        reveal_strlit("0");
        reveal_strlit("1");
        reveal_strlit("2");
        reveal_strlit("3");
        reveal_strlit("4");
        reveal_strlit("5");
        reveal_strlit("6");
        reveal_strlit("7");
        reveal_strlit("8");
        reveal_strlit("9");
    }
    match d {
        0 => "0",
        1 => "1",
        2 => "2",
        3 => "3",
        4 => "4",
        5 => "5",
        6 => "6",
        7 => "7",
        8 => "8",
        _ => "9",
    }
}

fn push_decimal(out: &mut String, n: u64)
    ensures
        final(out)@ == old(out)@ + decimal(n as nat),
    decreases n,
{
    if n < 10 {
        out.append(digit_str(n));
    } else {
        push_decimal(out, n / 10);
        out.append(digit_str(n % 10));
        assert(final(out)@ =~= old(out)@ + decimal(n as nat));
    }
}

/// Renders `n` in decimal, right-aligned in a field of `NUMBER_WIDTH` characters.
pub fn format_number(n: u64) -> (r: String)
    ensures
        r@ == number_field(n as nat),
{
    let mut digits = String::new();
    push_decimal(&mut digits, n);
    let len = digits.as_str().unicode_len();
    let mut r = String::new();
    let mut i: usize = len;
    while i < NUMBER_WIDTH
        invariant
            len <= i <= NUMBER_WIDTH || (len == i && i >= NUMBER_WIDTH),
            len == digits@.len(),
            r@ == Seq::new((i - len) as nat, |j: int| ' '),
        decreases NUMBER_WIDTH - i,
    {
        r.append(" ");
        proof {
            reveal_strlit(" ");
        }
        assert(r@ =~= Seq::new((i + 1 - len) as nat, |j: int| ' '));
        i = i + 1;
    }
    r.append(digits.as_str());
    assert(r@ =~= number_field(n as nat));
    r
}

} // verus!
