//! Decimal rendering of unsigned integers, used for event tags and the
//! system diagnostic string.

use vstd::prelude::*;

verus! {

/// The character for one decimal digit.
pub open spec fn digit_char(d: nat) -> char {
    if d == 0 {
        '0'
    } else if d == 1 {
        '1'
    } else if d == 2 {
        '2'
    } else if d == 3 {
        '3'
    } else if d == 4 {
        '4'
    } else if d == 5 {
        '5'
    } else if d == 6 {
        '6'
    } else if d == 7 {
        '7'
    } else if d == 8 {
        '8'
    } else {
        '9'
    }
}

/// The usual decimal numeral of `n`: no leading zeros, and `0` for zero.
pub open spec fn spec_decimal(n: nat) -> Seq<char>
    decreases n,
{
    if n < 10 {
        seq![digit_char(n)]
    } else {
        spec_decimal(n / 10) + seq![digit_char(n % 10)]
    }
}

/// Appends the character of the single digit `d` to `s`.
fn append_digit(d: u64, s: &mut String)
    requires
        d < 10,
    ensures
        final(s)@ == old(s)@ + seq![digit_char(d as nat)],
{
    if d == 0 {
        proof { reveal_strlit("0"); }
        s.append("0");
    } else if d == 1 {
        proof { reveal_strlit("1"); }
        s.append("1");
    } else if d == 2 {
        proof { reveal_strlit("2"); }
        s.append("2");
    } else if d == 3 {
        proof { reveal_strlit("3"); }
        s.append("3");
    } else if d == 4 {
        proof { reveal_strlit("4"); }
        s.append("4");
    } else if d == 5 {
        proof { reveal_strlit("5"); }
        s.append("5");
    } else if d == 6 {
        proof { reveal_strlit("6"); }
        s.append("6");
    } else if d == 7 {
        proof { reveal_strlit("7"); }
        s.append("7");
    } else if d == 8 {
        proof { reveal_strlit("8"); }
        s.append("8");
    } else {
        proof { reveal_strlit("9"); }
        s.append("9");
    }
    proof {
        assert(s@ =~= old(s)@ + seq![digit_char(d as nat)]);
    }
}

/// Appends the decimal numeral of `n` to `s`.
pub fn append_decimal(n: u64, s: &mut String)
    ensures
        final(s)@ == old(s)@ + spec_decimal(n as nat),
    decreases n,
{
    if n >= 10 {
        append_decimal(n / 10, s);
    }
    append_digit(n % 10, s);
    proof {
        assert(s@ =~= old(s)@ + spec_decimal(n as nat));
    }
}

/// The decimal numeral of `n` as a fresh string.
pub fn decimal_string(n: u64) -> (s: String)
    ensures
        s@ == spec_decimal(n as nat),
{
    let mut s = String::new();
    append_decimal(n, &mut s);
    proof {
        assert(s@ =~= spec_decimal(n as nat));
    }
    s
}

} // verus!
