//! Decimal rendering of the integer parameter values handed to a custom
//! script, proved to produce exactly the usual digit string.

use vstd::prelude::*;

verus! {

/// The digit character for a value below ten.
pub open spec fn spec_digit(d: int) -> char
    recommends
        0 <= d < 10,
{
    if d == 0 {
        '0'
    } else if d == 1 {
        '1'
    } else if d == 2 {
        '2'
    } else if d == 3 {
        '3'
    } else if d == 4 {
        '4'
    } else if d == 5 {
        '5'
    } else if d == 6 {
        '6'
    } else if d == 7 {
        '7'
    } else if d == 8 {
        '8'
    } else {
        '9'
    }
}

/// The decimal digit string of a non-negative value, most significant digit
/// first and without leading zeroes (a single `0` for zero).
pub open spec fn spec_nat_digits(n: int) -> Seq<char>
    recommends
        n >= 0,
    decreases n,
{
    if n < 10 {
        seq![spec_digit(n)]
    } else {
        spec_nat_digits(n / 10).push(spec_digit(n % 10))
    }
}

/// The decimal rendering of a signed value: a minus sign before the digit
/// string of its magnitude, as integer-to-string conversion renders it.
pub open spec fn spec_int_digits(v: int) -> Seq<char> {
    if v < 0 {
        seq!['-'] + spec_nat_digits(-v)
    } else {
        spec_nat_digits(v)
    }
}

/// Append the digit character of a value below ten.
fn push_digit(out: &mut String, d: u64)
    requires
        d < 10,
    ensures
        final(out)@ == old(out)@.push(spec_digit(d as int)),
{
    proof {
        reveal_strlit("0");
        reveal_strlit("1");
        reveal_strlit("2");
        reveal_strlit("3");
        reveal_strlit("4");
        reveal_strlit("5");
        reveal_strlit("6");
        reveal_strlit("7");
        reveal_strlit("8");
        reveal_strlit("9");
    }
    if d == 0 {
        out.append("0");
    } else if d == 1 {
        out.append("1");
    } else if d == 2 {
        out.append("2");
    } else if d == 3 {
        out.append("3");
    } else if d == 4 {
        out.append("4");
    } else if d == 5 {
        out.append("5");
    } else if d == 6 {
        out.append("6");
    } else if d == 7 {
        out.append("7");
    } else if d == 8 {
        out.append("8");
    } else {
        out.append("9");
    }
    proof {
        assert(final(out)@ =~= old(out)@.push(spec_digit(d as int)));
    }
}

/// Append the decimal digits of `n`, most significant first.
fn push_nat_digits(out: &mut String, n: u64)
    ensures
        final(out)@ == old(out)@ + spec_nat_digits(n as int),
    decreases n,
{
    if n >= 10 {
        push_nat_digits(out, n / 10);
        push_digit(out, n % 10);
    } else {
        push_digit(out, n);
    }
    proof {
        assert(final(out)@ =~= old(out)@ + spec_nat_digits(n as int));
    }
}

/// Render a signed value in decimal, exactly as integer-to-string conversion
/// does.
pub fn int_to_text(v: i64) -> (r: String)
    ensures
        r@ == spec_int_digits(v as int),
{
    let mut out = String::new();
    if v < 0 {
        proof {
            reveal_strlit("-");
        }
        out.append("-");
        // The magnitude of the most negative value does not fit in `i64`, so
        // it is spelled out in `u64`.
        let magnitude: u64 = if v == i64::MIN {
            9223372036854775808u64
        } else {
            (-v) as u64
        };
        assert(magnitude == -(v as int));
        push_nat_digits(&mut out, magnitude);
        proof {
            assert(out@ =~= spec_int_digits(v as int));
        }
    } else {
        push_nat_digits(&mut out, v as u64);
        proof {
            assert(out@ =~= spec_int_digits(v as int));
        }
    }
    out
}

} // verus!
