//! Decimal text for quad sizes held in micro-units: the value
//! `micros / 1000000` printed the way a float displays, with no trailing
//! zeros and no fraction part when the value is whole.

use vstd::prelude::*;

verus! {

/// Micro-units per whole unit.
pub const MICROS_PER_UNIT: u64 = 1_000_000;

/// The decimal digits of `n >= 0`, most significant first, as ASCII bytes.
pub open spec fn decimal_digits(n: int) -> Seq<u8>
    decreases n,
{
    if n < 10 {
        seq![(48 + n) as u8]
    } else {
        decimal_digits(n / 10).push((48 + n % 10) as u8)
    }
}

/// The six fraction digits of `f` micro-units, zero-padded, as ASCII bytes.
pub open spec fn padded_fraction(f: int) -> Seq<u8> {
    seq![
        (48 + f / 100000 % 10) as u8,
        (48 + f / 10000 % 10) as u8,
        (48 + f / 1000 % 10) as u8,
        (48 + f / 100 % 10) as u8,
        (48 + f / 10 % 10) as u8,
        (48 + f % 10) as u8,
    ]
}

/// `s` with its trailing ASCII zeros removed.
pub open spec fn without_trailing_zeros(s: Seq<u8>) -> Seq<u8>
    decreases s.len(),
{
    if s.len() > 0 && s.last() == 48u8 {
        without_trailing_zeros(s.drop_last())
    } else {
        s
    }
}

/// The decimal text of `micros / 1000000`: the whole part's digits, and,
/// when the fraction is not zero, a point followed by the fraction's six
/// digits with trailing zeros removed.
pub open spec fn micros_text(micros: u64) -> Seq<u8> {
    let whole = micros as int / MICROS_PER_UNIT as int;
    let frac = micros as int % MICROS_PER_UNIT as int;
    if frac == 0 {
        decimal_digits(whole)
    } else {
        decimal_digits(whole) + seq![46u8] + without_trailing_zeros(padded_fraction(frac))
    }
}

/// Appends the decimal digits of `n` to `out`.
fn push_decimal_digits(n: u64, out: &mut Vec<u8>)
    ensures
        final(out)@ == old(out)@ + decimal_digits(n as int),
    decreases n,
{
    if n < 10 {
        out.push(48 + n as u8);
        proof {
            assert(out@ =~= old(out)@ + decimal_digits(n as int));
        }
    } else {
        push_decimal_digits(n / 10, out);
        out.push(48 + (n % 10) as u8);
        proof {
            assert(out@ =~= old(out)@ + decimal_digits(n as int));
        }
    }
}

/// Renders `micros / 1000000` as decimal text.
pub fn format_micros(micros: u64) -> (r: Vec<u8>)
    ensures
        r@ == micros_text(micros),
{
    let whole = micros / MICROS_PER_UNIT;
    let frac = micros % MICROS_PER_UNIT;
    let mut out: Vec<u8> = Vec::new();
    push_decimal_digits(whole, &mut out);
    if frac > 0 {
        out.push(46);
        let mut digits: Vec<u8> = Vec::new();
        digits.push(48 + (frac / 100000 % 10) as u8);
        digits.push(48 + (frac / 10000 % 10) as u8);
        digits.push(48 + (frac / 1000 % 10) as u8);
        digits.push(48 + (frac / 100 % 10) as u8);
        digits.push(48 + (frac / 10 % 10) as u8);
        digits.push(48 + (frac % 10) as u8);
        proof {
            assert(digits@ =~= padded_fraction(frac as int));
        }
        while digits.len() > 0 && digits[digits.len() - 1] == 48
            invariant
                without_trailing_zeros(digits@) == without_trailing_zeros(
                    padded_fraction(frac as int),
                ),
            decreases digits.len(),
        {
            let ghost before = digits@;
            digits.pop();
            proof {
                assert(digits@ == before.drop_last());
            }
        }
        proof {
            assert(without_trailing_zeros(digits@) == digits@);
        }
        out.append(&mut digits);
        proof {
            assert(out@ =~= micros_text(micros));
        }
    }
    out
}

} // verus!
