use vstd::prelude::*;

verus! {

/// The ASCII digit for `d` (which is below ten).
pub open spec fn digit_char(d: int) -> char {
    ((d + 48) as u8) as char
}

/// Decimal digits of `n`, most significant first, without leading zeros.
pub open spec fn digits_of(n: nat) -> Seq<char>
    decreases n,
{
    if n < 10 {
        seq![digit_char(n as int)]
    } else {
        digits_of(n / 10).push(digit_char((n % 10) as int))
    }
}

/// The fraction part of a value of `r` thousandths (`r < 1000`): empty for
/// zero, else a point followed by the digits without trailing zeros.
pub open spec fn fraction_text(r: int) -> Seq<char> {
    if r == 0 {
        seq![]
    } else if r % 100 == 0 {
        seq!['.', digit_char(r / 100)]
    } else if r % 10 == 0 {
        seq!['.', digit_char(r / 100), digit_char((r / 10) % 10)]
    } else {
        seq!['.', digit_char(r / 100), digit_char((r / 10) % 10), digit_char(r % 10)]
    }
}

pub open spec fn abs(v: int) -> int {
    if v < 0 {
        -v
    } else {
        v
    }
}

/// The shortest decimal text of `v` thousandths: a minus sign for negative
/// values, the integer part, and the fraction digits that are not zero.
pub open spec fn decimal_text(v: int) -> Seq<char> {
    let sign: Seq<char> = if v < 0 {
        seq!['-']
    } else {
        seq![]
    };
    sign + digits_of((abs(v) / 1000) as nat) + fraction_text(abs(v) % 1000)
}

fn digit(d: u64) -> (c: char)
    requires
        d < 10,
    ensures
        c == digit_char(d as int),
{
    ((d as u8) + 48u8) as char
}

/// Appends the decimal digits of `n`.
pub fn push_digits(out: &mut Vec<char>, n: u64)
    ensures
        final(out)@ == old(out)@ + digits_of(n as nat),
    decreases n,
{
    if n >= 10 {
        push_digits(out, n / 10);
    }
    out.push(digit(n % 10));
    proof {
        assert(final(out)@ =~= old(out)@ + digits_of(n as nat));
    }
}

/// Appends the shortest decimal text of `v` thousandths.
pub fn push_decimal(out: &mut Vec<char>, v: i64)
    ensures
        final(out)@ == old(out)@ + decimal_text(v as int),
{
    let a: u64 = if v < 0 {
        out.push('-');
        (0i128 - (v as i128)) as u64
    } else {
        v as u64
    };
    let ghost with_sign = out@;
    push_digits(out, a / 1000);
    let r: u64 = a % 1000;
    if r != 0 {
        out.push('.');
        out.push(digit(r / 100));
        if r % 100 != 0 {
            out.push(digit((r / 10) % 10));
            if r % 10 != 0 {
                out.push(digit(r % 10));
            }
        }
    }
    assert(out@ =~= old(out)@ + decimal_text(v as int));
}

} // verus!
