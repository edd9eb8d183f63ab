use vstd::prelude::*;

use crate::geometry::{
    calc_point, plot_value, pow10, power_of_ten, round_div, scaled_value, DeviceCoord, Point,
    MANTISSA_LIMIT,
};
use crate::number::abs;
use crate::text::chars_of;

verus! {

/// Whether a character has one of Unicode's numeric general categories.
pub uninterp spec fn char_is_numeric(c: char) -> bool;

/// Relies on `char::is_numeric`: Unicode's numeric general categories, of
/// which the ASCII characters hold only the digits `0` to `9`.
#[verifier::external_body]
fn is_numeric(c: char) -> (r: bool)
    ensures
        r == char_is_numeric(c),
        (c as u32) < 128 ==> (r <==> ('0' <= c && c <= '9')),
{
    c.is_numeric()
}

/// The pieces of `s` between commas, as `str::split(',')` gives them.
pub open spec fn split_commas(s: Seq<char>) -> Seq<Seq<char>>
    decreases s.len(),
{
    if s.len() == 0 {
        seq![seq![]]
    } else {
        let rest = split_commas(s.drop_last());
        if s.last() == ',' {
            rest.push(seq![])
        } else {
            rest.update(rest.len() - 1, rest.last().push(s.last()))
        }
    }
}

/// Characters that trimming keeps at the ends of a token.
pub open spec fn is_kept(c: char) -> bool {
    char_is_numeric(c) || c == '-'
}

pub open spec fn trim_start(t: Seq<char>) -> Seq<char>
    decreases t.len(),
{
    if t.len() > 0 && !is_kept(t[0]) {
        trim_start(t.drop_first())
    } else {
        t
    }
}

pub open spec fn trim_end(t: Seq<char>) -> Seq<char>
    decreases t.len(),
{
    if t.len() > 0 && !is_kept(t.last()) {
        trim_end(t.drop_last())
    } else {
        t
    }
}

/// A token without the characters at either end that are neither numeric
/// nor a minus sign.
pub open spec fn trimmed(t: Seq<char>) -> Seq<char> {
    trim_end(trim_start(t))
}

pub open spec fn is_digit(c: char) -> bool {
    '0' <= c && c <= '9'
}

/// Bound above which a run of exponent digits is held at the bound: past
/// it every numeral is far outside the plot range or rounds to zero.
pub const EXPONENT_CAP: i128 = 1_000_000_000_000_000_000_000_000_000_000;

/// The part of a numeral that a scan has reached.
#[derive(Clone, Copy, Debug, PartialEq, Eq, Structural)]
pub enum NumeralPart {
    Integer,
    Fraction,
    ExponentMark,
    ExponentSign,
    ExponentDigits,
}

/// The state of reading an unsigned numeral. Its value so far is
/// `significand * 10^shift`, with `kept` significant digits; `digits` says
/// whether a digit of the mantissa was read; `exponent` is the value of the
/// exponent digits; `ok` says whether the text still forms a numeral.
pub struct NumeralScan {
    pub significand: int,
    pub kept: nat,
    pub shift: int,
    pub digits: bool,
    pub part: NumeralPart,
    pub exponent: int,
    pub exponent_negative: bool,
    pub ok: bool,
}

pub open spec fn digit_value(c: char) -> int {
    c as int - 48
}

/// Reads one more character of a numeral: digits with at most one decimal
/// point, then optionally `e` or `E`, a sign and exponent digits. Zeros
/// before the first significant digit only move the point; digits after
/// the seventeenth significant one are dropped.
pub open spec fn scan_step(s: NumeralScan, c: char) -> NumeralScan {
    if !s.ok {
        s
    } else if s.part == NumeralPart::Integer || s.part == NumeralPart::Fraction {
        let fraction = s.part == NumeralPart::Fraction;
        if is_digit(c) {
            if s.kept == 0 && c == '0' {
                NumeralScan {
                    digits: true,
                    shift: if fraction {
                        s.shift - 1
                    } else {
                        s.shift
                    },
                    ..s
                }
            } else if s.kept < 17 {
                NumeralScan {
                    significand: 10 * s.significand + digit_value(c),
                    kept: s.kept + 1,
                    digits: true,
                    shift: if fraction {
                        s.shift - 1
                    } else {
                        s.shift
                    },
                    ..s
                }
            } else {
                NumeralScan {
                    digits: true,
                    shift: if fraction {
                        s.shift
                    } else {
                        s.shift + 1
                    },
                    ..s
                }
            }
        } else if c == '.' && !fraction {
            NumeralScan { part: NumeralPart::Fraction, ..s }
        } else if (c == 'e' || c == 'E') && s.digits {
            NumeralScan { part: NumeralPart::ExponentMark, ..s }
        } else {
            NumeralScan { ok: false, ..s }
        }
    } else if is_digit(c) {
        NumeralScan {
            part: NumeralPart::ExponentDigits,
            exponent: 10 * s.exponent + digit_value(c),
            ..s
        }
    } else if s.part == NumeralPart::ExponentMark && (c == '+' || c == '-') {
        NumeralScan { part: NumeralPart::ExponentSign, exponent_negative: c == '-', ..s }
    } else {
        NumeralScan { ok: false, ..s }
    }
}

/// The scan of the first `n` characters of `b`.
pub open spec fn scan(b: Seq<char>, n: nat) -> NumeralScan
    decreases n,
{
    if n == 0 {
        NumeralScan {
            significand: 0,
            kept: 0,
            shift: 0,
            digits: false,
            part: NumeralPart::Integer,
            exponent: 0,
            exponent_negative: false,
            ok: true,
        }
    } else {
        scan_step(scan(b, (n - 1) as nat), b[n - 1])
    }
}

/// A trimmed token as `(mantissa, exponent)`, its value being
/// `mantissa * 10^exponent`: an optional minus sign and a complete numeral;
/// `None` for anything else.
pub open spec fn token_numeral(t: Seq<char>) -> Option<(int, int)> {
    let neg = t.len() > 0 && t[0] == '-';
    let body = if neg {
        t.drop_first()
    } else {
        t
    };
    let s = scan(body, body.len());
    if s.ok && s.digits && s.part != NumeralPart::ExponentMark && s.part
        != NumeralPart::ExponentSign {
        Some(
            (
                if neg {
                    -s.significand
                } else {
                    s.significand
                },
                s.shift + if s.exponent_negative {
                    -s.exponent
                } else {
                    s.exponent
                },
            ),
        )
    } else {
        None
    }
}

/// The plot value, in thousandths, of a trimmed token. A token that is not
/// a numeral, or whose magnitude reaches `10^17` device units, reads as zero.
pub open spec fn token_plot(t: Seq<char>) -> int {
    match token_numeral(t) {
        None => 0,
        Some((m, e)) => if e >= 0 && abs(m) * pow10(e as nat) >= MANTISSA_LIMIT {
            0
        } else {
            scaled_value(m, e)
        },
    }
}

/// The plot values of the coordinates that a subset's text lists.
pub open spec fn coordinate_plots(coordinates: Seq<char>) -> Seq<int> {
    split_commas(coordinates).map_values(|t: Seq<char>| token_plot(trimmed(t)))
}

proof fn lemma_scan_bounds(b: Seq<char>, n: nat)
    requires
        n <= b.len(),
    ensures
        0 <= scan(b, n).significand < pow10(scan(b, n).kept),
        scan(b, n).kept <= 17,
        -(n as int) <= scan(b, n).shift <= n,
        scan(b, n).exponent >= 0,
        scan(b, n).kept > 0 ==> scan(b, n).digits,
    decreases n,
{
    if n > 0 {
        lemma_scan_bounds(b, (n - 1) as nat);
        let s = scan(b, (n - 1) as nat);
        let c = b[n - 1];
        if s.ok && (s.part == NumeralPart::Integer || s.part == NumeralPart::Fraction) && is_digit(c)
            && !(s.kept == 0 && c == '0') && s.kept < 17 {
            assert(10 * s.significand + digit_value(c) < pow10(s.kept + 1)) by {
                assert(pow10(s.kept + 1) == 10 * pow10(s.kept));
            }
        }
    }
}

/// `round_div(n, d)` is zero where `d` exceeds twice the magnitude of `n`.
proof fn lemma_round_div_small(n: int, d: int)
    requires
        d > 2 * abs(n),
    ensures
        round_div(n, d) == 0,
{
    if n >= 0 {
        assert((2 * n + d) / (2 * d) == 0) by (nonlinear_arith)
            requires
                0 <= 2 * n + d < 2 * d,
        {};
    } else {
        assert((-2 * n + d) / (2 * d) == 0) by (nonlinear_arith)
            requires
                0 <= -2 * n + d < 2 * d,
        {};
    }
}

fn is_kept_exec(c: char) -> (r: bool)
    ensures
        r == is_kept(c),
{
    c == '-' || is_numeric(c)
}

/// `t` without the characters at either end that are neither numeric nor
/// a minus sign.
pub fn trim_token(t: &Vec<char>) -> (r: Vec<char>)
    ensures
        r@ == trimmed(t@),
{
    let mut start: usize = 0;
    assert(t@.subrange(0, t@.len() as int) =~= t@);
    while start < t.len() && !is_kept_exec(t[start])
        invariant
            start <= t@.len(),
            trim_start(t@) == trim_start(t@.subrange(start as int, t@.len() as int)),
        decreases t.len() - start,
    {
        let ghost rest = t@.subrange(start as int, t@.len() as int);
        assert(rest.drop_first() =~= t@.subrange(start + 1, t@.len() as int));
        start = start + 1;
    }
    let ghost front = t@.subrange(start as int, t@.len() as int);
    assert(trim_start(front) == front);
    let mut end: usize = t.len();
    while end > start && !is_kept_exec(t[end - 1])
        invariant
            start <= end <= t@.len(),
            trim_start(t@) == front,
            front == t@.subrange(start as int, t@.len() as int),
            trim_end(front) == trim_end(t@.subrange(start as int, end as int)),
        decreases end - start,
    {
        let ghost rest = t@.subrange(start as int, end as int);
        assert(rest.drop_last() =~= t@.subrange(start as int, end - 1));
        end = end - 1;
    }
    let mut r: Vec<char> = Vec::new();
    let mut i: usize = start;
    while i < end
        invariant
            start <= i <= end <= t@.len(),
            r@ == t@.subrange(start as int, i as int),
        decreases end - i,
    {
        r.push(t[i]);
        assert(r@ =~= t@.subrange(start as int, i + 1));
        i = i + 1;
    }
    r
}

/// Reads a trimmed token as a device coordinate with the token's plot
/// value: an optional minus sign and a numeral with an optional decimal
/// point and exponent. Anything else, and any magnitude of `10^17` device
/// units or more, reads as zero.
pub fn read_token(t: &Vec<char>) -> (c: DeviceCoord)
    ensures
        plot_value(c) == token_plot(t@),
        c.wf(),
{
    let zero = DeviceCoord { mantissa: 0, exponent: 0 };
    assert(plot_value(zero) == 0) by {
        assert(pow10(0) == 1);
    }
    let neg = t.len() > 0 && t[0] == '-';
    let first: usize = if neg {
        1
    } else {
        0
    };
    let ghost body = t@.subrange(first as int, t@.len() as int);
    assert(body =~= (if neg {
        t@.drop_first()
    } else {
        t@
    }));
    let mut significand: i64 = 0;
    let mut kept: u32 = 0;
    let mut shift: i128 = 0;
    let mut digits = false;
    let mut part = NumeralPart::Integer;
    let mut exponent: i128 = 0;
    let mut exponent_negative = false;
    let mut ok = true;
    let mut i: usize = first;
    while i < t.len()
        invariant
            first <= i <= t@.len(),
            body == t@.subrange(first as int, t@.len() as int),
            ({
                let s = scan(body, (i - first) as nat);
                &&& s.significand == significand
                &&& s.kept == kept
                &&& s.shift == shift
                &&& s.digits == digits
                &&& s.part == part
                &&& s.exponent_negative == exponent_negative
                &&& s.ok == ok
                &&& exponent == if s.exponent > EXPONENT_CAP {
                    EXPONENT_CAP as int
                } else {
                    s.exponent
                }
            }),
        decreases t.len() - i,
    {
        proof {
            lemma_scan_bounds(body, (i - first) as nat);
            if kept <= 16 {
                crate::geometry::lemma_pow10_monotonic(kept as nat, 16);
            }
            reveal_with_fuel(pow10, 18);
        }
        let c = t[i];
        assert(c == body[(i + 1 - first) - 1]);
        let is_digit_char = '0' <= c && c <= '9';
        if !ok {
        } else if part == NumeralPart::Integer || part == NumeralPart::Fraction {
            let fraction = part == NumeralPart::Fraction;
            if is_digit_char {
                if kept == 0 && c == '0' {
                    if fraction {
                        shift = shift - 1;
                    }
                } else if kept < 17 {
                    significand = 10 * significand + (c as i64 - 48);
                    kept = kept + 1;
                    if fraction {
                        shift = shift - 1;
                    }
                } else if !fraction {
                    shift = shift + 1;
                }
                digits = true;
            } else if c == '.' && !fraction {
                part = NumeralPart::Fraction;
            } else if (c == 'e' || c == 'E') && digits {
                part = NumeralPart::ExponentMark;
            } else {
                ok = false;
            }
        } else if is_digit_char {
            part = NumeralPart::ExponentDigits;
            let next: i128 = 10 * exponent + (c as i128 - 48);
            exponent = if next > EXPONENT_CAP {
                EXPONENT_CAP
            } else {
                next
            };
        } else if part == NumeralPart::ExponentMark && (c == '+' || c == '-') {
            part = NumeralPart::ExponentSign;
            exponent_negative = c == '-';
        } else {
            ok = false;
        }
        i = i + 1;
    }
    proof {
        lemma_scan_bounds(body, body.len());
    }
    let ghost s = scan(body, body.len());
    assert(body.len() == t@.len() - first);
    if !(ok && digits && part != NumeralPart::ExponentMark && part != NumeralPart::ExponentSign)
        || significand == 0 {
        proof {
            if token_numeral(t@) is Some {
                let e = token_numeral(t@)->Some_0.1;
                assert(token_numeral(t@)->Some_0.0 == 0);
                if e < 0 {
                    crate::geometry::lemma_pow10_positive((-e) as nat);
                    lemma_round_div_small(0, pow10((-e) as nat));
                }
            }
        }
        return zero;
    }
    let mantissa: i64 = if neg {
        -significand
    } else {
        significand
    };
    let e: i128 = if exponent_negative {
        shift - exponent
    } else {
        shift + exponent
    };
    let ghost spec_e = token_numeral(t@)->Some_0.1;
    assert(token_numeral(t@)->Some_0.0 == mantissa);
    assert(abs(mantissa as int) >= 1);
    assert(abs(mantissa as int) < MANTISSA_LIMIT) by {
        crate::geometry::lemma_pow10_monotonic(kept as nat, 17);
        reveal_with_fuel(pow10, 18);
    }
    if e > 17 {
        proof {
            assert(spec_e >= e);
            crate::geometry::lemma_pow10_monotonic(17, spec_e as nat);
            reveal_with_fuel(pow10, 18);
            assert(abs(mantissa as int) * pow10(spec_e as nat) >= pow10(spec_e as nat))
                by (nonlinear_arith)
                requires
                    abs(mantissa as int) >= 1,
                    pow10(spec_e as nat) >= 1,
            ;
        }
        return zero;
    }
    if e < -19 {
        proof {
            assert(spec_e <= e);
            crate::geometry::lemma_pow10_monotonic(20, (-spec_e) as nat);
            reveal_with_fuel(pow10, 21);
            lemma_round_div_small(mantissa * 20, pow10((-spec_e) as nat));
        }
        return zero;
    }
    assert(spec_e == e);
    if e >= 0 {
        let f = power_of_ten(e as u32);
        let magnitude: i128 = if mantissa < 0 {
            0 - mantissa as i128
        } else {
            mantissa as i128
        };
        assert(magnitude * f <= 100_000_000_000_000_000 * 10_000_000_000_000_000_000)
            by (nonlinear_arith)
            requires
                0 <= magnitude < 100_000_000_000_000_000,
                1 <= f <= 10_000_000_000_000_000_000,
        {};
        if magnitude * f >= MANTISSA_LIMIT as i128 {
            return zero;
        }
    }
    DeviceCoord { mantissa, exponent: e as i32 }
}

/// The device coordinates listed in a subset's coordinate text, one per
/// comma-separated token; a token that is not a numeral reads as zero.
pub fn parse_coordinates(coordinates: &str) -> (r: Vec<DeviceCoord>)
    ensures
        r@.len() == coordinate_plots(coordinates@).len(),
        forall|k: int|
            0 <= k < r@.len() ==> plot_value(#[trigger] r@[k]) == coordinate_plots(coordinates@)[k],
        forall|k: int| 0 <= k < r@.len() ==> (#[trigger] r@[k]).wf(),
{
    let chars = chars_of(coordinates);
    let mut values: Vec<DeviceCoord> = Vec::new();
    let mut cur: Vec<char> = Vec::new();
    let ghost mut done: Seq<Seq<char>> = seq![];
    for i in 0..chars.len()
        invariant
            chars@ == coordinates@,
            split_commas(chars@.subrange(0, i as int)) == done.push(cur@),
            values@.len() == done.len(),
            forall|k: int|
                0 <= k < values@.len() ==> plot_value(#[trigger] values@[k]) == token_plot(
                    trimmed(done[k]),
                ),
            forall|k: int| 0 <= k < values@.len() ==> (#[trigger] values@[k]).wf(),
    {
        let c = chars[i];
        assert(chars@.subrange(0, i + 1).drop_last() =~= chars@.subrange(0, i as int));
        if c == ',' {
            let token = trim_token(&cur);
            values.push(read_token(&token));
            proof {
                done = done.push(cur@);
            }
            cur = Vec::new();
            assert(split_commas(chars@.subrange(0, i + 1)) =~= done.push(cur@));
        } else {
            cur.push(c);
            assert(split_commas(chars@.subrange(0, i + 1)) =~= done.push(cur@));
        }
    }
    let token = trim_token(&cur);
    values.push(read_token(&token));
    proof {
        done = done.push(cur@);
        assert(chars@.subrange(0, chars@.len() as int) =~= chars@);
        assert(coordinate_plots(coordinates@) =~= done.map_values(
            |t: Seq<char>| token_plot(trimmed(t)),
        ));
    }
    values
}

/// The plot points of a subset: consecutive coordinates taken in pairs as
/// `(x, y)`; a last coordinate without a partner is left out.
pub open spec fn subset_plot_points(coordinates: Seq<char>) -> Seq<Point> {
    let values = coordinate_plots(coordinates);
    Seq::new(
        (values.len() / 2) as nat,
        |k: int|
            Point {
                x: values[2 * k] as i64,
                y: (-values[2 * k + 1]) as i64,
                connected: true,
            },
    )
}

/// The plot points that a subset's coordinate text describes.
pub fn subset_points(coordinates: &str) -> (r: Vec<Point>)
    ensures
        r@ == subset_plot_points(coordinates@),
        forall|k: int| 0 <= k < r@.len() ==> (#[trigger] r@[k]).wf(),
{
    let values = parse_coordinates(coordinates);
    let ghost spec_values = coordinate_plots(coordinates@);
    let mut points: Vec<Point> = Vec::new();
    let mut k: usize = 0;
    while k + 1 < values.len()
        invariant
            k % 2 == 0,
            k <= values@.len(),
            points@.len() == k / 2,
            values@.len() == spec_values.len(),
            forall|j: int|
                0 <= j < values@.len() ==> plot_value(#[trigger] values@[j]) == spec_values[j],
            forall|j: int| 0 <= j < values@.len() ==> (#[trigger] values@[j]).wf(),
            forall|j: int|
                0 <= j < points@.len() ==> {
                    let p = #[trigger] points@[j];
                    &&& p.x == spec_values[2 * j]
                    &&& p.y == -spec_values[2 * j + 1]
                    &&& p.connected
                    &&& p.wf()
                },
        decreases values.len() - k,
    {
        let x = values[k];
        let y = values[k + 1];
        assert(plot_value(values@[k as int]) == spec_values[k as int]);
        assert(plot_value(values@[k + 1]) == spec_values[k + 1]);
        let p = calc_point(x, y);
        points.push(p);
        k = k + 2;
    }
    assert(points@ =~= subset_plot_points(coordinates@));
    points
}

/// Whether two strings hold the same characters.
pub fn str_eq(a: &str, b: &str) -> (r: bool)
    ensures
        r == (a@ == b@),
{
    let ca = chars_of(a);
    let cb = chars_of(b);
    if ca.len() != cb.len() {
        return false;
    }
    for i in 0..ca.len()
        invariant
            ca@ == a@,
            cb@ == b@,
            ca@.len() == cb@.len(),
            forall|j: int| 0 <= j < i ==> ca@[j] == cb@[j],
    {
        if ca[i] != cb[i] {
            return false;
        }
    }
    assert(ca@ =~= cb@);
    true
}

/// The stroke colour of a subset type: red for virtual walls, orange for
/// no-mop zones, black otherwise.
pub open spec fn color_of(set_type: Seq<char>) -> Seq<char> {
    if set_type == "vw"@ {
        "#f00000"@
    } else if set_type == "mw"@ {
        "#ffa500"@
    } else {
        "#000000"@
    }
}

pub fn get_color(set_type: &str) -> (r: &'static str)
    ensures
        r@ == color_of(set_type@),
{
    if str_eq(set_type, "vw") {
        "#f00000"
    } else if str_eq(set_type, "mw") {
        "#ffa500"
    } else {
        "#000000"
    }
}

} // verus!
