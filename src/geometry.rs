use vstd::prelude::*;

use crate::number::abs;

verus! {

/// Device units per plot unit.
pub const PIXEL_WIDTH: i64 = 50;

/// Largest magnitude of a plot coordinate, in thousandths, that the path
/// encoder takes: the difference of two such values fits in an `i64`.
pub const COORD_LIMIT: i64 = 4_000_000_000_000_000_000;

/// Largest magnitude of a viewbox component, in thousandths.
pub const VIEWBOX_LIMIT: i64 = 1_000_000_000_000_000_000;

/// Largest mantissa magnitude (exclusive) of a parsed device coordinate.
pub const MANTISSA_LIMIT: i64 = 100_000_000_000_000_000;

/// Smallest exponent of a parsed device coordinate.
pub const MIN_EXPONENT: i32 = -19;

/// Largest exponent of a parsed device coordinate.
pub const MAX_EXPONENT: i32 = 17;

/// One sampled location of the robot's travel, in device units.
#[derive(Clone, Copy, Debug, PartialEq, Eq, Structural)]
pub struct TracePoint {
    pub x: i16,
    pub y: i16,
    /// Whether this point continues the preceding stroke.
    pub connected: bool,
}

/// A plot-space point. `x` and `y` count thousandths of a plot unit.
#[derive(Clone, Copy, Debug, PartialEq, Eq, Structural)]
pub struct Point {
    pub x: i64,
    pub y: i64,
    pub connected: bool,
}

impl Point {
    /// Both coordinates lie within `COORD_LIMIT`.
    pub open spec fn wf(&self) -> bool {
        -COORD_LIMIT <= self.x <= COORD_LIMIT && -COORD_LIMIT <= self.y <= COORD_LIMIT
    }

    /// The point at the raw coordinates of a trace point, which the trace
    /// path draws under a downscaling transform.
    pub open spec fn is_trace_point(&self, t: TracePoint) -> bool {
        self.x == t.x as int * 1000 && self.y == t.y as int * 1000 && self.connected == t.connected
    }

    pub fn from_trace_point(t: &TracePoint) -> (p: Point)
        ensures
            p.is_trace_point(*t),
            p.wf(),
    {
        Point { x: t.x as i64 * 1000, y: t.y as i64 * 1000, connected: t.connected }
    }
}

/// A device coordinate read from text: `mantissa * 10^exponent`.
#[derive(Clone, Copy, Debug, PartialEq, Eq, Structural)]
pub struct DeviceCoord {
    pub mantissa: i64,
    pub exponent: i32,
}

impl DeviceCoord {
    /// The mantissa has at most seventeen digits, the exponent lies within
    /// `MIN_EXPONENT..=MAX_EXPONENT`, and the value is below `10^17`.
    pub open spec fn wf(&self) -> bool {
        &&& -MANTISSA_LIMIT < self.mantissa < MANTISSA_LIMIT
        &&& MIN_EXPONENT <= self.exponent <= MAX_EXPONENT
        &&& self.exponent >= 0 ==> abs(self.mantissa as int) * pow10(self.exponent as nat)
            < MANTISSA_LIMIT
    }

    /// A whole device coordinate.
    pub fn integer(v: i32) -> (c: DeviceCoord)
        ensures
            c == (DeviceCoord { mantissa: v as i64, exponent: 0 }),
            c.wf(),
    {
        assert(pow10(0) == 1);
        DeviceCoord { mantissa: v as i64, exponent: 0 }
    }
}

pub open spec fn pow10(n: nat) -> int
    decreases n,
{
    if n == 0 {
        1
    } else {
        10 * pow10((n - 1) as nat)
    }
}

/// `n / d` rounded to the nearest integer, halves away from zero (`d > 0`).
pub open spec fn round_div(n: int, d: int) -> int {
    if n >= 0 {
        (2 * n + d) / (2 * d)
    } else {
        -((-2 * n + d) / (2 * d))
    }
}

/// A device coordinate divided by `PIXEL_WIDTH` and rounded to three decimal
/// digits, in thousandths: `round(mantissa * 10^exponent * 1000 / 50)`.
pub open spec fn plot_value(c: DeviceCoord) -> int {
    scaled_value(c.mantissa as int, c.exponent as int)
}

/// `mantissa * 10^exponent` device units in plot thousandths, rounded.
pub open spec fn scaled_value(mantissa: int, exponent: int) -> int {
    if exponent >= 0 {
        mantissa * 20 * pow10(exponent as nat)
    } else {
        round_div(mantissa * 20, pow10((-exponent) as nat))
    }
}

/// `p` is the plot point of device coordinates `(x, y)`: both axes scaled
/// down, the y axis flipped, rounded to three digits, drawing a stroke.
pub open spec fn is_plot_point(p: Point, x: DeviceCoord, y: DeviceCoord) -> bool {
    p.x == plot_value(x) && p.y == -plot_value(y) && p.connected
}

/// `p` is the plot point of whole device coordinates `(x, y)`.
pub open spec fn is_whole_plot_point(p: Point, x: int, y: int) -> bool {
    p.x == x * 20 && p.y == -y * 20 && p.connected
}

pub proof fn lemma_pow10_positive(n: nat)
    ensures
        pow10(n) >= 1,
    decreases n,
{
    if n > 0 {
        lemma_pow10_positive((n - 1) as nat);
    }
}

pub proof fn lemma_pow10_monotonic(i: nat, j: nat)
    requires
        i <= j,
    ensures
        pow10(i) <= pow10(j),
    decreases j,
{
    if i < j {
        lemma_pow10_monotonic(i, (j - 1) as nat);
        lemma_pow10_positive((j - 1) as nat);
    }
}

pub fn power_of_ten(n: u32) -> (r: i128)
    requires
        n <= 19,
    ensures
        r == pow10(n as nat),
        1 <= r <= 10_000_000_000_000_000_000,
{
    proof {
        reveal_with_fuel(pow10, 20);
        assert(pow10(19) == 10_000_000_000_000_000_000);
    }
    let mut r: i128 = 1;
    let mut i: u32 = 0;
    while i < n
        invariant
            i <= n <= 19,
            r == pow10(i as nat),
            1 <= r <= 10_000_000_000_000_000_000,
            pow10(19) == 10_000_000_000_000_000_000,
        decreases n - i,
    {
        proof {
            lemma_pow10_monotonic((i + 1) as nat, 19);
        }
        r = r * 10;
        i = i + 1;
    }
    r
}

fn scaled(c: DeviceCoord) -> (v: i64)
    requires
        c.wf(),
    ensures
        v == plot_value(c),
        -2_000_000_000_000_000_000 <= v <= 2_000_000_000_000_000_000,
{
    let n: i128 = c.mantissa as i128 * 20;
    if c.exponent >= 0 {
        let f = power_of_ten(c.exponent as u32);
        let m: i128 = c.mantissa as i128;
        assert(-2_000_000_000_000_000_000 < m * 20 * f < 2_000_000_000_000_000_000) by (nonlinear_arith)
            requires
                f >= 1,
                (if m < 0 {
                    -m
                } else {
                    m as int
                }) * f < 100_000_000_000_000_000,
        {
            if m < 0 {
                assert(m * f == -((-m) * f));
            }
        };
        return (m * 20 * f) as i64;
    }
    let d = power_of_ten((0 - c.exponent) as u32);
    let q: i128 = if n >= 0 {
        (2 * n + d) / (2 * d)
    } else {
        0 - ((-2 * n + d) / (2 * d))
    };
    assert(-2_000_000_000_000_000_000 <= q <= 2_000_000_000_000_000_000) by (nonlinear_arith)
        requires
            d >= 1,
            -2_000_000_000_000_000_000 < n < 2_000_000_000_000_000_000,
            n >= 0 ==> q == (2 * n + d) / (2 * d),
            n < 0 ==> q == -((-2 * n + d) / (2 * d)),
    {
        if n >= 0 {
            assert((2 * n + d) / (2 * d) <= (2 * n + 2 * d * n + d) / (2 * d));
        }
    };
    q as i64
}

/// Converts device coordinates to plot space: divided by `PIXEL_WIDTH`, the
/// y axis negated, rounded to three decimal digits, marked connected.
pub fn calc_point(x: DeviceCoord, y: DeviceCoord) -> (p: Point)
    requires
        x.wf(),
        y.wf(),
    ensures
        is_plot_point(p, x, y),
        p.wf(),
{
    let px = scaled(x);
    let py = scaled(y);
    Point { x: px, y: -py, connected: true }
}

/// `calc_point` on whole device coordinates.
pub fn to_plot_point(x: i32, y: i32) -> (p: Point)
    ensures
        is_whole_plot_point(p, x as int, y as int),
        p.wf(),
{
    let p = calc_point(DeviceCoord::integer(x), DeviceCoord::integer(y));
    assert(pow10(0) == 1);
    p
}

/// The frame of the document: `(min_x, min_y, width, height)`, each in
/// thousandths of a plot unit.
#[derive(Clone, Copy, Debug, PartialEq, Eq, Structural)]
pub struct Viewbox {
    pub min_x: i64,
    pub min_y: i64,
    pub width: i64,
    pub height: i64,
}

impl Viewbox {
    /// Each component lies within `VIEWBOX_LIMIT`.
    pub open spec fn wf(&self) -> bool {
        &&& -VIEWBOX_LIMIT <= self.min_x <= VIEWBOX_LIMIT
        &&& -VIEWBOX_LIMIT <= self.min_y <= VIEWBOX_LIMIT
        &&& -VIEWBOX_LIMIT <= self.width <= VIEWBOX_LIMIT
        &&& -VIEWBOX_LIMIT <= self.height <= VIEWBOX_LIMIT
    }

    pub fn is_valid(&self) -> (r: bool)
        ensures
            r == self.wf(),
    {
        -VIEWBOX_LIMIT <= self.min_x && self.min_x <= VIEWBOX_LIMIT && -VIEWBOX_LIMIT <= self.min_y
            && self.min_y <= VIEWBOX_LIMIT && -VIEWBOX_LIMIT <= self.width && self.width
            <= VIEWBOX_LIMIT && -VIEWBOX_LIMIT <= self.height && self.height <= VIEWBOX_LIMIT
    }
}

/// `v` raised to at least `lo`, then lowered to at most `hi`.
pub open spec fn clamp(v: int, lo: int, hi: int) -> int {
    let raised = if v < lo {
        lo
    } else {
        v
    };
    if raised > hi {
        hi
    } else {
        raised
    }
}

fn clamp_exec(v: i64, lo: i64, hi: i64) -> (r: i64)
    ensures
        r == clamp(v as int, lo as int, hi as int),
{
    let raised = if v < lo {
        lo
    } else {
        v
    };
    if raised > hi {
        hi
    } else {
        raised
    }
}

/// `p` is the marker point of whole device coordinates `(x, y)`: the plot
/// point clamped into the viewbox, drawing no stroke.
pub open spec fn is_viewbox_point(p: Point, x: int, y: int, viewbox: Viewbox) -> bool {
    &&& p.x == clamp(x * 20, viewbox.min_x as int, viewbox.min_x + viewbox.width)
    &&& p.y == clamp(-y * 20, viewbox.min_y as int, viewbox.min_y + viewbox.height)
    &&& !p.connected
}

/// The plot point of `(x, y)` clamped into the viewbox, as a discrete marker.
pub fn calc_point_in_viewbox(x: i32, y: i32, viewbox: Viewbox) -> (p: Point)
    requires
        viewbox.wf(),
    ensures
        is_viewbox_point(p, x as int, y as int, viewbox),
{
    let point = to_plot_point(x, y);
    Point {
        x: clamp_exec(point.x, viewbox.min_x, viewbox.min_x + viewbox.width),
        y: clamp_exec(point.y, viewbox.min_y, viewbox.min_y + viewbox.height),
        connected: false,
    }
}

} // verus!
