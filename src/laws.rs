use vstd::prelude::*;

use crate::document::rendered;
use crate::geometry::{is_viewbox_point, is_whole_plot_point, Point, TracePoint, Viewbox};
use crate::number::decimal_text;
use crate::path::{encode_prefix, move_to_text, path_data, separator, SvgPathCommand};
use crate::shapes::{MapSubset, Position};

verus! {

/// Over a list of raw integers read in pairs `(x, y)`, each plot point has
/// `x / 50` and `-y / 50` as coordinates, exact to three digits, so that a
/// nonzero `y` comes out with the opposite sign.
pub proof fn lemma_plot_points_of_pairs(values: Seq<int>, points: Seq<Point>)
    requires
        values.len() % 2 == 0,
        points.len() == values.len() / 2,
        forall|k: int|
            0 <= k < points.len() ==> is_whole_plot_point(
                #[trigger] points[k],
                values[2 * k],
                values[2 * k + 1],
            ),
    ensures
        forall|k: int|
            0 <= k < points.len() ==> {
                let p = #[trigger] points[k];
                &&& p.x * 50 == values[2 * k] * 1000
                &&& p.y * 50 == -values[2 * k + 1] * 1000
                &&& values[2 * k + 1] > 0 ==> p.y < 0
                &&& values[2 * k + 1] < 0 ==> p.y > 0
            },
{
}

/// A marker point lies within `[min, min + size]` on both axes, whatever
/// the device coordinates, for a viewbox of non-negative size.
pub proof fn lemma_viewbox_point_inside(x: int, y: int, viewbox: Viewbox, p: Point)
    requires
        viewbox.wf(),
        viewbox.width >= 0,
        viewbox.height >= 0,
        is_viewbox_point(p, x, y, viewbox),
    ensures
        viewbox.min_x <= p.x <= viewbox.min_x + viewbox.width,
        viewbox.min_y <= p.y <= viewbox.min_y + viewbox.height,
{
}

/// A single point encodes to the absolute move to it and nothing more:
/// `M`, its x, a space only where y is positive, and its y.
pub proof fn lemma_single_point_path(p: Point)
    ensures
        path_data(seq![p]) == move_to_text(p),
{
    assert(seq![p].len() == 1);
}

/// Rendering is a function of its inputs: two renderings of the same trace
/// with the same viewbox, image, subsets and positions are the same text.
pub proof fn lemma_render_deterministic(
    viewbox: Viewbox,
    image: Seq<u8>,
    trace: Seq<TracePoint>,
    subsets: Seq<MapSubset>,
    positions: Seq<Position>,
    first: Seq<char>,
    second: Seq<char>,
)
    requires
        first == rendered(viewbox, image, trace, subsets, positions),
        second == rendered(viewbox, image, trace, subsets, positions),
    ensures
        first == second,
{
}

/// The letter of a path command.
pub open spec fn command_letter(kind: SvgPathCommand) -> char {
    match kind {
        SvgPathCommand::MoveTo => 'M',
        SvgPathCommand::MoveBy => 'm',
        SvgPathCommand::LineBy => 'l',
        SvgPathCommand::HorizontalLineBy => 'h',
        SvgPathCommand::VerticalLineBy => 'v',
    }
}

/// The numbers that a relative segment of `kind` by `(dx, dy)` writes.
pub open spec fn segment_numbers(kind: SvgPathCommand, dx: int, dy: int) -> Seq<char> {
    match kind {
        SvgPathCommand::HorizontalLineBy => decimal_text(dx),
        SvgPathCommand::VerticalLineBy => decimal_text(dy),
        _ => decimal_text(dx) + separator(dy) + decimal_text(dy),
    }
}

/// Each point of a path that moves adds one segment. A relative move always
/// writes its letter `m`. A line, horizontal or vertical segment writes its
/// letter only where the last command written was of another kind; after a
/// command of the same kind it writes no letter, only a space where its
/// first number is not negative.
pub proof fn lemma_command_letter_on_change(points: Seq<Point>, n: nat)
    requires
        2 <= n <= points.len(),
        points[n - 1].x != points[n - 2].x || points[n - 1].y != points[n - 2].y,
    ensures
        ({
            let before = encode_prefix(points, (n - 1) as nat);
            let after = encode_prefix(points, n);
            let p = points[n - 1];
            let dx = p.x - points[n - 2].x;
            let dy = p.y - points[n - 2].y;
            let first = if after.0 == SvgPathCommand::VerticalLineBy {
                dy
            } else {
                dx
            };
            let lead = if after.0 != before.0 || after.0 == SvgPathCommand::MoveBy {
                seq![command_letter(after.0)]
            } else if first >= 0 {
                seq![' ']
            } else {
                seq![]
            };
            &&& !p.connected ==> after.0 == SvgPathCommand::MoveBy
            &&& after.1 == before.1 + lead + segment_numbers(after.0, dx, dy)
        }),
{
    let before = encode_prefix(points, (n - 1) as nat);
    let after = encode_prefix(points, n);
    let p = points[n - 1];
    let dx = p.x - points[n - 2].x;
    let dy = p.y - points[n - 2].y;
    let first = if after.0 == SvgPathCommand::VerticalLineBy {
        dy
    } else {
        dx
    };
    let lead = if after.0 != before.0 || after.0 == SvgPathCommand::MoveBy {
        seq![command_letter(after.0)]
    } else if first >= 0 {
        seq![' ']
    } else {
        seq![]
    };
    assert(after.1 =~= before.1 + lead + segment_numbers(after.0, dx, dy));
}

} // verus!
