use vstd::prelude::*;

use crate::geometry::Point;
use crate::number::{decimal_text, push_decimal};
use crate::text::{push_all, string_from_chars};

verus! {

/// The kind of the last command written to path data. `MoveTo` is
/// absolute; the others are relative.
#[derive(Clone, Copy, Debug, PartialEq, Eq, Structural)]
pub enum SvgPathCommand {
    MoveTo,
    MoveBy,
    LineBy,
    HorizontalLineBy,
    VerticalLineBy,
}

/// A space before the second number of a relative segment where it has no
/// minus sign to separate it.
pub open spec fn separator(v: int) -> Seq<char> {
    if v >= 0 {
        seq![' ']
    } else {
        seq![]
    }
}

/// A space between the coordinates of the absolute move where y is positive.
pub open spec fn move_separator(v: int) -> Seq<char> {
    if v > 0 {
        seq![' ']
    } else {
        seq![]
    }
}

/// What starts a segment of `kind`: its letter, or, right after a segment of
/// the same kind, nothing but a space where `first` has no minus sign.
pub open spec fn command_prefix(
    last: SvgPathCommand,
    kind: SvgPathCommand,
    letter: char,
    first: int,
) -> Seq<char> {
    if last != kind {
        seq![letter]
    } else if first >= 0 {
        seq![' ']
    } else {
        seq![]
    }
}

/// The transition of the encoder on a segment by `(dx, dy)` thousandths to
/// a point that is `connected` or not: the new last command and the text
/// that the segment adds.
pub open spec fn segment(last: SvgPathCommand, dx: int, dy: int, connected: bool) -> (
    SvgPathCommand,
    Seq<char>,
) {
    if dx == 0 && dy == 0 {
        (last, seq![])
    } else if !connected {
        (SvgPathCommand::MoveBy, seq!['m'] + decimal_text(dx) + separator(dy) + decimal_text(dy))
    } else if dx == 0 {
        (
            SvgPathCommand::VerticalLineBy,
            command_prefix(last, SvgPathCommand::VerticalLineBy, 'v', dy) + decimal_text(dy),
        )
    } else if dy == 0 {
        (
            SvgPathCommand::HorizontalLineBy,
            command_prefix(last, SvgPathCommand::HorizontalLineBy, 'h', dx) + decimal_text(dx),
        )
    } else {
        (
            SvgPathCommand::LineBy,
            command_prefix(last, SvgPathCommand::LineBy, 'l', dx) + decimal_text(dx) + separator(
                dy,
            ) + decimal_text(dy),
        )
    }
}

/// The absolute move to the first point.
pub open spec fn move_to_text(p: Point) -> Seq<char> {
    seq!['M'] + decimal_text(p.x as int) + move_separator(p.y as int) + decimal_text(p.y as int)
}

/// The encoder's last command and text after the first `n` points.
pub open spec fn encode_prefix(points: Seq<Point>, n: nat) -> (SvgPathCommand, Seq<char>)
    decreases n,
{
    if n == 0 {
        (SvgPathCommand::MoveTo, seq![])
    } else if n == 1 {
        (SvgPathCommand::MoveTo, move_to_text(points[0]))
    } else {
        let before = encode_prefix(points, (n - 1) as nat);
        let prev = points[n - 2];
        let p = points[n - 1];
        let step = segment(before.0, p.x - prev.x, p.y - prev.y, p.connected);
        (step.0, before.1 + step.1)
    }
}

/// The path data of a point sequence.
pub open spec fn path_data(points: Seq<Point>) -> Seq<char> {
    encode_prefix(points, points.len()).1
}

pub open spec fn all_wf(points: Seq<Point>) -> bool {
    forall|i: int| 0 <= i < points.len() ==> (#[trigger] points[i]).wf()
}

fn push_prefix(
    out: &mut Vec<char>,
    last: SvgPathCommand,
    kind: SvgPathCommand,
    letter: char,
    first: i64,
)
    ensures
        final(out)@ == old(out)@ + command_prefix(last, kind, letter, first as int),
{
    if last != kind {
        out.push(letter);
    } else if first >= 0 {
        out.push(' ');
    }
    assert(out@ =~= old(out)@ + command_prefix(last, kind, letter, first as int));
}

fn push_separator(out: &mut Vec<char>, v: i64)
    ensures
        final(out)@ == old(out)@ + separator(v as int),
{
    if v >= 0 {
        out.push(' ');
    }
    assert(out@ =~= old(out)@ + separator(v as int));
}

fn push_move_separator(out: &mut Vec<char>, v: i64)
    ensures
        final(out)@ == old(out)@ + move_separator(v as int),
{
    if v > 0 {
        out.push(' ');
    }
    assert(out@ =~= old(out)@ + move_separator(v as int));
}

/// The transition of the path encoder: from the last command written and a
/// segment, the new last command and the text the segment adds.
pub fn transition(last: SvgPathCommand, dx: i64, dy: i64, connected: bool) -> (r: (
    SvgPathCommand,
    Vec<char>,
))
    ensures
        (r.0, r.1@) == segment(last, dx as int, dy as int, connected),
{
    let mut out: Vec<char> = Vec::new();
    if dx == 0 && dy == 0 {
        assert(out@ =~= seq![]);
        return (last, out);
    }
    let kind = if !connected {
        out.push('m');
        push_decimal(&mut out, dx);
        push_separator(&mut out, dy);
        push_decimal(&mut out, dy);
        SvgPathCommand::MoveBy
    } else if dx == 0 {
        push_prefix(&mut out, last, SvgPathCommand::VerticalLineBy, 'v', dy);
        push_decimal(&mut out, dy);
        SvgPathCommand::VerticalLineBy
    } else if dy == 0 {
        push_prefix(&mut out, last, SvgPathCommand::HorizontalLineBy, 'h', dx);
        push_decimal(&mut out, dx);
        SvgPathCommand::HorizontalLineBy
    } else {
        push_prefix(&mut out, last, SvgPathCommand::LineBy, 'l', dx);
        push_decimal(&mut out, dx);
        push_separator(&mut out, dy);
        push_decimal(&mut out, dy);
        SvgPathCommand::LineBy
    };
    assert(out@ =~= segment(last, dx as int, dy as int, connected).1);
    (kind, out)
}

/// Encodes points as minimal SVG path data: an absolute move to the first
/// point, then one relative segment per later point that moves, with a
/// command letter only where the kind of segment changes.
pub fn points_to_svg_path(points: &[Point]) -> (r: String)
    requires
        all_wf(points@),
    ensures
        r@ == path_data(points@),
{
    let mut out: Vec<char> = Vec::new();
    let mut last = SvgPathCommand::MoveTo;
    if points.len() == 0 {
        return string_from_chars(out);
    }
    let first = points[0];
    out.push('M');
    push_decimal(&mut out, first.x);
    push_move_separator(&mut out, first.y);
    push_decimal(&mut out, first.y);
    assert(out@ =~= move_to_text(first));
    let mut i: usize = 1;
    while i < points.len()
        invariant
            1 <= i <= points@.len(),
            all_wf(points@),
            (last, out@) == encode_prefix(points@, i as nat),
        decreases points.len() - i,
    {
        let prev = points[i - 1];
        let p = points[i];
        assert(prev.wf() && p.wf());
        let (next, text) = transition(last, p.x - prev.x, p.y - prev.y, p.connected);
        push_all(&mut out, &text);
        last = next;
        i = i + 1;
    }
    string_from_chars(out)
}

} // verus!
