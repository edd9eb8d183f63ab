use vstd::prelude::*;

use svg::node::element::Element;

use crate::geometry::{calc_point_in_viewbox, clamp, Point, TracePoint, Viewbox};
use crate::number::{decimal_text, push_decimal};
use crate::path::{all_wf, path_data, points_to_svg_path};
use crate::svg_node::{
    append_child, markup_of, new_element, set_attribute, svg_markup, Attributes, Markups,
};
use crate::subset::{color_of, get_color, str_eq, subset_plot_points, subset_points};
use crate::text::{push_str, string_from_chars};

verus! {

/// The markup of an element without children.
pub open spec fn leaf(name: Seq<char>, attributes: Attributes) -> Seq<char> {
    svg_markup(name, attributes, Markups::empty())
}

/// The radial gradient that fills the robot icon.
pub open spec fn gradient_markup() -> Seq<char> {
    svg_markup(
        "radialGradient"@,
        Attributes::empty().insert("id"@, "dbg"@).insert("cx"@, "50%"@).insert("cy"@, "50%"@).insert(
            "r"@,
            "50%"@,
        ).insert("fx"@, "50%"@).insert("fy"@, "50%"@),
        Markups::empty().push(
            leaf("stop"@, Attributes::empty().insert("offset"@, "70%"@).insert("style"@, "stop-color:#00f"@)),
        ).push(
            leaf("stop"@, Attributes::empty().insert("offset"@, "97%"@).insert("style"@, "stop-color:#00f0"@)),
        ),
    )
}

/// The robot icon, a group with id `d`.
pub open spec fn robot_icon_markup() -> Seq<char> {
    svg_markup(
        "g"@,
        Attributes::empty().insert("id"@, "d"@),
        Markups::empty().push(
            leaf("circle"@, Attributes::empty().insert("r"@, "5"@).insert("fill"@, "url(#dbg)"@)),
        ).push(
            leaf(
                "circle"@,
                Attributes::empty().insert("r"@, "3.5"@).insert("stroke"@, "white"@).insert(
                    "fill"@,
                    "blue"@,
                ).insert("stroke-width"@, "0.5"@),
            ),
        ),
    )
}

/// The charger pin icon, a group with id `c`, drawn upside down.
pub open spec fn charger_icon_markup() -> Seq<char> {
    svg_markup(
        "g"@,
        Attributes::empty().insert("id"@, "c"@),
        Markups::empty().push(
            leaf(
                "path"@,
                Attributes::empty().insert("fill"@, "#ffe605"@).insert(
                    "d"@,
                    "M4-6.4C4-4.2 0 0 0 0s-4-4.2-4-6.4 1.8-4 4-4 4 1.8 4 4z"@,
                ),
            ),
        ).push(
            leaf(
                "circle"@,
                Attributes::empty().insert("fill"@, "#fff"@).insert("r"@, "2.8"@).insert(
                    "cy"@,
                    "-6.4"@,
                ),
            ),
        ),
    )
}

/// The definitions that markers refer to: gradient, robot and charger.
pub open spec fn defs_markup() -> Seq<char> {
    svg_markup(
        "defs"@,
        Attributes::empty(),
        Markups::empty().push(gradient_markup()).push(robot_icon_markup()).push(
            charger_icon_markup(),
        ),
    )
}

fn stop(offset: &str, style: &str) -> (e: Element)
    ensures
        markup_of(e) == leaf("stop"@, Attributes::empty().insert("offset"@, offset@).insert("style"@, style@)),
{
    let mut e = new_element("stop");
    set_attribute(&mut e, "offset", offset);
    set_attribute(&mut e, "style", style);
    e
}

fn gradient() -> (e: Element)
    ensures
        markup_of(e) == gradient_markup(),
{
    let mut e = new_element("radialGradient");
    set_attribute(&mut e, "id", "dbg");
    set_attribute(&mut e, "cx", "50%");
    set_attribute(&mut e, "cy", "50%");
    set_attribute(&mut e, "r", "50%");
    set_attribute(&mut e, "fx", "50%");
    set_attribute(&mut e, "fy", "50%");
    append_child(&mut e, stop("70%", "stop-color:#00f"));
    append_child(&mut e, stop("97%", "stop-color:#00f0"));
    e
}

fn robot_icon() -> (e: Element)
    ensures
        markup_of(e) == robot_icon_markup(),
{
    let mut glow = new_element("circle");
    set_attribute(&mut glow, "r", "5");
    set_attribute(&mut glow, "fill", "url(#dbg)");
    let mut body = new_element("circle");
    set_attribute(&mut body, "r", "3.5");
    set_attribute(&mut body, "stroke", "white");
    set_attribute(&mut body, "fill", "blue");
    set_attribute(&mut body, "stroke-width", "0.5");
    let mut e = new_element("g");
    set_attribute(&mut e, "id", "d");
    append_child(&mut e, glow);
    append_child(&mut e, body);
    e
}

fn charger_icon() -> (e: Element)
    ensures
        markup_of(e) == charger_icon_markup(),
{
    let mut pin = new_element("path");
    set_attribute(&mut pin, "fill", "#ffe605");
    set_attribute(&mut pin, "d", "M4-6.4C4-4.2 0 0 0 0s-4-4.2-4-6.4 1.8-4 4-4 4 1.8 4 4z");
    let mut dot = new_element("circle");
    set_attribute(&mut dot, "fill", "#fff");
    set_attribute(&mut dot, "r", "2.8");
    set_attribute(&mut dot, "cy", "-6.4");
    let mut e = new_element("g");
    set_attribute(&mut e, "id", "c");
    append_child(&mut e, pin);
    append_child(&mut e, dot);
    e
}

/// The definitions element, the same on every call.
pub fn definitions() -> (e: Element)
    ensures
        markup_of(e) == defs_markup(),
{
    let mut e = new_element("defs");
    append_child(&mut e, gradient());
    append_child(&mut e, robot_icon());
    append_child(&mut e, charger_icon());
    e
}

/// The plot point of a trace point at its raw coordinates.
pub open spec fn trace_point_to_point(t: TracePoint) -> Point {
    Point { x: (t.x * 1000) as i64, y: (t.y * 1000) as i64, connected: t.connected }
}

/// The trace path: white, round joins, a stroke width that ignores scaling,
/// and a transform that flips the y axis and scales down by five.
pub open spec fn trace_markup(trace: Seq<TracePoint>) -> Seq<char> {
    leaf(
        "path"@,
        Attributes::empty().insert("fill"@, "none"@).insert("stroke"@, "#fff"@).insert(
            "stroke-width"@,
            "1.5"@,
        ).insert("stroke-linejoin"@, "round"@).insert("vector-effect"@, "non-scaling-stroke"@).insert(
            "transform"@,
            "scale(0.2-0.2)"@,
        ).insert("d"@, path_data(trace.map_values(|t: TracePoint| trace_point_to_point(t)))),
    )
}

/// The path of the robot's trace, or `None` where there is no trace point.
pub fn get_trace_path(trace_points: &[TracePoint]) -> (r: Option<Element>)
    ensures
        trace_points@.len() == 0 ==> r is None,
        trace_points@.len() > 0 ==> r is Some && markup_of(r->Some_0) == trace_markup(
            trace_points@,
        ),
{
    if trace_points.len() == 0 {
        return None;
    }
    let mut points: Vec<Point> = Vec::new();
    for i in 0..trace_points.len()
        invariant
            points@ == trace_points@.subrange(0, i as int).map_values(
                |t: TracePoint| trace_point_to_point(t),
            ),
            all_wf(points@),
    {
        let p = Point::from_trace_point(&trace_points[i]);
        points.push(p);
        assert(points@ =~= trace_points@.subrange(0, i + 1).map_values(
            |t: TracePoint| trace_point_to_point(t),
        ));
    }
    assert(trace_points@.subrange(0, trace_points@.len() as int) =~= trace_points@);
    let d = points_to_svg_path(points.as_slice());
    let mut e = new_element("path");
    set_attribute(&mut e, "fill", "none");
    set_attribute(&mut e, "stroke", "#fff");
    set_attribute(&mut e, "stroke-width", "1.5");
    set_attribute(&mut e, "stroke-linejoin", "round");
    set_attribute(&mut e, "vector-effect", "non-scaling-stroke");
    set_attribute(&mut e, "transform", "scale(0.2-0.2)");
    set_attribute(&mut e, "d", d.as_str());
    Some(e)
}

/// A zone of the map: its type (`vw` for a virtual wall, `mw` for a no-mop
/// zone) and its coordinates as loosely formatted text.
pub struct MapSubset {
    pub set_type: String,
    pub coordinates: String,
}

/// The coordinates of points, separated by spaces, as a polygon lists them.
pub open spec fn polygon_points_text(points: Seq<Point>) -> Seq<char>
    decreases points.len(),
{
    if points.len() == 0 {
        seq![]
    } else {
        let p = points.last();
        let pair = decimal_text(p.x as int) + seq![' '] + decimal_text(p.y as int);
        if points.len() == 1 {
            pair
        } else {
            polygon_points_text(points.drop_last()) + seq![' '] + pair
        }
    }
}

/// The shape of a subset. Two points make a dashed line; any other number
/// of points a dashed polygon filled with the stroke colour made
/// translucent.
pub open spec fn subset_markup(set_type: Seq<char>, coordinates: Seq<char>) -> Seq<char> {
    let points = subset_plot_points(coordinates);
    let color = color_of(set_type);
    if points.len() == 2 {
        leaf(
            "path"@,
            Attributes::empty().insert("stroke"@, color).insert("stroke-width"@, "1.5"@).insert(
                "stroke-dasharray"@,
                "4"@,
            ).insert("vector-effect"@, "non-scaling-stroke"@).insert("d"@, path_data(points)),
        )
    } else {
        leaf(
            "polygon"@,
            Attributes::empty().insert("fill"@, color + "30"@).insert("stroke"@, color).insert(
                "stroke-width"@,
                "1.5"@,
            ).insert("stroke-dasharray"@, "4"@).insert("vector-effect"@, "non-scaling-stroke"@).insert(
                "points"@,
                polygon_points_text(points),
            ),
        )
    }
}

fn points_list(points: &Vec<Point>) -> (r: String)
    ensures
        r@ == polygon_points_text(points@),
{
    let mut out: Vec<char> = Vec::new();
    for i in 0..points.len()
        invariant
            out@ == polygon_points_text(points@.subrange(0, i as int)),
    {
        let ghost before = points@.subrange(0, i as int);
        assert(points@.subrange(0, i + 1).drop_last() =~= before);
        if i > 0 {
            out.push(' ');
        }
        push_decimal(&mut out, points[i].x);
        out.push(' ');
        push_decimal(&mut out, points[i].y);
        assert(out@ =~= polygon_points_text(points@.subrange(0, i + 1)));
    }
    assert(points@.subrange(0, points@.len() as int) =~= points@);
    string_from_chars(out)
}

/// The shape that stands for a subset.
pub fn get_svg_subset(subset: &MapSubset) -> (e: Element)
    ensures
        markup_of(e) == subset_markup(subset.set_type@, subset.coordinates@),
{
    let points = subset_points(subset.coordinates.as_str());
    let color = get_color(subset.set_type.as_str());
    if points.len() == 2 {
        let d = points_to_svg_path(points.as_slice());
        let mut e = new_element("path");
        set_attribute(&mut e, "stroke", color);
        set_attribute(&mut e, "stroke-width", "1.5");
        set_attribute(&mut e, "stroke-dasharray", "4");
        set_attribute(&mut e, "vector-effect", "non-scaling-stroke");
        set_attribute(&mut e, "d", d.as_str());
        e
    } else {
        let mut fill: Vec<char> = Vec::new();
        push_str(&mut fill, color);
        push_str(&mut fill, "30");
        let fill = string_from_chars(fill);
        let listed = points_list(&points);
        let mut e = new_element("polygon");
        set_attribute(&mut e, "fill", fill.as_str());
        set_attribute(&mut e, "stroke", color);
        set_attribute(&mut e, "stroke-width", "1.5");
        set_attribute(&mut e, "stroke-dasharray", "4");
        set_attribute(&mut e, "vector-effect", "non-scaling-stroke");
        set_attribute(&mut e, "points", listed.as_str());
        e
    }
}

/// A marker of the map: its type (`deebotPos` for the robot, `chargePos`
/// for its charger, or another) and its device coordinates.
pub struct Position {
    pub position_type: String,
    pub x: i32,
    pub y: i32,
}

/// The markup of each element, in order.
pub open spec fn markups(es: Seq<Element>) -> Markups {
    es.map_values(|e: Element| markup_of(e))
}

/// Where a marker at device coordinates `(x, y)` is drawn: its plot point
/// clamped into the viewbox.
pub open spec fn marker_point(x: int, y: int, viewbox: Viewbox) -> Point {
    Point {
        x: clamp(x * 20, viewbox.min_x as int, viewbox.min_x + viewbox.width) as i64,
        y: clamp(-y * 20, viewbox.min_y as int, viewbox.min_y + viewbox.height) as i64,
        connected: false,
    }
}

/// A use of the icon `href` at the point `p`.
pub open spec fn use_markup(href: Seq<char>, p: Point) -> Seq<char> {
    leaf(
        "use"@,
        Attributes::empty().insert("href"@, href).insert("x"@, decimal_text(p.x as int)).insert(
            "y"@,
            decimal_text(p.y as int),
        ),
    )
}

/// The markers, in order, of the positions of type `kind`.
pub open spec fn markers(positions: Seq<Position>, kind: Seq<char>, href: Seq<char>, viewbox: Viewbox) -> Markups
    decreases positions.len(),
{
    if positions.len() == 0 {
        Markups::empty()
    } else {
        let rest = markers(positions.drop_last(), kind, href, viewbox);
        let p = positions.last();
        if p.position_type@ == kind {
            rest.push(use_markup(href, marker_point(p.x as int, p.y as int, viewbox)))
        } else {
            rest
        }
    }
}

/// The markers of the positions: every robot position, then every charger
/// position, each group in the given order; other types draw nothing.
pub open spec fn position_markups(positions: Seq<Position>, viewbox: Viewbox) -> Markups {
    markers(positions, "deebotPos"@, "#d"@, viewbox) + markers(positions, "chargePos"@, "#c"@, viewbox)
}

fn push_markers(
    out: &mut Vec<Element>,
    positions: &Vec<Position>,
    kind: &str,
    href: &str,
    viewbox: Viewbox,
)
    requires
        viewbox.wf(),
    ensures
        markups(final(out)@) == markups(old(out)@) + markers(positions@, kind@, href@, viewbox),
{
    let ghost start = markups(out@);
    for i in 0..positions.len()
        invariant
            viewbox.wf(),
            markups(out@) == start + markers(positions@.subrange(0, i as int), kind@, href@, viewbox),
    {
        let ghost before = positions@.subrange(0, i as int);
        assert(positions@.subrange(0, i + 1).drop_last() =~= before);
        let position = &positions[i];
        if str_eq(position.position_type.as_str(), kind) {
            let p = calc_point_in_viewbox(position.x, position.y, viewbox);
            let mut x: Vec<char> = Vec::new();
            push_decimal(&mut x, p.x);
            let x = string_from_chars(x);
            let mut y: Vec<char> = Vec::new();
            push_decimal(&mut y, p.y);
            let y = string_from_chars(y);
            let mut e = new_element("use");
            set_attribute(&mut e, "href", href);
            set_attribute(&mut e, "x", x.as_str());
            set_attribute(&mut e, "y", y.as_str());
            assert(p == marker_point(position.x as int, position.y as int, viewbox));
            assert(markup_of(e) == use_markup(href@, p));
            let ghost old_out = out@;
            out.push(e);
            assert(markups(out@) =~= markups(old_out).push(markup_of(e)));
        }
        assert(markups(out@) =~= start + markers(positions@.subrange(0, i + 1), kind@, href@, viewbox));
    }
    assert(positions@.subrange(0, positions@.len() as int) =~= positions@);
}

/// The markers of the positions, clamped into the viewbox: robots first,
/// then chargers; positions of other types draw nothing.
pub fn get_svg_positions(positions: &Vec<Position>, viewbox: Viewbox) -> (r: Vec<Element>)
    requires
        viewbox.wf(),
    ensures
        markups(r@) == position_markups(positions@, viewbox),
{
    let mut r: Vec<Element> = Vec::new();
    assert(markups(r@) =~= Markups::empty());
    push_markers(&mut r, positions, "deebotPos", "#d", viewbox);
    push_markers(&mut r, positions, "chargePos", "#c", viewbox);
    assert(markups(r@) =~= position_markups(positions@, viewbox));
    r
}

/// Whether a position type draws a marker.
pub open spec fn is_drawn(kind: Seq<char>) -> bool {
    kind == "deebotPos"@ || kind == "chargePos"@
}

/// How many positions are of a type that draws no marker.
pub open spec fn unrendered_count(positions: Seq<Position>) -> nat
    decreases positions.len(),
{
    if positions.len() == 0 {
        0
    } else {
        unrendered_count(positions.drop_last()) + if is_drawn(positions.last().position_type@) {
            0nat
        } else {
            1nat
        }
    }
}

/// Counts the positions whose type draws no marker, for diagnostics.
pub fn count_unrendered_positions(positions: &Vec<Position>) -> (n: usize)
    ensures
        n == unrendered_count(positions@),
{
    let mut n: usize = 0;
    for i in 0..positions.len()
        invariant
            n == unrendered_count(positions@.subrange(0, i as int)),
            n <= i,
    {
        assert(positions@.subrange(0, i + 1).drop_last() =~= positions@.subrange(0, i as int));
        let kind = positions[i].position_type.as_str();
        if !str_eq(kind, "deebotPos") && !str_eq(kind, "chargePos") {
            n = n + 1;
        }
    }
    assert(positions@.subrange(0, positions@.len() as int) =~= positions@);
    n
}

} // verus!
