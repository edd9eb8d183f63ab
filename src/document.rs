use vstd::prelude::*;

use svg::node::element::Element;

use crate::geometry::{TracePoint, Viewbox};
use crate::number::{decimal_text, push_decimal};
use crate::shapes::{
    defs_markup, definitions, get_svg_positions, get_svg_subset, get_trace_path, leaf, markups,
    position_markups, subset_markup, trace_markup, MapSubset, Position,
};
use crate::svg_node::{
    append_child, element_attributes, element_children, element_name, markup_of, new_document,
    new_element, render, set_attribute, svg_markup, Attributes, Markups,
};
use crate::text::{push_str, string_from_chars};

verus! {

/// The padded standard-alphabet base64 text of some bytes.
pub uninterp spec fn base64_encoded(bytes: Seq<u8>) -> Seq<char>;

/// Relies on base64's `general_purpose::STANDARD` engine (`Engine::encode`)
/// to encode the bytes.
#[verifier::external_body]
fn base64_encode(bytes: &[u8]) -> (r: String)
    ensures
        r@ == base64_encoded(bytes@),
{
    base64::Engine::encode(&base64::engine::general_purpose::STANDARD, bytes)
}

/// The four components of a viewbox, separated by spaces.
pub open spec fn viewbox_text(viewbox: Viewbox) -> Seq<char> {
    decimal_text(viewbox.min_x as int) + seq![' '] + decimal_text(viewbox.min_y as int) + seq![' ']
        + decimal_text(viewbox.width as int) + seq![' '] + decimal_text(viewbox.height as int)
}

/// The floor-plan image, inlined as base64 and covering the viewbox.
pub open spec fn image_markup(viewbox: Viewbox, image: Seq<u8>) -> Seq<char> {
    leaf(
        "image"@,
        Attributes::empty().insert("x"@, decimal_text(viewbox.min_x as int)).insert(
            "y"@,
            decimal_text(viewbox.min_y as int),
        ).insert("width"@, decimal_text(viewbox.width as int)).insert(
            "height"@,
            decimal_text(viewbox.height as int),
        ).insert("style"@, "image-rendering: pixelated"@).insert(
            "href"@,
            "data:image/png;base64,"@ + base64_encoded(image),
        ),
    )
}

/// The trace path where there is a trace, else nothing.
pub open spec fn trace_part(trace: Seq<TracePoint>) -> Markups {
    if trace.len() > 0 {
        Markups::empty().push(trace_markup(trace))
    } else {
        Markups::empty()
    }
}

pub open spec fn subset_markups(subsets: Seq<MapSubset>) -> Markups {
    subsets.map_values(|s: MapSubset| subset_markup(s.set_type@, s.coordinates@))
}

/// The document, in order: definitions, image, one shape per subset, the
/// trace path, and the position markers.
pub open spec fn document_markup(
    viewbox: Viewbox,
    image: Seq<u8>,
    trace: Seq<TracePoint>,
    subsets: Seq<MapSubset>,
    positions: Seq<Position>,
) -> Seq<char> {
    svg_markup(
        "svg"@,
        Attributes::empty().insert("xmlns"@, "http://www.w3.org/2000/svg"@).insert(
            "viewBox"@,
            viewbox_text(viewbox),
        ),
        Markups::empty().push(defs_markup()).push(image_markup(viewbox, image)) + subset_markups(
            subsets,
        ) + trace_part(trace) + position_markups(positions, viewbox),
    )
}

/// `s` without its newline characters.
pub open spec fn without_newlines(s: Seq<char>) -> Seq<char>
    decreases s.len(),
{
    if s.len() == 0 {
        seq![]
    } else if s.last() == '\n' {
        without_newlines(s.drop_last())
    } else {
        without_newlines(s.drop_last()).push(s.last())
    }
}

/// The document as one line.
pub open spec fn rendered(
    viewbox: Viewbox,
    image: Seq<u8>,
    trace: Seq<TracePoint>,
    subsets: Seq<MapSubset>,
    positions: Seq<Position>,
) -> Seq<char> {
    without_newlines(document_markup(viewbox, image, trace, subsets, positions))
}

fn decimal_string(v: i64) -> (r: String)
    ensures
        r@ == decimal_text(v as int),
{
    let mut out: Vec<char> = Vec::new();
    push_decimal(&mut out, v);
    assert(out@ =~= decimal_text(v as int));
    string_from_chars(out)
}

fn image_element(viewbox: Viewbox, image: &[u8]) -> (e: Element)
    ensures
        markup_of(e) == image_markup(viewbox, image@),
{
    let mut href: Vec<char> = Vec::new();
    push_str(&mut href, "data:image/png;base64,");
    let encoded = base64_encode(image);
    push_str(&mut href, encoded.as_str());
    let href = string_from_chars(href);
    let mut e = new_element("image");
    set_attribute(&mut e, "x", decimal_string(viewbox.min_x).as_str());
    set_attribute(&mut e, "y", decimal_string(viewbox.min_y).as_str());
    set_attribute(&mut e, "width", decimal_string(viewbox.width).as_str());
    set_attribute(&mut e, "height", decimal_string(viewbox.height).as_str());
    set_attribute(&mut e, "style", "image-rendering: pixelated");
    set_attribute(&mut e, "href", href.as_str());
    e
}

fn viewbox_string(viewbox: Viewbox) -> (r: String)
    ensures
        r@ == viewbox_text(viewbox),
{
    let mut out: Vec<char> = Vec::new();
    push_decimal(&mut out, viewbox.min_x);
    out.push(' ');
    push_decimal(&mut out, viewbox.min_y);
    out.push(' ');
    push_decimal(&mut out, viewbox.width);
    out.push(' ');
    push_decimal(&mut out, viewbox.height);
    assert(out@ =~= viewbox_text(viewbox));
    string_from_chars(out)
}

fn strip_newlines(s: &str) -> (r: String)
    ensures
        r@ == without_newlines(s@),
{
    let mut out: Vec<char> = Vec::new();
    for c in it: s.chars()
        invariant
            out@ == without_newlines(it.seq().subrange(0, it.index() as int)),
    {
        let ghost before = it.seq().subrange(0, it.index() as int);
        assert(it.seq().subrange(0, it.index() + 1).drop_last() =~= before);
        if c != '\n' {
            out.push(c);
        }
    }
    assert(s@.subrange(0, s@.len() as int) =~= s@);
    string_from_chars(out)
}

/// Renders the map: definitions, the image over the viewbox, the subsets,
/// the trace and the position markers, as one line of SVG.
pub fn render_svg(
    viewbox: Viewbox,
    image: &[u8],
    trace_points: &[TracePoint],
    subsets: &Vec<MapSubset>,
    positions: &Vec<Position>,
) -> (r: String)
    requires
        viewbox.wf(),
    ensures
        r@ == rendered(viewbox, image@, trace_points@, subsets@, positions@),
{
    let mut doc = new_document();
    set_attribute(&mut doc, "viewBox", viewbox_string(viewbox).as_str());
    append_child(&mut doc, definitions());
    append_child(&mut doc, image_element(viewbox, image));
    let ghost head = element_children(doc);
    for i in 0..subsets.len()
        invariant
            element_name(doc) == "svg"@,
            element_attributes(doc) == Attributes::empty().insert(
                "xmlns"@,
                "http://www.w3.org/2000/svg"@,
            ).insert("viewBox"@, viewbox_text(viewbox)),
            element_children(doc) == head + subset_markups(subsets@.subrange(0, i as int)),
    {
        append_child(&mut doc, get_svg_subset(&subsets[i]));
        assert(subset_markups(subsets@.subrange(0, i + 1)) =~= subset_markups(
            subsets@.subrange(0, i as int),
        ).push(subset_markup(subsets@[i as int].set_type@, subsets@[i as int].coordinates@)));
        assert(element_children(doc) =~= head + subset_markups(subsets@.subrange(0, i + 1)));
    }
    assert(subsets@.subrange(0, subsets@.len() as int) =~= subsets@);
    let ghost with_subsets = element_children(doc);
    match get_trace_path(trace_points) {
        Some(trace) => append_child(&mut doc, trace),
        None => {},
    }
    assert(element_children(doc) =~= with_subsets + trace_part(trace_points@));
    let ghost with_trace = element_children(doc);
    let mut markers = get_svg_positions(positions, viewbox);
    let ghost all = markups(markers@);
    let ghost count = markers@.len();
    while markers.len() > 0
        invariant
            element_name(doc) == "svg"@,
            element_attributes(doc) == Attributes::empty().insert(
                "xmlns"@,
                "http://www.w3.org/2000/svg"@,
            ).insert("viewBox"@, viewbox_text(viewbox)),
            markers@.len() <= count,
            all.len() == count,
            markups(markers@) == all.subrange(count - markers@.len(), count as int),
            element_children(doc) == with_trace + all.subrange(0, count - markers@.len()),
        decreases markers.len(),
    {
        let ghost taken = count - markers@.len();
        let ghost before = markers@;
        assert(markups(before)[0] == markup_of(before[0]));
        assert(markups(before)[0] == all[taken]);
        let e = markers.remove(0);
        assert(markers@ =~= before.subrange(1, before.len() as int));
        assert(markups(markers@) =~= markups(before).subrange(1, before.len() as int));
        assert(markup_of(e) == all[taken]);
        append_child(&mut doc, e);
        assert(markups(markers@) =~= all.subrange(count - markers@.len(), count as int));
        assert(element_children(doc) =~= with_trace + all.subrange(0, count - markers@.len()));
    }
    assert(all.subrange(0, count as int) =~= all);
    assert(element_children(doc) =~= Markups::empty().push(defs_markup()).push(
        image_markup(viewbox, image@),
    ) + subset_markups(subsets@) + trace_part(trace_points@) + position_markups(positions@, viewbox));
    let text = render(&doc);
    strip_newlines(text.as_str())
}

} // verus!
