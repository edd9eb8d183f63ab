use vstd::prelude::*;

use svg::node::element::Element;

verus! {

/// An element of the svg crate: a name, attributes and child nodes.
#[verifier::external_type_specification]
#[verifier::external_body]
pub struct ExElement(Element);

/// Attribute values by attribute name.
pub type Attributes = Map<Seq<char>, Seq<char>>;

/// The markup of each of a sequence of nodes.
pub type Markups = Seq<Seq<char>>;

/// The name of an element.
pub uninterp spec fn element_name(e: Element) -> Seq<char>;

/// The attributes of an element, by name.
pub uninterp spec fn element_attributes(e: Element) -> Map<Seq<char>, Seq<char>>;

/// The markup of each child of an element, in order.
pub uninterp spec fn element_children(e: Element) -> Seq<Seq<char>>;

/// The markup that the svg crate writes for an element with this name,
/// these attributes (it sorts them by name) and child elements with this
/// markup.
pub uninterp spec fn svg_markup(
    name: Seq<char>,
    attributes: Map<Seq<char>, Seq<char>>,
    children: Seq<Seq<char>>,
) -> Seq<char>;

/// The markup of an element.
pub open spec fn markup_of(e: Element) -> Seq<char> {
    svg_markup(element_name(e), element_attributes(e), element_children(e))
}

/// Relies on svg's `Element::new`: an element of that name with no
/// attributes and no children.
#[verifier::external_body]
pub(crate) fn new_element(name: &str) -> (e: Element)
    ensures
        element_name(e) == name@,
        element_attributes(e) == Attributes::empty(),
        element_children(e) == Markups::empty(),
{
    Element::new(name)
}

/// Relies on svg's `Document::new`: an `svg` element whose one attribute
/// declares the SVG namespace.
#[verifier::external_body]
pub(crate) fn new_document() -> (e: Element)
    ensures
        element_name(e) == "svg"@,
        element_attributes(e) == Attributes::empty().insert(
            "xmlns"@,
            "http://www.w3.org/2000/svg"@,
        ),
        element_children(e) == Markups::empty(),
{
    svg::Document::new().into()
}

/// Relies on svg's `Node::assign` for an element: sets the attribute,
/// replacing an earlier value.
#[verifier::external_body]
pub(crate) fn set_attribute(e: &mut Element, name: &str, value: &str)
    ensures
        element_name(*final(e)) == element_name(*old(e)),
        element_attributes(*final(e)) == element_attributes(*old(e)).insert(name@, value@),
        element_children(*final(e)) == element_children(*old(e)),
{
    svg::Node::assign(e, name, value)
}

/// Relies on svg's `Node::append` for an element: adds the child last.
#[verifier::external_body]
pub(crate) fn append_child(e: &mut Element, child: Element)
    ensures
        element_name(*final(e)) == element_name(*old(e)),
        element_attributes(*final(e)) == element_attributes(*old(e)),
        element_children(*final(e)) == element_children(*old(e)).push(
            svg_markup(element_name(child), element_attributes(child), element_children(child)),
        ),
{
    svg::Node::append(e, child)
}

/// Relies on svg's `Display` for an element: its markup.
#[verifier::external_body]
pub(crate) fn render(e: &Element) -> (r: String)
    ensures
        r@ == svg_markup(element_name(*e), element_attributes(*e), element_children(*e)),
{
    e.to_string()
}

} // verus!
