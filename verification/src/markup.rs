//! Parsed markup as a tree of plain values.
//!
//! The `html_parser` crate turns text into a document tree; this module holds
//! that tree in types of its own, one tagged union for the three kinds of
//! node, so that the search for metadata can be stated and proved.

use vstd::prelude::*;

verus! {

/// One attribute of an element: its name and, where it was given one, its value.
#[derive(Debug)]
pub struct Attribute {
    pub name: String,
    pub value: Option<String>,
}

/// An element: its tag name, its attributes and its child nodes in document order.
#[derive(Debug)]
pub struct HtmlElement {
    pub name: String,
    pub attributes: Vec<Attribute>,
    pub children: Vec<HtmlNode>,
}

/// A node of a parsed document.
#[derive(Debug)]
pub enum HtmlNode {
    Text(String),
    Element(HtmlElement),
    Comment(String),
}

/// The mathematical value of an [`HtmlElement`].
pub struct ElementView {
    pub name: Seq<char>,
    /// The value of each attribute, by its name. An attribute that stands
    /// without a value has the value `None`.
    pub attributes: Map<Seq<char>, Option<Seq<char>>>,
    pub children: Seq<NodeView>,
}

/// The mathematical value of an [`HtmlNode`].
pub enum NodeView {
    Text(Seq<char>),
    Element(ElementView),
    Comment(Seq<char>),
}

/// The attributes of an element as a map from name to value. Of several
/// attributes with one name the first counts.
pub open spec fn attributes_view(attributes: Seq<Attribute>) -> Map<Seq<char>, Option<Seq<char>>>
    decreases attributes.len(),
{
    if attributes.len() == 0 {
        Map::empty()
    } else {
        attributes_view(attributes.skip(1)).insert(
            attributes[0].name@,
            attributes[0].value.deep_view(),
        )
    }
}

/// The value of one node.
pub open spec fn node_view(node: HtmlNode) -> NodeView
    decreases node,
{
    match node {
        HtmlNode::Text(t) => NodeView::Text(t@),
        HtmlNode::Comment(c) => NodeView::Comment(c@),
        HtmlNode::Element(e) => NodeView::Element(
            ElementView {
                name: e.name@,
                attributes: attributes_view(e.attributes@),
                children: nodes_view(e.children@),
            },
        ),
    }
}

/// The values of a sequence of nodes, in order.
pub open spec fn nodes_view(nodes: Seq<HtmlNode>) -> Seq<NodeView>
    decreases nodes,
{
    Seq::new(
        nodes.len(),
        |i: int|
            if 0 <= i < nodes.len() {
                node_view(nodes[i])
            } else {
                arbitrary()
            },
    )
}

/// The value of the attribute named `key`: `None` where there is no such
/// attribute, `Some(None)` where it stands without a value.
pub open spec fn attribute_value(
    attributes: Map<Seq<char>, Option<Seq<char>>>,
    key: Seq<char>,
) -> Option<Option<Seq<char>>> {
    if attributes.contains_key(key) {
        Some(attributes[key])
    } else {
        None
    }
}

impl HtmlElement {
    /// The mathematical value of the element.
    pub open spec fn view(&self) -> ElementView {
        ElementView {
            name: self.name@,
            attributes: attributes_view(self.attributes@),
            children: nodes_view(self.children@),
        }
    }

    /// Looks an attribute up by name; the first one of that name counts.
    pub fn attribute(&self, key: &str) -> (r: Option<&Option<String>>)
        ensures
            r.deep_view() == attribute_value(self@.attributes, key@),
    {
        let mut i: usize = 0;
        assert(self.attributes@.skip(0) == self.attributes@);
        while i < self.attributes.len()
            invariant
                i <= self.attributes.len(),
                attribute_value(self@.attributes, key@) == attribute_value(
                    attributes_view(self.attributes@.skip(i as int)),
                    key@,
                ),
            decreases self.attributes.len() - i,
        {
            assert(self.attributes@.skip(i as int)[0] == self.attributes[i as int]);
            assert(self.attributes@.skip(i as int).skip(1) == self.attributes@.skip(i + 1));
            if self.attributes[i].name.as_str().eq(key) {
                return Some(&self.attributes[i].value);
            }
            i += 1;
        }
        None
    }
}

/// A node of `html_parser`'s document tree.
#[verifier::external_type_specification]
#[verifier::external_body]
pub struct ExParserNode(html_parser::Node);

/// The error with which `html_parser` refuses a text.
#[verifier::external_type_specification]
#[verifier::external_body]
pub struct ExParserError(html_parser::Error);

/// The document that `html_parser::Dom::parse` gives for `text` where it
/// gives one: its root nodes, each with its subtree.
pub uninterp spec fn html_tree(text: Seq<char>) -> Option<Seq<NodeView>>;

/// Copies nodes of `html_parser` into [`HtmlNode`]s, variant by variant and
/// field by field, children included: an element keeps its `name`, the pairs
/// of its `attributes` map, and its `children`. This is the part of
/// [`parse_markup`] that walks the tree.
#[verifier::external_body]
fn import_nodes(nodes: &Vec<html_parser::Node>) -> (r: Vec<HtmlNode>) {
    nodes.iter().map(|node| match node {
        html_parser::Node::Text(t) => HtmlNode::Text(t.clone()),
        html_parser::Node::Comment(c) => HtmlNode::Comment(c.clone()),
        html_parser::Node::Element(e) => HtmlNode::Element(HtmlElement {
            name: e.name.clone(),
            attributes: e.attributes.iter().map(|(k, v)| Attribute {
                name: k.clone(),
                value: v.clone(),
            }).collect(),
            children: import_nodes(&e.children),
        }),
    }).collect()
}

/// Calls `html_parser::Dom::parse` and copies the root nodes of the document
/// that it returns, or hands on its error.
///
/// Whether the parser returns a document is not decided by the text alone: it
/// gives up where the text nests deeper than the stack of the calling thread
/// allows. A document that it does return is a function of the text. The
/// attributes of an element come out of a hash map, in an order that may
/// differ from run to run; their view, a map, does not show the order.
#[verifier::external_body]
fn parse_markup(html: &str) -> (r: Result<Vec<HtmlNode>, html_parser::Error>)
    ensures
        r matches Ok(nodes) ==> html_tree(html@) == Some(nodes_view(nodes@)),
{
    html_parser::Dom::parse(html).map(|dom| import_nodes(&dom.children))
}

/// Calls `to_string` on a parser error, which gives the parser's message.
/// Nothing is claimed of the text.
#[verifier::external_body]
pub(crate) fn parser_error_text(error: &html_parser::Error) -> (r: String) {
    error.to_string()
}

/// Parses markup into a tree of nodes.
///
/// Whether a text parses is the parser's decision: it refuses text that it
/// cannot structure, and may refuse text that nests too deep for it. The tree
/// that it gives for a text is always the same.
pub fn parse_document(html: &str) -> (r: Result<Vec<HtmlNode>, html_parser::Error>)
    ensures
        r matches Ok(nodes) ==> html_tree(html@) == Some(nodes_view(nodes@)),
{
    parse_markup(html)
}

/// What `htmlentity::entity::decode` makes of `content`, read back as text:
/// the content with each character reference that the crate knows replaced by
/// the character it stands for.
pub uninterp spec fn entity_decoded(content: Seq<char>) -> Seq<char>;

/// Calls `htmlentity::entity::decode` on the bytes of `content` and converts
/// the result with `to_string`; where the conversion fails, the content is
/// handed back as it came. The result is a function of the content alone, and
/// content without `&` comes back unchanged: the decoder looks for references
/// only behind that character.
#[verifier::external_body]
fn decode_entities(content: &str) -> (r: String)
    ensures
        r@ == entity_decoded(content@),
        !content@.contains('&') ==> r@ == content@,
{
    let decoded = htmlentity::entity::decode(content.as_bytes());
    htmlentity::entity::ICodedDataTrait::to_string(&decoded).unwrap_or(content.to_string())
}

/// Replaces the character references in `content` by their characters.
pub fn decode_content(content: &str) -> (r: String)
    ensures
        r@ == entity_decoded(content@),
        !content@.contains('&') ==> r@ == content@,
{
    decode_entities(content)
}

} // verus!
