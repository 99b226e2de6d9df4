//! The boundary to the HTML parser `tl`.
//!
//! A parsed document is kept as the parser's own [`tl::VDom`]. What the
//! library reads from it is plain data: the identifiers of the nodes that a
//! selector yields, an attribute of one node, and the text inside one node.
//! Nothing in this file is proved: each item says what is taken on trust from
//! the parser. Parsing is a function of the text alone, so the results are
//! named by the text that the document was made from. Documents reach the
//! functions of this file from [`parse_document`] alone.
//!
//! The parser walks nested markup and chained selectors by recursion. How
//! deep it can go is a limit of the machine's stack, which is not modelled
//! here.

use vstd::prelude::*;
use vstd::utf8::encode_utf8;

verus! {

/// `tl::VDom`, the parsed document. Opaque here: it is only handed back to
/// the parser.
#[verifier::external_type_specification]
#[verifier::external_body]
pub struct ExVDom<'a>(tl::VDom<'a>);

/// `tl::ParseError`, the parser's refusal of a document.
#[verifier::external_type_specification]
#[verifier::external_body]
pub struct ExParseError(tl::ParseError);

/// What looking up an attribute of a node gave.
#[derive(Debug)]
pub enum AttributeReading {
    /// The identifier names no node of the document.
    Missing,
    /// The node is text or a comment, not a tag.
    NotATag,
    /// The tag does not carry the attribute.
    Lacking,
    /// The tag carries the attribute without a value.
    Bare,
    /// The tag carries the attribute with these bytes as its value.
    Valued(Vec<u8>),
}

/// [`AttributeReading`] as a mathematical value.
pub enum AttributeModel {
    Missing,
    NotATag,
    Lacking,
    Bare,
    Valued(Seq<u8>),
}

impl View for AttributeReading {
    type V = AttributeModel;

    open spec fn view(&self) -> AttributeModel {
        match self {
            AttributeReading::Missing => AttributeModel::Missing,
            AttributeReading::NotATag => AttributeModel::NotATag,
            AttributeReading::Lacking => AttributeModel::Lacking,
            AttributeReading::Bare => AttributeModel::Bare,
            AttributeReading::Valued(bytes) => AttributeModel::Valued(bytes@),
        }
    }
}

/// The text that a document was parsed from. A `tl::VDom` borrows that text
/// for as long as it lives, and this library never changes a document.
pub uninterp spec fn dom_source(dom: tl::VDom<'_>) -> Seq<char>;

/// The identifiers of the nodes that `selector` yields on the document parsed
/// from `html`, in the order of the parser's node table, which is the order in
/// which the nodes open in the text; `None` where the parser refuses the
/// selector.
pub uninterp spec fn selected_nodes(html: Seq<char>, selector: Seq<char>) -> Option<Seq<u32>>;

/// What the node `id` of the document parsed from `html` holds under the
/// attribute `name`.
pub uninterp spec fn node_attribute(html: Seq<char>, id: u32, name: Seq<char>) -> AttributeModel;

/// The text inside the node `id` of the document parsed from `html`, markup
/// left out; `None` where `id` names no node.
pub uninterp spec fn node_text(html: Seq<char>, id: u32) -> Option<Seq<char>>;

/// `tl::parse` with the default options. It refuses exactly the texts whose
/// length in bytes does not fit in a `u32`; any other text yields a document,
/// which is made from that text.
#[verifier::external_body]
pub(crate) fn parse_document(html: &str) -> (parsed: Result<tl::VDom<'_>, tl::ParseError>)
    ensures
        parsed is Ok <==> encode_utf8(html@).len() <= u32::MAX,
        parsed matches Ok(dom) ==> dom_source(dom) == html@,
{
    tl::parse(html, tl::ParserOptions::default())
}

/// `tl::VDom::query_selector`, its matches collected in the order in which the
/// iterator yields them, each as the number inside its `tl::NodeHandle`. The
/// iterator walks the node table from its start and yields each match under
/// its place in the table, so the numbers rise strictly.
#[verifier::external_body]
pub(crate) fn select_nodes(dom: &tl::VDom<'_>, selector: &str) -> (found: Option<Vec<u32>>)
    ensures
        found is Some <==> selected_nodes(dom_source(*dom), selector@) is Some,
        found matches Some(ids) ==> selected_nodes(dom_source(*dom), selector@) == Some(ids@),
        found matches Some(ids) ==> forall|i: int, j: int|
            0 <= i < j < ids@.len() ==> ids@[i] < ids@[j],
{
    let matches = dom.query_selector(selector)?;
    Some(matches.map(|handle| handle.get_inner()).collect())
}

/// `tl::NodeHandle::get`, `tl::Node::as_tag` and `tl::Attributes::get` in a
/// row: the node behind `id`, taken as a tag, asked for the attribute `name`.
/// Each way in which the chain ends is one variant of the result.
#[verifier::external_body]
pub(crate) fn read_attribute<'a>(dom: &tl::VDom<'a>, id: u32, name: &'a str) -> (reading:
    AttributeReading)
    ensures
        reading@ == node_attribute(dom_source(*dom), id, name@),
{
    let Some(node) = tl::NodeHandle::new(id).get(dom.parser()) else {
        return AttributeReading::Missing;
    };
    let Some(tag) = node.as_tag() else {
        return AttributeReading::NotATag;
    };
    match tag.attributes().get(name) {
        None => AttributeReading::Lacking,
        Some(None) => AttributeReading::Bare,
        Some(Some(value)) => AttributeReading::Valued(value.as_bytes().to_vec()),
    }
}

/// `tl::Node::inner_text` of the node behind `id`.
#[verifier::external_body]
pub(crate) fn read_text(dom: &tl::VDom<'_>, id: u32) -> (text: Option<String>)
    ensures
        text is Some <==> node_text(dom_source(*dom), id) is Some,
        text matches Some(inner) ==> node_text(dom_source(*dom), id) == Some(inner@),
{
    let node = tl::NodeHandle::new(id).get(dom.parser())?;
    Some(node.inner_text(dom.parser()).into_owned())
}

} // verus!
