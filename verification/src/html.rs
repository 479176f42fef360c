//! A parsed HTML document, read through the `tl` crate.
//!
//! Nodes are named by the index that `tl` gives them in its node table
//! (`tl::NodeHandle::get_inner`). What a query returns is a function of the
//! document's text and the query alone; the names below stand for those
//! results.
use vstd::prelude::*;
use crate::text::opt_text;

verus! {

/// Declares `tl::VDom`, a parsed HTML document; nothing is known of what it
/// holds but through the queries below.
#[verifier::external_type_specification]
#[verifier::external_body]
pub struct ExVDom<'a>(tl::VDom<'a>);

/// The node indices, in document order, of the elements of the document
/// `html` that match the CSS selector `selector`; `None` when `tl` cannot
/// parse the selector.
pub uninterp spec fn html_select(html: Seq<char>, selector: Seq<char>) -> Option<Seq<u32>>;

/// Whether node `node` of the document `html` exists and is an element
/// (rather than text or a comment).
pub uninterp spec fn html_is_element(html: Seq<char>, node: u32) -> bool;

/// The node indices, in document order, of the elements under element
/// `node` of the document `html` that match `selector`; `None` when the
/// node is not an element or the selector cannot be parsed.
pub uninterp spec fn html_select_within(html: Seq<char>, node: u32, selector: Seq<char>) -> Option<
    Seq<u32>,
>;

/// The text content of node `node` of the document `html`, markup left out;
/// `None` when there is no such node.
pub uninterp spec fn html_inner_text(html: Seq<char>, node: u32) -> Option<Seq<char>>;

/// `tl` parses every input whose UTF-8 encoding is at most `u32::MAX`
/// bytes long, and refuses longer ones.
pub open spec fn html_parses(html: Seq<char>) -> bool {
    vstd::utf8::encode_utf8(html).len() <= u32::MAX
}

/// A view of an optional list of node indices.
pub open spec fn opt_nodes(o: Option<Vec<u32>>) -> Option<Seq<u32>> {
    match o {
        Some(v) => Some(v@),
        None => None,
    }
}

/// An HTML document together with the text it was parsed from.
pub(crate) struct HtmlDocument<'a> {
    text: &'a str,
    dom: tl::VDom<'a>,
}

impl<'a> HtmlDocument<'a> {
    /// The text the document was parsed from.
    pub(crate) closed spec fn source(&self) -> Seq<char> {
        self.text@
    }

    /// Parses `html` with `tl::parse` and the default options. `tl` fails
    /// only when the input is longer than `u32::MAX` bytes.
    #[verifier::external_body]
    pub(crate) fn parse(html: &'a str) -> (r: Option<HtmlDocument<'a>>)
        ensures
            r is Some <==> html_parses(html@),
            r matches Some(d) ==> d.source() == html@,
    {
        let dom = tl::parse(html, tl::ParserOptions::default()).ok()?;
        Some(HtmlDocument { text: html, dom })
    }

    /// Calls `tl::VDom::query_selector` and lists the matching node indices.
    #[verifier::external_body]
    pub(crate) fn select(&self, selector: &str) -> (r: Option<Vec<u32>>)
        ensures
            opt_nodes(r) == html_select(self.source(), selector@),
    {
        let hits = self.dom.query_selector(selector)?;
        Some(hits.map(|h| h.get_inner()).collect())
    }

    /// Calls `tl::NodeHandle::get` and `tl::Node::as_tag`: whether the node
    /// exists and is an element.
    #[verifier::external_body]
    pub(crate) fn is_element(&self, node: u32) -> (r: bool)
        ensures
            r == html_is_element(self.source(), node),
    {
        match tl::NodeHandle::new(node).get(self.dom.parser()) {
            Some(n) => n.as_tag().is_some(),
            None => false,
        }
    }

    /// Calls `tl::HTMLTag::query_selector` on the element `node` and lists
    /// the matching node indices.
    #[verifier::external_body]
    pub(crate) fn select_within(&self, node: u32, selector: &str) -> (r: Option<Vec<u32>>)
        ensures
            opt_nodes(r) == html_select_within(self.source(), node, selector@),
    {
        let parser = self.dom.parser();
        let tag = tl::NodeHandle::new(node).get(parser)?.as_tag()?;
        let hits = tag.query_selector(parser, selector)?;
        Some(hits.map(|h| h.get_inner()).collect())
    }

    /// Calls `tl::Node::inner_text` on node `node`.
    #[verifier::external_body]
    pub(crate) fn inner_text(&self, node: u32) -> (r: Option<String>)
        ensures
            opt_text(r) == html_inner_text(self.source(), node),
    {
        let parser = self.dom.parser();
        let found = tl::NodeHandle::new(node).get(parser)?;
        Some(found.inner_text(parser).into_owned())
    }
}

} // verus!
