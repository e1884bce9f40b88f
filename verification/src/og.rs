//! Extraction of Open Graph metadata from a parsed page.
//!
//! A page declares a property with an element `<meta property="og:NAME"
//! content="VALUE">`. The search visits every element of the document in
//! document order, depth first, and records each declaration it meets. Of
//! several declarations of one name the first counts.

use crate::markup::attribute_value;
use crate::markup::decode_content;
use crate::markup::entity_decoded;
use crate::markup::html_tree;
use crate::markup::parse_document;
use crate::markup::parser_error_text;
use crate::markup::node_view;
use crate::markup::nodes_view;
use crate::markup::ElementView;
use crate::markup::HtmlElement;
use crate::markup::HtmlNode;
use crate::markup::NodeView;
use crate::text::has_prefix;
use crate::text::joined;
use crate::text::owned;
use crate::text::strip_prefix;
use crate::web_url::clone_text;
use crate::web_url::resolved;
use crate::web_url::url_joined;
use crate::web_url::url_parsed;
use crate::web_url::PageUrl;
use crate::web_url::UrlView;
use vstd::prelude::*;

verus! {

/// One declared property: its name without the `og:` prefix, and its content
/// as written in the page.
#[derive(Debug)]
pub struct MetaProperty {
    pub name: String,
    pub content: String,
}

/// The mathematical value of a [`MetaProperty`].
pub struct PropertyView {
    pub name: Seq<char>,
    pub content: Seq<char>,
}

impl View for MetaProperty {
    type V = PropertyView;

    open spec fn view(&self) -> PropertyView {
        PropertyView { name: self.name@, content: self.content@ }
    }
}

impl DeepView for MetaProperty {
    type V = PropertyView;

    open spec fn deep_view(&self) -> PropertyView {
        self@
    }
}

/// The property that an element declares by itself: it is named `meta`, its
/// `property` attribute has a value that begins with `og:`, and its `content`
/// attribute has a value.
pub open spec fn declared_property(e: ElementView) -> Option<PropertyView> {
    match (attribute_value(e.attributes, "property"@), attribute_value(e.attributes, "content"@)) {
        (Some(Some(property)), Some(Some(content))) => if e.name == "meta"@ && has_prefix(
            property,
            "og:"@,
        ) {
            Some(PropertyView { name: property.skip("og:"@.len() as int), content })
        } else {
            None
        },
        _ => None,
    }
}

/// The properties declared in the subtree of one node, in document order: the
/// node's own declaration first, then those of its children.
pub open spec fn properties_of_node(node: NodeView) -> Seq<PropertyView>
    decreases node,
{
    match node {
        NodeView::Element(e) => {
            let own = match declared_property(e) {
                Some(p) => seq![p],
                None => Seq::empty(),
            };
            own + properties_of(e.children)
        },
        _ => Seq::empty(),
    }
}

/// The properties declared in a sequence of sibling subtrees, in document order.
pub open spec fn properties_of(nodes: Seq<NodeView>) -> Seq<PropertyView>
    decreases nodes,
{
    if nodes.len() == 0 {
        Seq::empty()
    } else {
        properties_of(nodes.drop_last()) + properties_of_node(nodes.last())
    }
}

/// The property that `element` declares by itself, if it declares one.
pub fn meta_property(element: &HtmlElement) -> (r: Option<MetaProperty>)
    ensures
        r.deep_view() == declared_property(element@),
{
    if !element.name.as_str().eq("meta") {
        return None;
    }
    let property = match element.attribute("property") {
        Some(Some(p)) => p,
        _ => { return None; },
    };
    let content = match element.attribute("content") {
        Some(Some(c)) => c,
        _ => { return None; },
    };
    match strip_prefix(property.as_str(), "og:") {
        Some(name) => Some(MetaProperty { name, content: content.clone() }),
        None => None,
    }
}

/// Appends to `result` every property declared under `nodes`, in document
/// order, depth first.
pub fn deep_search_meta(nodes: &Vec<HtmlNode>, result: &mut Vec<MetaProperty>)
    ensures
        final(result).deep_view() == old(result).deep_view() + properties_of(nodes_view(nodes@)),
    decreases nodes,
{
    let mut i: usize = 0;
    assert(nodes@.take(0) == Seq::<HtmlNode>::empty());
    assert(result.deep_view() == old(result).deep_view() + Seq::<PropertyView>::empty());
    while i < nodes.len()
        invariant
            i <= nodes.len(),
            result.deep_view() == old(result).deep_view() + properties_of(
                nodes_view(nodes@.take(i as int)),
            ),
        decreases nodes.len() - i,
    {
        let ghost before = result.deep_view();
        assert(nodes_view(nodes@.take(i + 1)).drop_last() == nodes_view(nodes@.take(i as int)));
        assert(nodes_view(nodes@.take(i + 1)).last() == node_view(nodes@[i as int]));
        match &nodes[i] {
            HtmlNode::Element(e) => {
                match meta_property(e) {
                    Some(p) => {
                        result.push(p);
                        assert(result.deep_view() == before.push(p@));
                    },
                    None => {},
                }
                deep_search_meta(&e.children, result);
                assert(result.deep_view() == before + properties_of_node(node_view(nodes@[i as int])));
            },
            _ => {
                assert(result.deep_view() == before + properties_of_node(node_view(nodes@[i as int])));
            },
        }
        i += 1;
    }
    assert(nodes@.take(nodes.len() as int) == nodes@);
}

/// The content of the first property named `key`.
pub open spec fn first_content(properties: Seq<PropertyView>, key: Seq<char>) -> Option<Seq<char>>
    decreases properties.len(),
{
    if properties.len() == 0 {
        None
    } else if properties[0].name == key {
        Some(properties[0].content)
    } else {
        first_content(properties.skip(1), key)
    }
}

/// The content of the first property named `key`, if there is one.
pub fn find_first<'a>(properties: &'a Vec<MetaProperty>, key: &str) -> (r: Option<&'a String>)
    ensures
        r.deep_view() == first_content(properties.deep_view(), key@),
{
    let mut i: usize = 0;
    assert(properties.deep_view().skip(0) == properties.deep_view());
    while i < properties.len()
        invariant
            i <= properties.len(),
            first_content(properties.deep_view(), key@) == first_content(
                properties.deep_view().skip(i as int),
                key@,
            ),
        decreases properties.len() - i,
    {
        assert(properties.deep_view().skip(i as int)[0] == properties[i as int]@);
        if properties[i].name.as_str().eq(key) {
            return Some(&properties[i].content);
        }
        assert(properties.deep_view().skip(i as int).skip(1) == properties.deep_view().skip(i + 1));
        i += 1;
    }
    None
}

/// The preview metadata of one page.
#[derive(Debug)]
pub struct OGData {
    /// The title of the page.
    pub title: Option<String>,
    /// The preview image, as an absolute URL.
    pub image: Option<PageUrl>,
    /// The canonical URL of the page.
    pub url: PageUrl,
    /// A short description of the page.
    pub description: Option<String>,
    /// The name of the site that the page belongs to.
    pub site_name: Option<String>,
}

/// The mathematical value of an [`OGData`].
pub struct OGDataView {
    pub title: Option<Seq<char>>,
    pub image: Option<UrlView>,
    pub url: UrlView,
    pub description: Option<Seq<char>>,
    pub site_name: Option<Seq<char>>,
}

impl View for OGData {
    type V = OGDataView;

    open spec fn view(&self) -> OGDataView {
        OGDataView {
            title: self.title.deep_view(),
            image: self.image.deep_view(),
            url: self.url@,
            description: self.description.deep_view(),
            site_name: self.site_name.deep_view(),
        }
    }
}

impl DeepView for OGData {
    type V = OGDataView;

    open spec fn deep_view(&self) -> OGDataView {
        self@
    }
}

impl Clone for OGData {
    fn clone(&self) -> (r: Self)
        ensures
            r@ == self@,
    {
        OGData {
            title: clone_text(&self.title),
            image: match &self.image {
                Some(u) => Some(u.clone()),
                None => None,
            },
            url: self.url.clone(),
            description: clone_text(&self.description),
            site_name: clone_text(&self.site_name),
        }
    }
}

impl OGData {
    /// Puts a record together. The canonical URL is `canonical` where the page
    /// gave a usable one, else the URL that the page was fetched from.
    pub fn assemble(
        title: Option<String>,
        image: Option<PageUrl>,
        canonical: Option<PageUrl>,
        description: Option<String>,
        site_name: Option<String>,
        source_url: PageUrl,
    ) -> (r: OGData)
        ensures
            r@ == (OGDataView {
                title: title.deep_view(),
                image: image.deep_view(),
                url: match canonical {
                    Some(u) => u@,
                    None => source_url@,
                },
                description: description.deep_view(),
                site_name: site_name.deep_view(),
            }),
    {
        let url = match canonical {
            Some(u) => u,
            None => source_url,
        };
        OGData { title, image, url, description, site_name }
    }
}

/// A text property as it is stored: with its character references decoded.
pub open spec fn decoded(content: Option<Seq<char>>) -> Option<Seq<char>> {
    match content {
        Some(c) => Some(entity_decoded(c)),
        None => None,
    }
}

/// A link property as it is stored: its decoded content read as an absolute
/// URL, or else resolved against the page's own URL; absent where neither
/// reading succeeds.
pub open spec fn link(content: Option<Seq<char>>, source: UrlView) -> Option<UrlView> {
    match decoded(content) {
        Some(v) => resolved(url_parsed(v), url_joined(source.href, v)),
        None => None,
    }
}

/// The record that a list of declared properties gives for the page at `source`.
pub open spec fn og_from(properties: Seq<PropertyView>, source: UrlView) -> OGDataView {
    OGDataView {
        title: decoded(first_content(properties, "title"@)),
        image: link(first_content(properties, "image"@), source),
        url: match link(first_content(properties, "url"@), source) {
            Some(u) => u,
            None => source,
        },
        description: decoded(first_content(properties, "description"@)),
        site_name: decoded(first_content(properties, "site_name"@)),
    }
}

/// The record that a parsed document gives for the page at `source`.
pub open spec fn og_of(nodes: Seq<NodeView>, source: UrlView) -> OGDataView {
    og_from(properties_of(nodes), source)
}

/// Of several declarations of one property the first counts: what is declared
/// behind a declaration of `key` does not change what `key` is read as.
pub proof fn lemma_first_declaration_wins(
    properties: Seq<PropertyView>,
    later: Seq<PropertyView>,
    key: Seq<char>,
)
    requires
        first_content(properties, key) is Some,
    ensures
        first_content(properties + later, key) == first_content(properties, key),
    decreases properties.len(),
{
    assert((properties + later)[0] == properties[0]);
    if properties[0].name != key {
        assert((properties + later).skip(1) == properties.skip(1) + later);
        lemma_first_declaration_wins(properties.skip(1), later, key);
    }
}

/// The properties of two runs of sibling nodes, one behind the other, are the
/// properties of the first run followed by those of the second.
pub proof fn lemma_properties_in_document_order(first: Seq<NodeView>, second: Seq<NodeView>)
    ensures
        properties_of(first + second) == properties_of(first) + properties_of(second),
    decreases second.len(),
{
    if second.len() == 0 {
        assert(first + second == first);
    } else {
        assert((first + second).drop_last() == first + second.drop_last());
        assert((first + second).last() == second.last());
        lemma_properties_in_document_order(first, second.drop_last());
    }
}

/// The first declaration of a property in document order is the one that the
/// record shows: markup that follows a document which declares `key` changes
/// neither the content that `key` is read from nor, for the five properties of
/// a record, the field that is made of it.
pub proof fn lemma_first_in_document_wins(
    nodes: Seq<NodeView>,
    later: Seq<NodeView>,
    key: Seq<char>,
    source: UrlView,
)
    requires
        first_content(properties_of(nodes), key) is Some,
    ensures
        first_content(properties_of(nodes + later), key) == first_content(
            properties_of(nodes),
            key,
        ),
        key == "title"@ ==> og_of(nodes + later, source).title == og_of(nodes, source).title,
        key == "image"@ ==> og_of(nodes + later, source).image == og_of(nodes, source).image,
        key == "url"@ ==> og_of(nodes + later, source).url == og_of(nodes, source).url,
        key == "description"@ ==> og_of(nodes + later, source).description == og_of(
            nodes,
            source,
        ).description,
        key == "site_name"@ ==> og_of(nodes + later, source).site_name == og_of(
            nodes,
            source,
        ).site_name,
{
    lemma_properties_in_document_order(nodes, later);
    lemma_first_declaration_wins(properties_of(nodes), properties_of(later), key);
}

/// A page that declares no `url` property has the URL it was fetched from as
/// its canonical URL; so has a page whose `url` property cannot be read as a
/// link.
pub proof fn lemma_canonical_defaults_to_source(properties: Seq<PropertyView>, source: UrlView)
    ensures
        first_content(properties, "url"@) is None ==> og_from(properties, source).url == source,
        link(first_content(properties, "url"@), source) is None ==> og_from(
            properties,
            source,
        ).url == source,
{
}

/// A field of a record is absent only where the page gave nothing for it: a
/// text field is present exactly where its property is declared.
pub proof fn lemma_absent_means_undeclared(properties: Seq<PropertyView>, source: UrlView)
    ensures
        og_from(properties, source).title is Some <==> first_content(properties, "title"@)
            is Some,
        og_from(properties, source).description is Some <==> first_content(
            properties,
            "description"@,
        ) is Some,
        og_from(properties, source).site_name is Some <==> first_content(
            properties,
            "site_name"@,
        ) is Some,
        og_from(properties, source).image is Some ==> first_content(properties, "image"@)
            is Some,
{
}

/// The decoded content of the first property named `key`.
fn text_property(properties: &Vec<MetaProperty>, key: &str) -> (r: Option<String>)
    ensures
        r.deep_view() == decoded(first_content(properties.deep_view(), key@)),
{
    match find_first(properties, key) {
        Some(content) => Some(decode_content(content.as_str())),
        None => None,
    }
}

/// The first property named `key`, read as a link on the page at `source`.
fn link_property(properties: &Vec<MetaProperty>, key: &str, source: &PageUrl) -> (r: Option<PageUrl>)
    ensures
        r.deep_view() == link(first_content(properties.deep_view(), key@), source@),
{
    match text_property(properties, key) {
        Some(value) => source.resolve(value.as_str()),
        None => None,
    }
}

/// Builds the record of the page at `source_url` from its declared properties.
pub fn og_from_properties(properties: &Vec<MetaProperty>, source_url: PageUrl) -> (r: OGData)
    ensures
        r@ == og_from(properties.deep_view(), source_url@),
{
    let title = text_property(properties, "title");
    let image = link_property(properties, "image", &source_url);
    let canonical = link_property(properties, "url", &source_url);
    let description = text_property(properties, "description");
    let site_name = text_property(properties, "site_name");
    OGData::assemble(title, image, canonical, description, site_name, source_url)
}

/// Builds the record of the page at `source_url` from its parsed document.
pub fn og_from_nodes(nodes: &Vec<HtmlNode>, source_url: PageUrl) -> (r: OGData)
    ensures
        r@ == og_of(nodes_view(nodes@), source_url@),
{
    let mut properties: Vec<MetaProperty> = Vec::new();
    deep_search_meta(nodes, &mut properties);
    assert(properties.deep_view() == properties_of(nodes_view(nodes@)));
    og_from_properties(&properties, source_url)
}

/// Extracts the preview metadata of the page at `source_url` from its markup.
///
/// Whether the markup parses is the parser's decision. Where it does, the
/// record is the one that the parsed document gives; missing tags leave their
/// fields absent and never fail.
pub fn extract_og(html: String, source_url: PageUrl) -> (r: Result<OGData, html_parser::Error>)
    ensures
        r matches Ok(data) ==> html_tree(html@) matches Some(nodes) && data@ == og_of(
            nodes,
            source_url@,
        ),
{
    og_from_parsed(parse_document(html.as_str()), source_url)
}

/// Turns the parser's answer into the result of extraction. A document gives
/// its record, whatever tags it holds or lacks: extraction itself never
/// fails. A refusal of the parser is handed on as it came.
pub fn og_from_parsed(
    parsed: Result<Vec<HtmlNode>, html_parser::Error>,
    source_url: PageUrl,
) -> (r: Result<OGData, html_parser::Error>)
    ensures
        match parsed {
            Ok(nodes) => r matches Ok(data) && data@ == og_of(nodes_view(nodes@), source_url@),
            Err(refusal) => r matches Err(e) && e == refusal,
        },
{
    match parsed {
        Ok(nodes) => Ok(og_from_nodes(&nodes, source_url)),
        Err(refusal) => Err(refusal),
    }
}

/// Why the metadata of a page could not be had.
#[derive(Debug)]
pub enum OGError {
    /// The page could not be fetched; the text says why.
    RequestError(String),
    /// The page's markup could not be parsed; the text is the parser's.
    HTMLError(String),
}

/// The mathematical value of an [`OGError`].
pub enum OGErrorView {
    RequestError(Seq<char>),
    HTMLError(Seq<char>),
}

impl View for OGError {
    type V = OGErrorView;

    open spec fn view(&self) -> OGErrorView {
        match self {
            OGError::RequestError(m) => OGErrorView::RequestError(m@),
            OGError::HTMLError(m) => OGErrorView::HTMLError(m@),
        }
    }
}

impl DeepView for OGError {
    type V = OGErrorView;

    open spec fn deep_view(&self) -> OGErrorView {
        self@
    }
}

/// An [`OGError`] in words.
pub open spec fn og_error_text(e: OGErrorView) -> Seq<char> {
    match e {
        OGErrorView::HTMLError(h) => "Unable to parse the html: "@ + h,
        OGErrorView::RequestError(r) => "Unable to request the specified url: "@ + r,
    }
}

impl OGError {
    /// The error in words.
    pub fn message(&self) -> (r: String)
        ensures
            r@ == og_error_text(self@),
    {
        match self {
            OGError::HTMLError(h) => joined("Unable to parse the html: ", h.as_str()),
            OGError::RequestError(e) => joined(
                "Unable to request the specified url: ",
                e.as_str(),
            ),
        }
    }

}

/// One header of a request.
#[derive(Debug)]
pub struct Header {
    pub name: String,
    pub value: String,
}

/// A GET request: where it goes and the headers it carries.
#[derive(Debug)]
pub struct GetRequest {
    pub url: String,
    pub headers: Vec<Header>,
}

/// The mathematical value of a [`Header`].
pub struct HeaderView {
    pub name: Seq<char>,
    pub value: Seq<char>,
}

/// The mathematical value of a [`GetRequest`].
pub struct RequestView {
    pub url: Seq<char>,
    pub headers: Seq<HeaderView>,
}

impl View for Header {
    type V = HeaderView;

    open spec fn view(&self) -> HeaderView {
        HeaderView { name: self.name@, value: self.value@ }
    }
}

impl DeepView for Header {
    type V = HeaderView;

    open spec fn deep_view(&self) -> HeaderView {
        self@
    }
}

impl View for GetRequest {
    type V = RequestView;

    open spec fn view(&self) -> RequestView {
        RequestView { url: self.url@, headers: self.headers.deep_view() }
    }
}

/// The request with which the resource at `url` is fetched: the headers are
/// those of a common desktop browser, so that sites which vary their output
/// by client answer as they would to a person.
pub open spec fn request_for(url: UrlView) -> RequestView {
    RequestView {
        url: url.href,
        headers: seq![
            HeaderView {
                name: "User-Agent"@,
                value: "Mozilla/5.0 (Windows NT 10.0; Win64; x64) AppleWebKit/537.36 (KHTML, like Gecko) Chrome/122.0.0.0 Safari/537.36"@,
            },
            HeaderView {
                name: "Accept"@,
                value: "text/html,application/xhtml+xml,application/xml;q=0.9,image/webp,*/*;q=0.8"@,
            },
            HeaderView { name: "Accept-Language"@, value: "en-US,en;q=0.9"@ },
        ],
    }
}

/// The request with which a page, an image or an icon is fetched: a GET of
/// `url` with a fixed set of three headers.
pub fn create_get_request(url: &PageUrl) -> (r: GetRequest)
    ensures
        r@ == request_for(url@),
{
    let mut headers: Vec<Header> = Vec::new();
    headers.push(
        Header {
            name: owned("User-Agent"),
            value: owned(
                "Mozilla/5.0 (Windows NT 10.0; Win64; x64) AppleWebKit/537.36 (KHTML, like Gecko) Chrome/122.0.0.0 Safari/537.36",
            ),
        },
    );
    headers.push(
        Header {
            name: owned("Accept"),
            value: owned(
                "text/html,application/xhtml+xml,application/xml;q=0.9,image/webp,*/*;q=0.8",
            ),
        },
    );
    headers.push(Header { name: owned("Accept-Language"), value: owned("en-US,en;q=0.9") });
    let r = GetRequest { url: url.href.clone(), headers };
    assert(r@.headers == request_for(url@).headers);
    r
}

/// The mathematical value of the outcome of [`get_og`].
pub open spec fn outcome_view(outcome: Result<OGData, OGError>) -> Result<OGDataView, OGErrorView> {
    match outcome {
        Ok(data) => Ok(data@),
        Err(e) => Err(e@),
    }
}

/// What extraction can make of the page `html`, fetched from `url`: the
/// record of the document that the page parses to, or the parser's refusal.
pub open spec fn extraction_outcome(
    outcome: Result<OGDataView, OGErrorView>,
    html: Seq<char>,
    url: UrlView,
) -> bool {
    match outcome {
        Ok(data) => html_tree(html) matches Some(nodes) && data == og_of(nodes, url),
        Err(e) => e is HTMLError,
    }
}

/// Turns the answer to a page request into the page's metadata.
///
/// `response` is the body of the page as text, or the reason why the request
/// failed. A failed request is a `RequestError` with that reason; markup that
/// the parser refuses is an `HTMLError`.
pub fn get_og(url: PageUrl, response: Result<String, String>) -> (r: Result<OGData, OGError>)
    ensures
        response matches Err(reason) ==> outcome_view(r) == Err::<OGDataView, OGErrorView>(
            OGErrorView::RequestError(reason@),
        ),
        response matches Ok(html) ==> extraction_outcome(outcome_view(r), html@, url@),
{
    match response {
        Err(reason) => Err(OGError::RequestError(reason)),
        Ok(html) => match extract_og(html, url) {
            Ok(data) => Ok(data),
            Err(e) => Err(OGError::HTMLError(parser_error_text(&e))),
        },
    }
}

} // verus!
