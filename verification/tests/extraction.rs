use og_cache::markup::decode_content;
use og_cache::markup::parse_document;
use og_cache::markup::Attribute;
use og_cache::markup::HtmlElement;
use og_cache::markup::HtmlNode;
use og_cache::og::deep_search_meta;
use og_cache::og::extract_og;
use og_cache::og::find_first;
use og_cache::og::get_og;
use og_cache::og::meta_property;
use og_cache::og::og_from_nodes;
use og_cache::og::og_from_parsed;
use og_cache::og::og_from_properties;
use og_cache::og::MetaProperty;
use og_cache::og::OGData;
use og_cache::og::OGError;
use og_cache::web_url::PageUrl;

fn page(url: &str) -> PageUrl {
    PageUrl::parse(url).expect("an absolute URL")
}

fn attribute(name: &str, value: Option<&str>) -> Attribute {
    Attribute { name: name.to_string(), value: value.map(|v| v.to_string()) }
}

fn element(name: &str, attributes: Vec<Attribute>, children: Vec<HtmlNode>) -> HtmlNode {
    HtmlNode::Element(HtmlElement { name: name.to_string(), attributes, children })
}

fn meta(property: &str, content: &str) -> HtmlNode {
    element(
        "meta",
        vec![attribute("property", Some(property)), attribute("content", Some(content))],
        vec![],
    )
}

fn names_and_contents(found: &[MetaProperty]) -> Vec<(String, String)> {
    found.iter().map(|p| (p.name.clone(), p.content.clone())).collect()
}

fn pair(name: &str, content: &str) -> (String, String) {
    (name.to_string(), content.to_string())
}

#[test]
fn extracts_title_and_relative_image() {
    let html = "<html><head><meta property=\"og:title\" content=\"Example &amp; Co\"><meta property=\"og:image\" content=\"/img.png\"></head><body></body></html>";
    let data = extract_og(html.to_string(), page("https://ex.com/page")).expect("parses");
    assert_eq!(data.title.as_deref(), Some("Example & Co"));
    assert_eq!(data.image.expect("an image").href, "https://ex.com/img.png");
    assert_eq!(data.url.href, "https://ex.com/page");
    assert_eq!(data.description, None);
    assert_eq!(data.site_name, None);
}

#[test]
fn first_duplicate_property_wins() {
    let html = "<html><head><meta property=\"og:title\" content=\"First\"><meta property=\"og:title\" content=\"Second\"></head></html>";
    let data = extract_og(html.to_string(), page("https://ex.com/page")).expect("parses");
    assert_eq!(data.title.as_deref(), Some("First"));
}

#[test]
fn first_duplicate_wins_across_subtrees() {
    let nodes = vec![
        element(
            "div",
            vec![],
            vec![element("section", vec![], vec![meta("og:title", "Deep and early")])],
        ),
        meta("og:title", "Shallow and late"),
    ];
    let data = og_from_nodes(&nodes, page("https://ex.com/"));
    assert_eq!(data.title.as_deref(), Some("Deep and early"));
}

#[test]
fn canonical_url_defaults_to_source() {
    let html = "<html><head><title>t</title></head></html>";
    let data = extract_og(html.to_string(), page("https://ex.com/a?b=1")).expect("parses");
    assert_eq!(data.url.href, "https://ex.com/a?b=1");
    assert_eq!(data.url.host.as_deref(), Some("ex.com"));
    assert_eq!(data.url.path, "/a");
    assert_eq!(data.url.query.as_deref(), Some("b=1"));
    assert_eq!(data.title, None);
    assert!(data.image.is_none());
}

#[test]
fn malformed_markup_is_an_error() {
    let unterminated = "<html><head><!-- never closed <meta property=\"og:title\" content=\"x\">";
    assert!(extract_og(unterminated.to_string(), page("https://ex.com/")).is_err());
    assert!(extract_og("<div></div><!bad".to_string(), page("https://ex.com/")).is_err());
    assert!(parse_document("<!x").is_err());
}

#[test]
fn tag_soup_that_still_parses_leaves_fields_absent() {
    let data = extract_og("<div><span></div>".to_string(), page("https://ex.com/x")).expect("parses");
    assert_eq!(data.title, None);
    assert_eq!(data.url.href, "https://ex.com/x");
    let data = extract_og(String::new(), page("https://ex.com/x")).expect("parses");
    assert_eq!(data.title, None);
    assert!(data.image.is_none());
}

#[test]
fn parsed_document_always_gives_a_record() {
    let parsed = Ok(vec![meta("og:title", "From a tree"), meta("og:url", "/canon")]);
    let data = og_from_parsed(parsed, page("https://ex.com/a")).expect("a record");
    assert_eq!(data.title.as_deref(), Some("From a tree"));
    assert_eq!(data.url.href, "https://ex.com/canon");
    let data = og_from_parsed(Ok(Vec::new()), page("https://ex.com/a")).expect("a record");
    assert_eq!(data.title, None);
    assert!(data.image.is_none());
    assert_eq!(data.url.href, "https://ex.com/a");
}

#[test]
fn parser_refusal_is_handed_on() {
    let refusal = html_parser::Error::Parsing("no closing tag".to_string());
    let r = og_from_parsed(Err(refusal), page("https://ex.com/a"));
    match r {
        Err(html_parser::Error::Parsing(m)) => assert_eq!(m, "no closing tag"),
        other => panic!("the refusal was expected, not {:?}", other.map(|d| d.title)),
    }
    let parsed = parse_document("<p></p><!-- never closed");
    let message = parsed.as_ref().expect_err("a refusal").to_string();
    let r = og_from_parsed(parsed, page("https://ex.com/a"));
    assert_eq!(r.expect_err("a refusal").to_string(), message);
}

#[test]
fn parser_error_has_a_message() {
    let error = parse_document("<!doctype html><html></html><html></html>").expect_err("two roots");
    assert_eq!(error.to_string(), "Document with multiple HTML tags");
    let r = get_og(
        page("https://ex.com/"),
        Ok("<!doctype html><html></html><html></html>".to_string()),
    );
    match r {
        Err(OGError::HTMLError(m)) => assert_eq!(m, "Document with multiple HTML tags"),
        other => panic!("an html error was expected, not {:?}", other),
    }
}

#[test]
fn all_five_properties_are_read() {
    let html = "<!doctype html><html><head>\
        <meta property=\"og:title\" content=\"T\">\
        <meta property=\"og:description\" content=\"D &lt;3\">\
        <meta property=\"og:site_name\" content=\"S\">\
        <meta property=\"og:url\" content=\"https://canon.example/p?q=2\">\
        <meta property=\"og:image\" content=\"https://cdn.example/i.jpg\">\
        </head><body><p>text</p></body></html>";
    let data = extract_og(html.to_string(), page("https://ex.com/page")).expect("parses");
    assert_eq!(data.title.as_deref(), Some("T"));
    assert_eq!(data.description.as_deref(), Some("D <3"));
    assert_eq!(data.site_name.as_deref(), Some("S"));
    assert_eq!(data.url.href, "https://canon.example/p?q=2");
    assert_eq!(data.url.host.as_deref(), Some("canon.example"));
    assert_eq!(data.image.expect("an image").href, "https://cdn.example/i.jpg");
}

#[test]
fn relative_canonical_url_is_resolved_against_the_source() {
    let html = "<meta property=\"og:url\" content=\"../other?x=1\">";
    let data = extract_og(html.to_string(), page("https://ex.com/a/b/c")).expect("parses");
    assert_eq!(data.url.href, "https://ex.com/a/other?x=1");
}

#[test]
fn unusable_link_is_treated_as_absent() {
    let source = PageUrl {
        href: "mailto:someone@ex.com".to_string(),
        host: None,
        path: "someone@ex.com".to_string(),
        query: None,
    };
    let nodes = vec![meta("og:image", "/img.png"), meta("og:url", "/canon")];
    let data = og_from_nodes(&nodes, source);
    assert!(data.image.is_none());
    assert_eq!(data.url.href, "mailto:someone@ex.com");
}

#[test]
fn search_visits_every_element_in_document_order() {
    let nodes = vec![
        HtmlNode::Comment("c".to_string()),
        element(
            "html",
            vec![],
            vec![
                element(
                    "head",
                    vec![],
                    vec![
                        meta("og:title", "one"),
                        HtmlNode::Text("between".to_string()),
                        element("noscript", vec![], vec![meta("og:image", "two")]),
                    ],
                ),
                element("body", vec![], vec![meta("og:title", "three")]),
            ],
        ),
        meta("og:type", "four"),
    ];
    let mut found = vec![MetaProperty { name: "kept".to_string(), content: "zero".to_string() }];
    deep_search_meta(&nodes, &mut found);
    assert_eq!(
        names_and_contents(&found),
        vec![
            pair("kept", "zero"),
            pair("title", "one"),
            pair("image", "two"),
            pair("title", "three"),
            pair("type", "four"),
        ]
    );
}

#[test]
fn search_looks_below_a_declaring_element() {
    let nodes = vec![element(
        "meta",
        vec![attribute("property", Some("og:title")), attribute("content", Some("outer"))],
        vec![meta("og:description", "inner")],
    )];
    let mut found = Vec::new();
    deep_search_meta(&nodes, &mut found);
    assert_eq!(names_and_contents(&found), vec![pair("title", "outer"), pair("description", "inner")]);
}

#[test]
fn only_meta_elements_with_both_attributes_declare() {
    let declares = |node: HtmlNode| match node {
        HtmlNode::Element(e) => meta_property(&e).map(|p| (p.name, p.content)),
        _ => None,
    };
    assert_eq!(declares(meta("og:title", "x")), Some(pair("title", "x")));
    assert_eq!(declares(meta("og:", "x")), Some(pair("", "x")));
    assert_eq!(declares(meta("og:image:width", "300")), Some(pair("image:width", "300")));
    assert_eq!(declares(meta("twitter:title", "x")), None);
    assert_eq!(declares(meta("title", "x")), None);
    assert_eq!(declares(meta("OG:title", "x")), None);
    assert_eq!(
        declares(element(
            "META",
            vec![attribute("property", Some("og:title")), attribute("content", Some("x"))],
            vec![]
        )),
        None
    );
    assert_eq!(
        declares(element(
            "link",
            vec![attribute("property", Some("og:title")), attribute("content", Some("x"))],
            vec![]
        )),
        None
    );
    assert_eq!(
        declares(element("meta", vec![attribute("property", Some("og:title"))], vec![])),
        None
    );
    assert_eq!(
        declares(element("meta", vec![attribute("content", Some("x"))], vec![])),
        None
    );
    assert_eq!(
        declares(element(
            "meta",
            vec![attribute("property", Some("og:title")), attribute("content", None)],
            vec![]
        )),
        None
    );
    assert_eq!(
        declares(element(
            "meta",
            vec![attribute("property", None), attribute("content", Some("x"))],
            vec![]
        )),
        None
    );
}

#[test]
fn first_attribute_of_a_name_counts() {
    let e = HtmlElement {
        name: "meta".to_string(),
        attributes: vec![
            attribute("content", Some("first")),
            attribute("property", Some("og:title")),
            attribute("content", Some("second")),
        ],
        children: vec![],
    };
    assert_eq!(e.attribute("content"), Some(&Some("first".to_string())));
    assert_eq!(e.attribute("property"), Some(&Some("og:title".to_string())));
    assert_eq!(e.attribute("name"), None);
    assert_eq!(meta_property(&e).map(|p| p.content), Some("first".to_string()));
}

#[test]
fn find_first_takes_the_earliest_entry() {
    let found = vec![
        MetaProperty { name: "image".to_string(), content: "a".to_string() },
        MetaProperty { name: "title".to_string(), content: "b".to_string() },
        MetaProperty { name: "title".to_string(), content: "c".to_string() },
    ];
    assert_eq!(find_first(&found, "title"), Some(&"b".to_string()));
    assert_eq!(find_first(&found, "image"), Some(&"a".to_string()));
    assert_eq!(find_first(&found, "url"), None);
    assert_eq!(find_first(&Vec::new(), "title"), None);
}

#[test]
fn record_is_built_from_the_first_of_each_property() {
    let found = vec![
        MetaProperty { name: "title".to_string(), content: "Tom &amp; Jerry".to_string() },
        MetaProperty { name: "image".to_string(), content: "pics/a.png".to_string() },
        MetaProperty { name: "image".to_string(), content: "pics/b.png".to_string() },
        MetaProperty { name: "site_name".to_string(), content: "Site".to_string() },
    ];
    let data = og_from_properties(&found, page("https://ex.com/dir/page.html"));
    assert_eq!(data.title.as_deref(), Some("Tom & Jerry"));
    assert_eq!(data.image.expect("an image").href, "https://ex.com/dir/pics/a.png");
    assert_eq!(data.site_name.as_deref(), Some("Site"));
    assert_eq!(data.description, None);
    assert_eq!(data.url.href, "https://ex.com/dir/page.html");
}

#[test]
fn assemble_prefers_the_declared_canonical_url() {
    let source = page("https://ex.com/a");
    let canonical = page("https://ex.com/b");
    let with = OGData::assemble(None, None, Some(canonical), None, None, source.clone());
    assert_eq!(with.url.href, "https://ex.com/b");
    let without = OGData::assemble(Some("t".to_string()), None, None, None, None, source);
    assert_eq!(without.url.href, "https://ex.com/a");
    assert_eq!(without.title.as_deref(), Some("t"));
}

#[test]
fn entities_are_decoded() {
    assert_eq!(decode_content("Example &amp; Co"), "Example & Co");
    assert_eq!(decode_content("&lt;b&gt; &#65;&#x42; &quot;q&quot;"), "<b> AB \"q\"");
    assert_eq!(decode_content("no references here"), "no references here");
    assert_eq!(decode_content(""), "");
    assert_eq!(decode_content("caf\u{e9} \u{4eac}"), "caf\u{e9} \u{4eac}");
    assert_eq!(decode_content("a & b"), "a & b");
    assert_eq!(decode_content("&nosuchname;"), "&nosuchname;");
}

#[test]
fn parsed_document_keeps_names_attributes_and_children() {
    let nodes = parse_document("<div a=\"1\" c><p>text<!-- note --></p><br></div>").expect("parses");
    assert_eq!(nodes.len(), 1);
    let div = match &nodes[0] {
        HtmlNode::Element(e) => e,
        other => panic!("an element was expected, not {:?}", other),
    };
    assert_eq!(div.name, "div");
    assert_eq!(div.attributes.len(), 2);
    assert_eq!(div.attribute("a"), Some(&Some("1".to_string())));
    assert_eq!(div.attribute("c"), Some(&None));
    assert_eq!(div.attribute("b"), None);
    assert_eq!(div.children.len(), 2);
    match &div.children[0] {
        HtmlNode::Element(p) => {
            assert_eq!(p.name, "p");
            assert_eq!(p.children.len(), 2);
            assert!(matches!(&p.children[0], HtmlNode::Text(t) if t == "text"));
            assert!(matches!(&p.children[1], HtmlNode::Comment(c) if c == "note"));
        },
        other => panic!("an element was expected, not {:?}", other),
    }
    assert!(matches!(&div.children[1], HtmlNode::Element(e) if e.name == "br" && e.children.is_empty()));
}

#[test]
fn failed_request_is_a_request_error() {
    let r = get_og(page("https://ex.com/"), Err("connection refused".to_string()));
    match r {
        Err(OGError::RequestError(m)) => assert_eq!(m, "connection refused"),
        other => panic!("a request error was expected, not {:?}", other),
    }
}

#[test]
fn unparsable_page_is_an_html_error() {
    let r = get_og(page("https://ex.com/"), Ok("<p></p><!oops".to_string()));
    match r {
        Err(OGError::HTMLError(m)) => assert!(!m.is_empty()),
        other => panic!("an html error was expected, not {:?}", other),
    }
}

#[test]
fn fetched_page_gives_its_metadata() {
    let r = get_og(
        page("https://ex.com/a"),
        Ok("<meta property=\"og:title\" content=\"Hello\">".to_string()),
    );
    assert_eq!(r.expect("metadata").title.as_deref(), Some("Hello"));
}

#[test]
fn og_error_messages() {
    assert_eq!(
        OGError::HTMLError("bad tag".to_string()).message(),
        "Unable to parse the html: bad tag"
    );
    assert_eq!(
        OGError::RequestError("timed out".to_string()).message(),
        "Unable to request the specified url: timed out"
    );
}
