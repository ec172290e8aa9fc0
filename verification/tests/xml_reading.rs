use podcast_core::reader::{parse, ParseError};
use podcast_core::xml::NodeKind;

#[test]
fn parse_gives_nodes_in_document_order() {
    let doc = parse("<a x=\"1\"><b>hi</b><!--c--></a>").unwrap();
    assert_eq!(doc.len(), 5);
    assert_eq!(doc.node(0).kind, NodeKind::Root);
    assert_eq!(doc.node(0).children, vec![1]);
    assert_eq!(doc.node(1).name, "a");
    assert_eq!(doc.node(1).attributes[0].name, "x");
    assert_eq!(doc.node(1).attributes[0].value, "1");
    assert_eq!(doc.node(1).children, vec![2, 4]);
    assert_eq!(doc.node(2).name, "b");
    assert_eq!(doc.node(3).kind, NodeKind::Text);
    assert_eq!(doc.node(3).text.as_deref(), Some("hi"));
    assert_eq!(doc.node(4).kind, NodeKind::Comment);
}

#[test]
fn parse_rejects_text_that_is_not_well_formed() {
    assert!(parse("<a><b></a>").is_err());
    assert!(parse("").is_err());
}

#[test]
fn parse_reports_malformed_text_as_such() {
    assert_eq!(parse("<a>").err(), Some(ParseError::MalformedXml));
    assert_eq!(parse("<a></b>").err(), Some(ParseError::MalformedXml));
    assert_eq!(parse("<p:a/>").err(), Some(ParseError::MalformedXml));
}

#[test]
fn references_are_resolved_in_text_and_in_attribute_values() {
    let doc = parse("<a href=\"x?a=1&amp;b=2\">Tom &amp; Jerry &#65;</a>").unwrap();
    assert_eq!(doc.node(1).attribute("href"), Some("x?a=1&b=2"));
    assert_eq!(doc.first_text(1), Some("Tom & Jerry A"));
}

#[test]
fn names_are_local_names() {
    let doc = parse("<p:a xmlns:p=\"http://p\" p:x=\"1\"/>").unwrap();
    assert!(doc.is_element_named(1, "a"));
    assert!(!doc.is_element_named(1, "p:a"));
    assert_eq!(doc.node(1).attribute("x"), Some("1"));
    assert_eq!(doc.node(1).attribute("p:x"), None);
}

#[test]
fn the_first_attribute_of_a_name_is_found() {
    let doc = parse("<a xmlns:p=\"http://p\" x=\"plain\" p:x=\"prefixed\" y=\"\"/>").unwrap();
    assert_eq!(doc.node(1).attribute("x"), Some("plain"));
    assert_eq!(doc.node(1).attribute("y"), Some(""));
    assert_eq!(doc.node(1).attribute("z"), None);
}

#[test]
fn the_first_element_child_passes_over_other_nodes() {
    let doc = parse("<!--c--><?pi x?><a> text <b/><c/></a>").unwrap();
    assert_eq!(doc.first_element_child(0), Some(3));
    assert_eq!(doc.first_element_child(3), Some(5));
    assert_eq!(doc.first_element_child(5), None);
    assert_eq!(doc.first_element_child(99), None);
    assert_eq!(doc.node(1).kind, NodeKind::Comment);
    assert_eq!(doc.node(2).kind, NodeKind::Instruction);
}

#[test]
fn the_first_text_passes_over_other_nodes() {
    let doc = parse("<a><b/>one<c/>two</a>").unwrap();
    assert_eq!(doc.first_text(1), Some("one"));
    assert_eq!(doc.first_text(2), None);
    assert_eq!(doc.first_text(99), None);
    assert!(!doc.is_element_named(3, ""));
    assert!(!doc.is_element_named(99, "a"));
}

#[test]
fn text_in_a_cdata_section_is_text() {
    let doc = parse("<a><![CDATA[<b>&amp;</b>]]></a>").unwrap();
    assert_eq!(doc.first_text(1), Some("<b>&amp;</b>"));
}
