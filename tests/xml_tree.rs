use saml2::xml::XmlObject;

fn same_tree(a: &XmlObject, b: &XmlObject) -> bool {
    a.q_name().local_name() == b.q_name().local_name()
        && a.q_name().prefix() == b.q_name().prefix()
        && a.q_name().namespace_uri() == b.q_name().namespace_uri()
        && a.attributes() == b.attributes()
        && a.text() == b.text()
        && a.children().len() == b.children().len()
        && a.children().iter().zip(b.children().iter()).all(|(x, y)| same_tree(x, y))
}

const DOC: &str = "<p:Root xmlns:p=\"urn:example:p\" xmlns:q=\"urn:example:q\" A=\"1\" B=\"two\"><q:First X=\"x\">one</q:First><p:Second><p:Inner>deep</p:Inner></p:Second><q:Third/></p:Root>";

#[test]
fn parse_builds_the_tree() {
    let root = XmlObject::parse_xml(DOC.as_bytes()).ok().unwrap();
    assert_eq!(root.q_name().local_name(), "Root");
    assert_eq!(root.q_name().prefix(), Some("p"));
    assert_eq!(root.q_name().namespace_uri(), Some("urn:example:p"));
    assert_eq!(root.attributes().len(), 2);
    assert_eq!(root.attributes()[1], ("B".to_string(), "two".to_string()));
    let children = root.children();
    assert_eq!(children.len(), 3);
    assert_eq!(children[0].q_name().local_name(), "First");
    assert_eq!(children[0].text().map(|s| s.as_str()), Some("one"));
    assert_eq!(children[1].children()[0].text().map(|s| s.as_str()), Some("deep"));
    assert!(children[2].children().is_empty());
}

#[test]
fn parse_of_serialized_tree_is_the_same_tree() {
    let first = XmlObject::parse_xml(DOC.as_bytes()).ok().unwrap();
    let text = XmlObject::write_xml(&first).ok().unwrap();
    let second = XmlObject::parse_xml(text.as_bytes()).ok().unwrap();
    assert!(same_tree(&first, &second));
    let again = XmlObject::write_xml(&second).ok().unwrap();
    assert_eq!(text, again);
}

#[test]
fn namespace_declared_by_ancestor_is_not_repeated() {
    let root = XmlObject::parse_xml(DOC.as_bytes()).ok().unwrap();
    let text = XmlObject::write_xml(&root).ok().unwrap();
    assert_eq!(text.matches("xmlns:q=").count(), 1);
    assert_eq!(text.matches("xmlns:p=").count(), 1);
}

#[test]
fn unclosed_tag_is_rejected() {
    assert!(XmlObject::parse_xml("<a><b></a>".as_bytes()).is_err());
    assert!(XmlObject::parse_xml("<a>".as_bytes()).is_err());
}

#[test]
fn empty_input_is_rejected() {
    let e = XmlObject::parse_xml("".as_bytes()).err().unwrap();
    assert_eq!(e.message(), "invalid xml document");
}

#[test]
fn last_text_fragment_wins() {
    let root = XmlObject::parse_xml("<a>one<b/>two</a>".as_bytes()).ok().unwrap();
    assert_eq!(root.text().map(|s| s.as_str()), Some("two"));
    assert_eq!(root.children().len(), 1);
}

#[test]
fn built_tree_serializes_in_document_order() {
    let mut root = XmlObject::new(None, "list".to_string(), None);
    for name in ["a", "b", "c"] {
        root.add_child(XmlObject::new(None, name.to_string(), None));
    }
    root.add_attribute("n".to_string(), "3".to_string());
    let text = XmlObject::write_xml(&root).ok().unwrap();
    let a = text.find("<a").unwrap();
    let b = text.find("<b").unwrap();
    let c = text.find("<c").unwrap();
    assert!(a < b && b < c);
    assert!(text.contains("n=\"3\""));
}

#[test]
fn add_namespace_replaces_a_prefix() {
    let mut x = XmlObject::new(None, "e".to_string(), None);
    x.add_namespace("p".to_string(), "urn:one".to_string());
    x.add_namespace("q".to_string(), "urn:two".to_string());
    x.add_namespace("p".to_string(), "urn:three".to_string());
    assert_eq!(x.namespace().len(), 2);
    assert_eq!(x.namespace()[0], ("p".to_string(), "urn:three".to_string()));
}

#[test]
fn deep_copy_keeps_the_subtree() {
    let root = XmlObject::parse_xml(DOC.as_bytes()).ok().unwrap();
    let copy = root.deep_copy();
    assert!(same_tree(&root, &copy));
}
