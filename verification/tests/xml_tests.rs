use onvif_camera::text::{decimal_string, ends_with};
use onvif_camera::xml::{parse_xml, XmlTree};

const SOAP: &str = r#"<?xml version="1.0" encoding="UTF-8"?>
<s:Envelope xmlns:s="http://www.w3.org/2003/05/soap-envelope" xmlns:tt="http://www.onvif.org/ver10/schema">
  <s:Header/>
  <s:Body>
    <tptz:RelativeMove xmlns:tptz="http://www.onvif.org/ver20/ptz/wsdl">
      <tptz:ProfileToken>Profile_1</tptz:ProfileToken>
      <tptz:Translation>
        <tt:PanTilt tt:x="0.9" x="0.04" y="-0.5"/>
        <tt:Zoom x="0.25"/>
      </tptz:Translation>
    </tptz:RelativeMove>
  </s:Body>
</s:Envelope>"#;

#[test]
fn parse_xml_copies_every_node_in_document_order() {
    let doc = roxmltree::Document::parse(SOAP).unwrap();
    let tree = parse_xml(SOAP).unwrap();
    let names: Vec<String> = doc.descendants().map(|n| n.tag_name().name().to_string()).collect();
    assert_eq!(tree.nodes.len(), names.len());
    for (node, name) in tree.nodes.iter().zip(names.iter()) {
        assert_eq!(&node.name, name);
    }
    assert!(!tree.nodes[0].is_element);
    assert_eq!(tree.nodes[0].parent, None);
    assert_eq!(tree.nodes[0].subtree_len, tree.nodes.len());
    assert_eq!(tree.nodes[1].name, "Envelope");
    assert_eq!(tree.nodes[1].parent, Some(0));
}

#[test]
fn from_document_matches_roxmltree_node_by_node() {
    let doc = roxmltree::Document::parse(SOAP).unwrap();
    let tree = XmlTree::from_document(&doc);
    for (i, n) in doc.descendants().enumerate() {
        let node = &tree.nodes[i];
        assert_eq!(node.is_element, n.is_element());
        assert_eq!(node.text.as_deref(), n.text());
        assert_eq!(node.parent, n.parent().map(|p| p.id().get_usize()));
        assert_eq!(node.subtree_len, n.descendants().count());
        assert_eq!(node.attributes.len(), n.attributes().len());
    }
}

#[test]
fn parse_xml_refuses_what_is_not_xml() {
    assert!(parse_xml("").is_none());
    assert!(parse_xml("<a><b></a>").is_none());
    assert!(parse_xml("plain text").is_none());
}

#[test]
fn find_descendant_finds_first_element_by_local_name() {
    let tree = parse_xml(SOAP).unwrap();
    let body = tree.find_descendant(0, &"Body".to_string()).unwrap();
    assert_eq!(tree.nodes[body].name, "Body");
    let op = tree.find_descendant(body, &"RelativeMove".to_string()).unwrap();
    assert!(op > body);
    assert_eq!(tree.find_descendant(body, &"Body".to_string()), Some(body));
    assert_eq!(tree.find_descendant(0, &"Missing".to_string()), None);
    // the header is not inside the body
    assert_eq!(tree.find_descendant(body, &"Header".to_string()), None);
    assert!(tree.find_descendant(0, &"Header".to_string()).is_some());
    assert_eq!(tree.find_descendant(tree.nodes.len(), &"Body".to_string()), None);
}

#[test]
fn first_element_child_skips_text_nodes() {
    let tree = parse_xml(SOAP).unwrap();
    let body = tree.find_descendant(0, &"Body".to_string()).unwrap();
    let child = tree.first_element_child(body).unwrap();
    assert_eq!(tree.nodes[child].name, "RelativeMove");
    let zoom = tree.find_descendant(0, &"Zoom".to_string()).unwrap();
    assert_eq!(tree.first_element_child(zoom), None);
}

#[test]
fn attribute_lookup_ignores_namespaced_attributes() {
    let tree = parse_xml(SOAP).unwrap();
    let pan_tilt = tree.find_descendant(0, &"PanTilt".to_string()).unwrap();
    assert_eq!(tree.attribute_or_empty(pan_tilt, &"x".to_string()), "0.04");
    assert_eq!(tree.attribute_or_empty(pan_tilt, &"y".to_string()), "-0.5");
    assert_eq!(tree.attribute_or_empty(pan_tilt, &"z".to_string()), "");
}

#[test]
fn text_or_empty_reads_element_text() {
    let tree = parse_xml(SOAP).unwrap();
    let token = tree.find_descendant(0, &"ProfileToken".to_string()).unwrap();
    assert_eq!(tree.text_or_empty(token), "Profile_1");
    let zoom = tree.find_descendant(0, &"Zoom".to_string()).unwrap();
    assert_eq!(tree.text_or_empty(zoom), "");
    assert_eq!(tree.name_of(zoom), "Zoom");
}

#[test]
fn ends_with_cases() {
    assert!(ends_with("http://www.onvif.org/ver20/ptz/wsdl/GetPresets", "GetPresets"));
    assert!(ends_with("GetPresets", "GetPresets"));
    assert!(ends_with("abc", ""));
    assert!(!ends_with("Presets", "GetPresets"));
    assert!(!ends_with("GetPresetsX", "GetPresets"));
    assert!(ends_with("ünïcödé", "ödé"));
}

#[test]
fn decimal_string_writes_decimal_notation() {
    assert_eq!(decimal_string(0), "0");
    assert_eq!(decimal_string(7), "7");
    assert_eq!(decimal_string(10), "10");
    assert_eq!(decimal_string(1234567890), "1234567890");
    assert_eq!(decimal_string(u32::MAX), u32::MAX.to_string());
}
