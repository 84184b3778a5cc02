use web_parser::html::dom::{is_void_element, ElementData, Node, NodeType};

#[test]
fn text_node_has_no_children() {
    let node = Node::text("hello".to_string());
    assert_eq!(node.node_type, NodeType::Text("hello".to_string()));
    assert!(node.children.is_empty());
}

#[test]
fn comment_and_doctype_nodes() {
    assert_eq!(Node::comment("c".to_string()).node_type, NodeType::Comment("c".to_string()));
    assert_eq!(Node::doctype().node_type, NodeType::Doctype);
    assert!(Node::doctype().children.is_empty());
}

#[test]
fn element_node_keeps_its_parts() {
    let node = Node::elem(
        "a".to_string(),
        vec![("href".to_string(), "x".to_string())],
        vec![Node::text("t".to_string())],
        false,
    );
    assert_eq!(
        node,
        Node::new(
            NodeType::Element(ElementData {
                tag_name: "a".to_string(),
                attributes: vec![("href".to_string(), "x".to_string())],
                is_self_closing: false,
            }),
            vec![Node::text("t".to_string())],
        )
    );
}

#[test]
fn void_elements() {
    for name in [
        "area", "base", "br", "col", "embed", "hr", "img", "input", "link", "meta", "param",
        "source", "track", "wbr",
    ] {
        assert!(is_void_element(name));
    }
    for name in ["div", "span", "BR", "", "brr", "p"] {
        assert!(!is_void_element(name));
    }
}
