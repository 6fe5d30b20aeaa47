use dom_core::Attr;
use dom_core::DomError;
use dom_core::Node;
use dom_core::NodeType;

#[test]
fn attr_node_identity_and_content() {
    let attr = Attr::new("type", "text");
    assert_eq!(attr.node_name(), "type");
    assert_eq!(attr.node_type(), NodeType::AttributeNode);
    assert_eq!(attr.node_type().code(), 2);
    assert_eq!(attr.node_value(), "text");
    attr.set_node_value("password");
    assert_eq!(attr.node_value(), "password");
    assert_eq!(attr.text_content(), "password");
    attr.set_text_content("email");
    assert_eq!(attr.value(), "email");
}

#[test]
fn attr_navigation_reports_none() {
    let attr = Attr::new("type", "text");
    assert!(attr.parent_node().is_none());
    assert!(attr.parent_element().is_none());
    assert!(attr.first_child().is_none());
    assert!(attr.last_child().is_none());
    assert!(attr.next_sibling().is_none());
    assert!(attr.previous_sibling().is_none());
    assert!(attr.child_nodes().is_none());
    assert!(attr.namespace_uri().is_none());
    assert!(attr.lookup_prefix().is_none());
    assert!(attr.lookup_namespace_uri("xml").is_none());
    assert!(!attr.has_child_nodes());
    assert!(!attr.is_connected());
}

#[test]
fn attr_tree_operations_report_unsupported() {
    let mut attr = Attr::new("type", "text");
    let other = Attr::new("data-age", "23");
    assert!(matches!(attr.owner_document(), Err(DomError::UnsupportedCapability)));
    assert!(matches!(attr.get_root_node(), Err(DomError::UnsupportedCapability)));
    assert!(matches!(attr.clone_node(), Err(DomError::UnsupportedCapability)));
    assert!(matches!(attr.append_child(other.clone()), Err(DomError::UnsupportedCapability)));
    assert!(matches!(attr.insert_before(other.clone()), Err(DomError::UnsupportedCapability)));
    assert!(matches!(attr.remove_child(&other), Err(DomError::UnsupportedCapability)));
    assert!(matches!(
        attr.replace_child(other.clone(), &other),
        Err(DomError::UnsupportedCapability)
    ));
    assert!(matches!(attr.contains(&other), Err(DomError::UnsupportedCapability)));
    assert!(matches!(attr.is_same_node(&other), Err(DomError::UnsupportedCapability)));
    assert!(matches!(attr.is_equal_node(&other), Err(DomError::UnsupportedCapability)));
    assert!(matches!(attr.normalize(), Err(DomError::UnsupportedCapability)));
    assert!(matches!(attr.is_default_namespace("xml"), Err(DomError::UnsupportedCapability)));
}

#[test]
fn node_type_codes() {
    assert_eq!(NodeType::ElementNode.code(), 1);
    assert_eq!(NodeType::AttributeNode.code(), 2);
    assert_eq!(NodeType::TextNode.code(), 3);
    assert_eq!(NodeType::CDataSectionNode.code(), 4);
    assert_eq!(NodeType::ProcessingInstructionNode.code(), 7);
    assert_eq!(NodeType::CommentNode.code(), 8);
    assert_eq!(NodeType::DocumentNode.code(), 9);
    assert_eq!(NodeType::DocumentTypeNode.code(), 10);
    assert_eq!(NodeType::DocumentFragmentNode.code(), 11);
}
