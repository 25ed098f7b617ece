use dock_chrome::dock::{layout_text, Layout, Node, NodeId, Nodes};

#[test]
fn layout_text_names() {
    assert_eq!(layout_text(Layout::Tabs), "Tabs");
    assert_eq!(layout_text(Layout::Horizontal), "Horizontal");
    assert_eq!(layout_text(Layout::Vertical), "Vertical");
    assert_eq!(layout_text(Layout::Grid), "Grid");
}

#[test]
fn nodes_insert_and_get() {
    let mut nodes: Nodes<String> = Nodes::new();
    nodes.insert(NodeId(1), Node::Leaf("left pane".to_string()));
    nodes.insert(NodeId(2), Node::Branch(Layout::Vertical));

    match nodes.get(NodeId(1)) {
        Some(Node::Leaf(text)) => assert_eq!(text, "left pane"),
        _ => panic!("expected the leaf back"),
    }
    match nodes.get(NodeId(2)) {
        Some(Node::Branch(layout)) => assert_eq!(*layout, Layout::Vertical),
        _ => panic!("expected the branch back"),
    }
    assert!(nodes.get(NodeId(3)).is_none());
}

#[test]
fn nodes_insert_replaces() {
    let mut nodes: Nodes<u32> = Nodes::new();
    nodes.insert(NodeId(7), Node::Leaf(1));
    nodes.insert(NodeId(7), Node::Branch(Layout::Grid));
    match nodes.get(NodeId(7)) {
        Some(Node::Branch(layout)) => assert_eq!(*layout, Layout::Grid),
        _ => panic!("expected the later node to stand"),
    }
}

#[test]
fn node_ids_compare_by_value() {
    assert_eq!(NodeId(5), NodeId(5));
    assert_ne!(NodeId(5), NodeId(6));
}
