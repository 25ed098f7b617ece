//! The dock tree as the chrome rules see it: node identifiers, branch
//! layouts, and the store of nodes by identifier.

use std::collections::HashMap;
use vstd::prelude::*;
use vstd::string::StringExecFns;

verus! {

broadcast use vstd::std_specs::hash::group_hash_axioms;

/// Identifies one node of the dock tree.
#[derive(Clone, Copy, Debug, PartialEq, Eq, Structural)]
pub struct NodeId(pub u64);

/// How a branch node lays out its children.
#[derive(Clone, Copy, Debug, PartialEq, Eq, Structural)]
pub enum Layout {
    Tabs,
    Horizontal,
    Vertical,
    Grid,
}

/// The name of a layout; it doubles as the tab label of a branch node.
pub open spec fn layout_name(layout: Layout) -> Seq<char> {
    match layout {
        Layout::Tabs => "Tabs"@,
        Layout::Horizontal => "Horizontal"@,
        Layout::Vertical => "Vertical"@,
        Layout::Grid => "Grid"@,
    }
}

/// The name of a layout; it doubles as the tab label of a branch node.
pub fn layout_text(layout: Layout) -> (t: String)
    ensures
        t@ == layout_name(layout),
{
    match layout {
        Layout::Tabs => String::from_str("Tabs"),
        Layout::Horizontal => String::from_str("Horizontal"),
        Layout::Vertical => String::from_str("Vertical"),
        Layout::Grid => String::from_str("Grid"),
    }
}

/// One node of the dock tree: a leaf holding host content, or a branch laying
/// out children. Only what the chrome reads is kept, so a branch is
/// represented by its layout.
pub enum Node<Leaf> {
    Leaf(Leaf),
    Branch(Layout),
}

/// The nodes of the dock tree, by identifier. Seen abstractly as a map from
/// raw identifier to node.
pub struct Nodes<Leaf> {
    nodes: HashMap<u64, Node<Leaf>>,
}

impl<Leaf> View for Nodes<Leaf> {
    type V = Map<u64, Node<Leaf>>;

    closed spec fn view(&self) -> Map<u64, Node<Leaf>> {
        self.nodes@
    }
}

impl<Leaf> Nodes<Leaf> {
    /// An empty dock tree.
    pub fn new() -> (n: Nodes<Leaf>)
        ensures
            n@ == Map::<u64, Node<Leaf>>::empty(),
    {
        Nodes { nodes: HashMap::new() }
    }

    /// Puts `node` at `id`, replacing whatever stood there.
    pub fn insert(&mut self, id: NodeId, node: Node<Leaf>)
        ensures
            final(self)@ == old(self)@.insert(id.0, node),
    {
        let _ = self.nodes.insert(id.0, node);
    }

    /// The node at `id`, if there is one.
    pub fn get(&self, id: NodeId) -> (n: Option<&Node<Leaf>>)
        ensures
            match n {
                Some(node) => self@.contains_key(id.0) && *node == self@[id.0],
                None => !self@.contains_key(id.0),
            },
    {
        self.nodes.get(&id.0)
    }
}

} // verus!
