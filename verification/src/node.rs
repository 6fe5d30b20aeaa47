use crate::node_list::NodeList;
use crate::node_type::NodeType;
use vstd::prelude::*;

verus! {

/// The signal returned by a capability a node kind does not support: the
/// operation has no meaningful answer for that kind, so rather than
/// fabricating one the node reports it explicitly. The caller can handle it
/// locally; it is an ordinary result, not a fatal condition.
#[derive(Clone, Copy, Debug, PartialEq, Eq, Structural)]
pub enum DomError {
    UnsupportedCapability,
}

/// The capability contract of a tree participant: identity and content
/// access, which every node kind defines fully, and tree navigation, which a
/// node kind without a tree position answers with `None` or with
/// [`DomError::UnsupportedCapability`] rather than with a fabricated node.
///
/// In this core the attribute record is the only implementer, a leaf with no
/// tree position; node kinds that do take part in a hierarchy are a future
/// extension and define their own navigation semantics when they arrive.
pub trait Node: Sized {
    /// The node kind handed out by the navigation operations.
    type Child;

    /// The identifying name of the node, as the contracts speak of it.
    spec fn spec_node_name(&self) -> Seq<char>;

    /// The fixed kind tag of the node, as the contracts speak of it.
    spec fn spec_node_type(&self) -> NodeType;

    /// The identifying name of the node; for an attribute record, its name.
    fn node_name(&self) -> (name: String)
        ensures
            name@ == self.spec_node_name(),
    ;

    /// The fixed kind tag of the node.
    fn node_type(&self) -> (t: NodeType)
        ensures
            t == self.spec_node_type(),
    ;

    /// The textual value of the node; for an attribute record, its value.
    fn node_value(&self) -> String;

    /// Replaces the textual value of the node.
    fn set_node_value(&self, new_value: &str);

    /// The text content of the node; for an attribute record, its value.
    fn text_content(&self) -> String;

    /// Replaces the text content of the node.
    fn set_text_content(&self, new_content: &str);

    /// The namespace of the node, when it has one.
    fn namespace_uri(&self) -> Option<String>;

    /// The namespace prefix of the node, when one can be resolved.
    fn lookup_prefix(&self) -> Option<String>;

    /// The namespace bound to the given prefix, when one can be resolved.
    fn lookup_namespace_uri(&self, prefix: &str) -> Option<String>;

    /// Whether the node is attached to a document tree.
    fn is_connected(&self) -> bool;

    /// Whether the node has any children.
    fn has_child_nodes(&self) -> bool;

    /// The parent of the node, when it has one.
    fn parent_node(&self) -> Option<Self::Child>;

    /// The parent of the node when that parent is an element.
    fn parent_element(&self) -> Option<Self::Child>;

    /// The first child of the node, when it has any.
    fn first_child(&self) -> Option<Self::Child>;

    /// The last child of the node, when it has any.
    fn last_child(&self) -> Option<Self::Child>;

    /// The next sibling of the node, when it has one.
    fn next_sibling(&self) -> Option<Self::Child>;

    /// The previous sibling of the node, when it has one.
    fn previous_sibling(&self) -> Option<Self::Child>;

    /// The children of the node, for node kinds that can carry any.
    fn child_nodes(&self) -> Option<NodeList<Self::Child>>;

    /// The document the node belongs to, for node kinds that track one.
    fn owner_document(&self) -> Result<Self::Child, DomError>;

    /// The root of the tree the node sits in, for node kinds with a position.
    fn get_root_node(&self) -> Result<Self::Child, DomError>;

    /// Appends a child, for node kinds that can carry children.
    fn append_child(&mut self, child: Self::Child) -> Result<(), DomError>;

    /// Inserts a node before this one, for node kinds with a tree position.
    fn insert_before(&mut self, node: Self::Child) -> Result<(), DomError>;

    /// Removes a child, for node kinds that can carry children.
    fn remove_child(&mut self, child: &Self::Child) -> Result<(), DomError>;

    /// Replaces one child with another, for node kinds that carry children.
    fn replace_child(&mut self, new_child: Self::Child, old_child: &Self::Child) -> Result<
        (),
        DomError,
    >;

    /// Duplicates the node, for node kinds that define cloning semantics.
    fn clone_node(&self) -> Result<Self::Child, DomError>;

    /// Whether the given node is a descendant of this one.
    fn contains(&self, child: &Self::Child) -> Result<bool, DomError>;

    /// Whether the given node is this very node.
    fn is_same_node(&self, other: &Self) -> Result<bool, DomError>;

    /// Whether the given node is structurally equal to this one.
    fn is_equal_node(&self, other: &Self) -> Result<bool, DomError>;

    /// Merges adjacent text content, for node kinds that carry children.
    fn normalize(&mut self) -> Result<(), DomError>;

    /// Whether the given namespace is the default one in the node's scope.
    fn is_default_namespace(&self, namespace: &str) -> Result<bool, DomError>;
}

} // verus!
