use crate::node::DomError;
use crate::node::Node;
use crate::node_list::NodeList;
use crate::node_type::NodeType;
use std::sync::Arc;
use vstd::prelude::*;
use vstd::rwlock::RwLock;
use vstd::rwlock::RwLockPredicate;

verus! {

/// The invariant of an attribute record's value cell: any string may be
/// stored, since a value can be replaced with arbitrary text at any time.
pub struct ValuePred {}

impl RwLockPredicate<String> for ValuePred {
    open spec fn inv(self, v: String) -> bool {
        true
    }
}

/// Relies on `std::sync::Arc::clone`: cloning a reference-counted pointer
/// yields a second pointer to the very same underlying value, here the
/// lock-guarded value cell of an attribute record.
#[verifier::external_body]
fn share_value_cell(cell: &Arc<RwLock<String, ValuePred>>) -> (res: Arc<
    RwLock<String, ValuePred>,
>)
    ensures
        res == *cell,
{
    Arc::clone(cell)
}

/// A shared handle to one name/value attribute record.
///
/// The name is immutable and set once at construction. The value sits behind
/// a reference-counted, lock-guarded cell: every clone of the handle refers
/// to the same cell, so a value written through one handle is observed by
/// all of them. Which string currently sits in the cell is therefore not a
/// function of the handle itself, and the contracts below speak only of the
/// immutable name; the sharing behaviour is exercised by the crate's tests.
pub struct Attr {
    name: String,
    value: Arc<RwLock<String, ValuePred>>,
}

impl Attr {
    /// The immutable name of the record.
    pub closed spec fn spec_name(&self) -> Seq<char> {
        self.name@
    }

    /// Creates a new record with the given name and value.
    pub fn new(name: &str, value: &str) -> (attr: Attr)
        ensures
            attr.spec_name() == name@,
    {
        Attr {
            name: name.to_owned(),
            value: Arc::new(RwLock::new(value.to_owned(), Ghost(ValuePred {}))),
        }
    }

    /// Returns the name of the record, which never changes over its lifetime.
    pub fn name(&self) -> (name: String)
        ensures
            name@ == self.spec_name(),
    {
        self.name.clone()
    }

    /// Returns a snapshot copy of the value currently held in the record's
    /// cell. The cell is shared with every clone of this handle, so the
    /// result is whatever string the last completed write left there; no
    /// stronger contract can be stated of a shared mutable cell.
    pub fn value(&self) -> String {
        let read_handle = self.value.acquire_read();
        let snapshot = read_handle.borrow().clone();
        read_handle.release_read();
        snapshot
    }

    /// Replaces the value held in the record's cell. The write is serialized
    /// with all other reads and writes through the cell's lock and becomes
    /// visible to every holder of a clone of this handle.
    pub fn set_value(&self, new_value: &str) {
        let (_replaced, write_handle) = self.value.acquire_write();
        write_handle.release_write(new_value.to_owned());
    }
}

impl Clone for Attr {
    /// Returns a second handle to the same record: the clone carries the same
    /// name and refers to the same value cell.
    fn clone(&self) -> (res: Self)
        ensures
            res == *self,
    {
        Attr { name: self.name.clone(), value: share_value_cell(&self.value) }
    }
}

/// An attribute record is a leaf with no tree position: identity and content
/// delegate to the record's own accessors, and every navigation capability
/// that presumes parent/child/sibling structure answers `None` or
/// [`DomError::UnsupportedCapability`] rather than fabricating a node.
impl Node for Attr {
    type Child = Attr;

    open spec fn spec_node_name(&self) -> Seq<char> {
        self.spec_name()
    }

    open spec fn spec_node_type(&self) -> NodeType {
        NodeType::AttributeNode
    }

    fn node_name(&self) -> (name: String)
        ensures
            name@ == self.spec_name(),
    {
        self.name()
    }

    fn node_type(&self) -> (t: NodeType)
        ensures
            t == NodeType::AttributeNode,
    {
        NodeType::AttributeNode
    }

    fn node_value(&self) -> String {
        self.value()
    }

    fn set_node_value(&self, new_value: &str) {
        self.set_value(new_value);
    }

    fn text_content(&self) -> String {
        self.value()
    }

    fn set_text_content(&self, new_content: &str) {
        self.set_value(new_content);
    }

    fn namespace_uri(&self) -> (r: Option<String>)
        ensures
            r is None,
    {
        None
    }

    fn lookup_prefix(&self) -> (r: Option<String>)
        ensures
            r is None,
    {
        None
    }

    fn lookup_namespace_uri(&self, prefix: &str) -> (r: Option<String>)
        ensures
            r is None,
    {
        None
    }

    fn is_connected(&self) -> (r: bool)
        ensures
            r == false,
    {
        false
    }

    fn has_child_nodes(&self) -> (r: bool)
        ensures
            r == false,
    {
        false
    }

    fn parent_node(&self) -> (r: Option<Attr>)
        ensures
            r is None,
    {
        None
    }

    fn parent_element(&self) -> (r: Option<Attr>)
        ensures
            r is None,
    {
        None
    }

    fn first_child(&self) -> (r: Option<Attr>)
        ensures
            r is None,
    {
        None
    }

    fn last_child(&self) -> (r: Option<Attr>)
        ensures
            r is None,
    {
        None
    }

    fn next_sibling(&self) -> (r: Option<Attr>)
        ensures
            r is None,
    {
        None
    }

    fn previous_sibling(&self) -> (r: Option<Attr>)
        ensures
            r is None,
    {
        None
    }

    fn child_nodes(&self) -> (r: Option<NodeList<Attr>>)
        ensures
            r is None,
    {
        None
    }

    fn owner_document(&self) -> (r: Result<Attr, DomError>)
        ensures
            r is Err,
    {
        Err(DomError::UnsupportedCapability)
    }

    fn get_root_node(&self) -> (r: Result<Attr, DomError>)
        ensures
            r is Err,
    {
        Err(DomError::UnsupportedCapability)
    }

    fn append_child(&mut self, child: Attr) -> (r: Result<(), DomError>)
        ensures
            r is Err,
            *final(self) == *old(self),
    {
        Err(DomError::UnsupportedCapability)
    }

    fn insert_before(&mut self, node: Attr) -> (r: Result<(), DomError>)
        ensures
            r is Err,
            *final(self) == *old(self),
    {
        Err(DomError::UnsupportedCapability)
    }

    fn remove_child(&mut self, child: &Attr) -> (r: Result<(), DomError>)
        ensures
            r is Err,
            *final(self) == *old(self),
    {
        Err(DomError::UnsupportedCapability)
    }

    fn replace_child(&mut self, new_child: Attr, old_child: &Attr) -> (r: Result<(), DomError>)
        ensures
            r is Err,
            *final(self) == *old(self),
    {
        Err(DomError::UnsupportedCapability)
    }

    fn clone_node(&self) -> (r: Result<Attr, DomError>)
        ensures
            r is Err,
    {
        Err(DomError::UnsupportedCapability)
    }

    fn contains(&self, child: &Attr) -> (r: Result<bool, DomError>)
        ensures
            r is Err,
    {
        Err(DomError::UnsupportedCapability)
    }

    fn is_same_node(&self, other: &Attr) -> (r: Result<bool, DomError>)
        ensures
            r is Err,
    {
        Err(DomError::UnsupportedCapability)
    }

    fn is_equal_node(&self, other: &Attr) -> (r: Result<bool, DomError>)
        ensures
            r is Err,
    {
        Err(DomError::UnsupportedCapability)
    }

    fn normalize(&mut self) -> (r: Result<(), DomError>)
        ensures
            r is Err,
            *final(self) == *old(self),
    {
        Err(DomError::UnsupportedCapability)
    }

    fn is_default_namespace(&self, namespace: &str) -> (r: Result<bool, DomError>)
        ensures
            r is Err,
    {
        Err(DomError::UnsupportedCapability)
    }
}

} // verus!
