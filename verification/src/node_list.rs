use vstd::prelude::*;

verus! {

/// An ordered, position-keyed collection of shared node handles.
///
/// The list is structurally the counterpart of a named collection without the
/// name keying: items keep their insertion order and are reached by index
/// alone. An item handed out by [`NodeList::item`] is the very handle that
/// was inserted, so a mutation through it (when the node kind permits one) is
/// visible both to the original holder and through the list.
pub struct NodeList<T> {
    items: Vec<T>,
}

impl<T> View for NodeList<T> {
    type V = Seq<T>;

    closed spec fn view(&self) -> Seq<T> {
        self.items@
    }
}

impl<T> NodeList<T> {
    /// Creates a new, empty node list.
    pub fn new() -> (list: NodeList<T>)
        ensures
            list@ == Seq::<T>::empty(),
    {
        NodeList { items: Vec::new() }
    }

    /// Gets the number of items within the current node list.
    pub fn length(&self) -> (len: usize)
        ensures
            len == self@.len(),
    {
        self.items.len()
    }

    /// Gets the item at the given index within the node list, or `None` when
    /// the index is at or past the current length.
    pub fn item(&self, index: usize) -> (found: Option<&T>)
        ensures
            index < self@.len() ==> (found matches Some(node) && *node == self@[index as int]),
            index >= self@.len() ==> found is None,
    {
        if index < self.items.len() {
            Some(&self.items[index])
        } else {
            None
        }
    }

    /// Appends an item at the end of the node list.
    pub fn add(&mut self, item: T)
        ensures
            final(self)@ == old(self)@.push(item),
    {
        self.items.push(item);
    }
}

} // verus!
