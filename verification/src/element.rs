use crate::attr::Attr;
use crate::named_node_map::has_name;
use crate::named_node_map::unique_names;
use crate::named_node_map::NamedNodeMap;
use vstd::prelude::*;

verus! {

/// An element: an immutable tag identifier together with one named collection
/// of attribute records, created empty at construction. The element adds no
/// logic of its own; its get/set operations are conveniences over the map.
pub struct Element {
    tag_name: String,
    attrs: NamedNodeMap,
}

impl Element {
    /// The immutable tag identifier of the element.
    pub closed spec fn spec_tag_name(&self) -> Seq<char> {
        self.tag_name@
    }

    /// The records of the element's attribute map, in insertion order.
    pub closed spec fn spec_attrs(&self) -> Seq<Attr> {
        self.attrs@
    }

    /// Creates a new element with the given tag name and no attributes.
    pub fn new(tag_name: &str) -> (el: Element)
        ensures
            el.spec_tag_name() == tag_name@,
            el.spec_attrs() == Seq::<Attr>::empty(),
    {
        Element { tag_name: tag_name.to_owned(), attrs: NamedNodeMap::new() }
    }

    /// Returns a live handle to the element's one attribute map: the handle
    /// starts out carrying exactly the element's current records, and every
    /// mutation made through it — structural or in a record's value cell — is
    /// a mutation of the element's own collection, observed by a later
    /// [`Element::get_attribute`]. The handle is an exclusive borrow, which is
    /// what serializes structural access to the collection's sequence.
    pub fn attributes(&mut self) -> (map: &mut NamedNodeMap)
        ensures
            (*map)@ == old(self).spec_attrs(),
            final(self).spec_attrs() == (*final(map))@,
            final(self).spec_tag_name() == old(self).spec_tag_name(),
    {
        &mut self.attrs
    }

    /// Gets the value of an attribute given its name, or `None` when the
    /// element has no attribute with that name.
    pub fn get_attribute(&self, name: &str) -> (value: Option<String>)
        ensures
            value is Some <==> has_name(self.spec_attrs(), name@),
    {
        let item = self.attrs.get_named_item(name);
        match item {
            Some(attr) => Some(attr.value()),
            None => None,
        }
    }

    /// Sets the value of an attribute given the name and value: when a record
    /// with that name is present its value is overwritten in place, else a
    /// new record is appended.
    pub fn set_attribute(&mut self, name: &str, value: &str)
        ensures
            final(self).spec_tag_name() == old(self).spec_tag_name(),
            has_name(final(self).spec_attrs(), name@),
            has_name(old(self).spec_attrs(), name@) ==> final(self).spec_attrs() == old(
                self,
            ).spec_attrs(),
            !has_name(old(self).spec_attrs(), name@) ==> final(self).spec_attrs().len() == old(
                self,
            ).spec_attrs().len() + 1 && final(self).spec_attrs().subrange(
                0,
                old(self).spec_attrs().len() as int,
            ) == old(self).spec_attrs() && final(self).spec_attrs().last().spec_name() == name@,
            unique_names(old(self).spec_attrs()) ==> unique_names(final(self).spec_attrs()),
    {
        let attr = Attr::new(name, value);
        self.attrs.set_named_item(attr);
        proof {
            if !has_name(old(self).spec_attrs(), name@) {
                assert(self.spec_attrs().subrange(0, old(self).spec_attrs().len() as int) =~= old(
                    self,
                ).spec_attrs());
            }
        }
    }
}

} // verus!
