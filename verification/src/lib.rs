//! A small in-process data model in the style of the Document Object Model:
//! named, mutable key/value attribute records held in an ordered, name-keyed
//! collection, plus a generic ordered list of node handles.
//!
//! An [`Attr`] is a shared handle to one name/value record: the name is fixed
//! at construction, the value sits behind a reference-counted, lock-guarded
//! cell, so every clone of the handle observes the same mutable value.
//! A [`NamedNodeMap`] is an ordered sequence of such handles that keeps at
//! most one record per name under [`NamedNodeMap::set_named_item`].
//! A [`NodeList`] is an ordered, position-keyed list of arbitrary node
//! handles, and an [`Element`] owns one attribute map under a tag name.

mod attr;
mod element;
mod named_node_map;
mod node;
mod node_list;
mod node_type;

pub use attr::Attr;
pub use element::Element;
pub use named_node_map::has_name;
pub use named_node_map::lemma_empty_map;
pub use named_node_map::lemma_set_makes_name_found;
pub use named_node_map::lemma_unique_name_single_position;
pub use named_node_map::unique_names;
pub use named_node_map::NamedNodeMap;
pub use node::DomError;
pub use node::Node;
pub use node_list::NodeList;
pub use node_type::NodeType;
