use crate::attr::Attr;
use vstd::prelude::*;

verus! {

/// Whether some record in `s` carries the name `name`.
pub open spec fn has_name(s: Seq<Attr>, name: Seq<char>) -> bool {
    exists|i: int| 0 <= i < s.len() && #[trigger] s[i].spec_name() == name
}

/// Whether no two records in `s` carry the same name. This is the invariant
/// that `set_named_item` maintains; the low-level `add` may break it.
pub open spec fn unique_names(s: Seq<Attr>) -> bool {
    forall|i: int, j: int|
        0 <= i < j < s.len() ==> #[trigger] s[i].spec_name() != #[trigger] s[j].spec_name()
}

/// Law: an empty record sequence — the state of a freshly created map —
/// carries no name at all, so a lookup of any name in it reports "not
/// found", and it trivially satisfies name uniqueness.
pub proof fn lemma_empty_map(name: Seq<char>)
    ensures
        !has_name(Seq::<Attr>::empty(), name),
        unique_names(Seq::<Attr>::empty()),
{
}

/// Law: a record just set is found under its name. `set_named_item` either
/// leaves the sequence unchanged when the name was already present or appends
/// the record; in the appended sequence the name is present, so a subsequent
/// lookup of it cannot report "not found".
pub proof fn lemma_set_makes_name_found(s: Seq<Attr>, attr: Attr)
    ensures
        has_name(s.push(attr), attr.spec_name()),
{
    assert(s.push(attr)[s.len() as int].spec_name() == attr.spec_name());
}

/// Law: under name uniqueness, at most one record in the sequence carries any
/// given name — two positions whose records share a name must be one and the
/// same. A map built by `set_named_item` alone stays in this state: it starts
/// empty and every call preserves `unique_names`.
pub proof fn lemma_unique_name_single_position(s: Seq<Attr>, i: int, j: int)
    requires
        unique_names(s),
        0 <= i < s.len(),
        0 <= j < s.len(),
        s[i].spec_name() == s[j].spec_name(),
    ensures
        i == j,
{
}

/// An ordered, name-keyed collection of shared attribute-record handles.
///
/// Records keep their insertion order, which is also the index order of
/// [`NamedNodeMap::item`]. After any [`NamedNodeMap::set_named_item`] call,
/// at most one record carries the name that was set; duplicates can arise
/// only through the low-level [`NamedNodeMap::add`].
///
/// The collection is one mutable structure: holders reach it through
/// borrows (an owner such as [`crate::Element`] hands out `&mut` access),
/// and the exclusivity of a mutable borrow is what serializes structural
/// changes to the sequence. The records inside remain shared handles, so a
/// record's value can change through any clone of its handle while the
/// sequence itself stays put.
pub struct NamedNodeMap {
    items: Vec<Attr>,
}

impl View for NamedNodeMap {
    type V = Seq<Attr>;

    closed spec fn view(&self) -> Seq<Attr> {
        self.items@
    }
}

impl NamedNodeMap {
    /// Creates a new, empty node map.
    pub fn new() -> (map: NamedNodeMap)
        ensures
            map@ == Seq::<Attr>::empty(),
    {
        NamedNodeMap { items: Vec::new() }
    }

    /// Gets the number of records within the current node map.
    pub fn length(&self) -> (len: usize)
        ensures
            len == self@.len(),
    {
        self.items.len()
    }

    /// Unconditionally appends a record, without regard to its name. This is
    /// the low-level bulk-insertion path: callers that need name uniqueness
    /// must use [`NamedNodeMap::set_named_item`] instead.
    pub fn add(&mut self, item: Attr)
        ensures
            final(self)@ == old(self)@.push(item),
    {
        self.items.push(item);
    }

    /// Gets the record handle at the given index within the node map, or
    /// `None` when the index is at or past the current length.
    pub fn item(&self, index: usize) -> (found: Option<Attr>)
        ensures
            index < self@.len() ==> (found matches Some(attr) && attr == self@[index as int]),
            index >= self@.len() ==> found is None,
    {
        if index < self.items.len() {
            Some(self.items[index].clone())
        } else {
            None
        }
    }

    /// Scans the records in insertion order and returns a handle to the first
    /// one whose name matches, or `None` when no record carries the name.
    pub fn get_named_item(&self, name: &str) -> (found: Option<Attr>)
        ensures
            match found {
                Some(attr) => exists|i: int|
                    0 <= i < self@.len() && attr == self@[i] && #[trigger] self@[i].spec_name()
                        == name@ && (forall|j: int|
                        0 <= j < i ==> #[trigger] self@[j].spec_name() != name@),
                None => !has_name(self@, name@),
            },
    {
        let query: String = name.to_owned();
        let length = self.items.len();
        let mut index: usize = 0;
        while index < length
            invariant
                length == self.items@.len(),
                query@ == name@,
                index <= length,
                forall|j: int| 0 <= j < index ==> #[trigger] self.items@[j].spec_name() != name@,
            decreases length - index,
        {
            if self.items[index].name() == query {
                proof {
                    assert(self@[index as int].spec_name() == name@);
                }
                return Some(self.items[index].clone());
            }
            index += 1;
        }
        None
    }

    /// Either updates or appends the record, depending on whether another
    /// record with the same name is already present. When one is, its value
    /// is overwritten in place: the existing entry keeps its position and its
    /// shared identity, so callers who already hold a handle to it observe
    /// the new value. When none is, the given record is appended at the end.
    pub fn set_named_item(&mut self, attr: Attr)
        ensures
            has_name(final(self)@, attr.spec_name()),
            has_name(old(self)@, attr.spec_name()) ==> final(self)@ == old(self)@
                && final(self)@.len() == old(self)@.len(),
            !has_name(old(self)@, attr.spec_name()) ==> final(self)@ == old(self)@.push(attr)
                && final(self)@.len() == old(self)@.len() + 1,
            unique_names(old(self)@) ==> unique_names(final(self)@),
    {
        let name = attr.name();
        let length = self.items.len();
        let mut index: usize = 0;
        while index < length
            invariant
                self.items@ == old(self).items@,
                length == self.items@.len(),
                name@ == attr.spec_name(),
                index <= length,
                forall|j: int|
                    0 <= j < index ==> #[trigger] self.items@[j].spec_name() != attr.spec_name(),
            decreases length - index,
        {
            if self.items[index].name() == name {
                let new_value = attr.value();
                self.items[index].set_value(new_value.as_str());
                return;
            }
            index += 1;
        }
        self.items.push(attr);
        proof {
            assert(self@[self@.len() - 1].spec_name() == attr.spec_name());
        }
    }

    /// Removes the first record whose name matches the given record's name
    /// and returns its handle; when no record carries that name, the map is
    /// left unchanged and `None` is returned. Matching is by name alone, not
    /// by handle identity, in keeping with the name-keyed lookup operations.
    pub fn remove_named_item(&mut self, attr: &Attr) -> (removed: Option<Attr>)
        ensures
            match removed {
                Some(record) => exists|i: int|
                    0 <= i < old(self)@.len() && record == old(self)@[i]
                        && #[trigger] old(self)@[i].spec_name() == attr.spec_name() && (
                    forall|j: int|
                        0 <= j < i ==> #[trigger] old(self)@[j].spec_name() != attr.spec_name())
                        && final(self)@ == old(self)@.remove(i),
                None => final(self)@ == old(self)@ && !has_name(old(self)@, attr.spec_name()),
            },
    {
        let name = attr.name();
        let length = self.items.len();
        let mut index: usize = 0;
        while index < length
            invariant
                self.items@ == old(self).items@,
                length == self.items@.len(),
                name@ == attr.spec_name(),
                index <= length,
                forall|j: int|
                    0 <= j < index ==> #[trigger] self.items@[j].spec_name() != attr.spec_name(),
            decreases length - index,
        {
            if self.items[index].name() == name {
                proof {
                    assert(old(self)@[index as int].spec_name() == attr.spec_name());
                }
                return Some(self.items.remove(index));
            }
            index += 1;
        }
        None
    }
}

} // verus!
