//! The schema-field collection: named field types gathered before a schema
//! is published, keyed by identifier, each key held once, in the sorted
//! order the publication payload walks.

use vstd::prelude::*;
use vstd::string::*;
use crate::entries::{insert_entry, key_sorted, lookup};
use crate::fields::FieldType;

verus! {

/// The named field types of a schema in the making, sorted by identifier.
pub struct SchemaFields {
    entries: Vec<(String, FieldType)>,
}

impl SchemaFields {
    /// The entries in their sorted order.
    pub closed spec fn spec_entries(&self) -> Seq<(String, FieldType)> {
        self.entries@
    }

    /// Keys strictly ascend, so each identifier is held once.
    pub closed spec fn wf(&self) -> bool {
        key_sorted(self.entries@)
    }

    /// An empty collection.
    pub fn new() -> (r: SchemaFields)
        ensures
            r.wf(),
            r.spec_entries() == Seq::<(String, FieldType)>::empty(),
    {
        SchemaFields { entries: Vec::new() }
    }

    /// Stores `value` under `name`, replacing any earlier type there.
    pub fn insert(&mut self, name: &str, value: FieldType)
        requires
            old(self).wf(),
        ensures
            final(self).wf(),
            lookup(final(self).spec_entries(), name@) == Some(value),
            forall|k: Seq<char>|
                k != name@ ==> lookup(final(self).spec_entries(), k) == lookup(
                    old(self).spec_entries(),
                    k,
                ),
    {
        insert_entry(&mut self.entries, name.to_owned(), value);
    }

    /// The entries, for walking in sorted order.
    pub fn entries(&self) -> (r: &Vec<(String, FieldType)>)
        ensures
            r@ == self.spec_entries(),
    {
        &self.entries
    }
}

/// Gathers named field types one call at a time, then hands the collection
/// over.
pub struct SchemaFieldBuilder {
    pub map: SchemaFields,
}

impl SchemaFieldBuilder {
    /// A builder holding no fields yet.
    pub fn new() -> (r: SchemaFieldBuilder)
        ensures
            r.map.wf(),
            r.map.spec_entries() == Seq::<(String, FieldType)>::empty(),
    {
        SchemaFieldBuilder { map: SchemaFields::new() }
    }

    /// Adds one named field type, replacing any earlier type of that name.
    pub fn field(self, name: &str, value: FieldType) -> (r: SchemaFieldBuilder)
        requires
            self.map.wf(),
        ensures
            r.map.wf(),
            lookup(r.map.spec_entries(), name@) == Some(value),
            forall|k: Seq<char>|
                k != name@ ==> lookup(r.map.spec_entries(), k) == lookup(
                    self.map.spec_entries(),
                    k,
                ),
    {
        let mut map = self.map;
        map.insert(name, value);
        SchemaFieldBuilder { map }
    }

    /// Hands the gathered collection over.
    pub fn build(self) -> (r: SchemaFields)
        ensures
            r == self.map,
    {
        self.map
    }
}

impl Default for SchemaFieldBuilder {
    /// A builder holding no fields yet.
    fn default() -> (r: SchemaFieldBuilder)
        ensures
            r.map.wf(),
            r.map.spec_entries() == Seq::<(String, FieldType)>::empty(),
    {
        SchemaFieldBuilder::new()
    }
}

} // verus!
