//! The document-field collection: named field values gathered before a
//! document is created or updated, keyed by identifier, each key held once,
//! in the sorted order the wire payload walks; and the rendering of those
//! entries into the payload's field fragments.

use vstd::prelude::*;
use vstd::string::*;
use crate::entries::{insert_entry, key_sorted, lookup};
use crate::fields::{value_render_spec, FieldValue, FieldValueSpec};

verus! {

/// The named field values of a document in the making, sorted by identifier.
pub struct DocumentFields {
    entries: Vec<(String, FieldValue)>,
}

impl DocumentFields {
    /// The entries in their sorted order.
    pub closed spec fn spec_entries(&self) -> Seq<(String, FieldValue)> {
        self.entries@
    }

    /// Keys strictly ascend, so each identifier is held once.
    pub closed spec fn wf(&self) -> bool {
        key_sorted(self.entries@)
    }

    /// An empty collection.
    pub fn new() -> (r: DocumentFields)
        ensures
            r.wf(),
            r.spec_entries() == Seq::<(String, FieldValue)>::empty(),
    {
        DocumentFields { entries: Vec::new() }
    }

    /// Stores `value` under `name`, replacing any earlier value there.
    pub fn insert(&mut self, name: &str, value: FieldValue)
        requires
            old(self).wf(),
        ensures
            final(self).wf(),
            lookup(final(self).spec_entries(), name@) == Some(value),
            forall|k: Seq<char>|
                k != name@ ==> lookup(final(self).spec_entries(), k) == lookup(
                    old(self).spec_entries(),
                    k,
                ),
    {
        insert_entry(&mut self.entries, name.to_owned(), value);
    }

    /// The entries, for walking in sorted order.
    pub fn entries(&self) -> (r: &Vec<(String, FieldValue)>)
        ensures
            r@ == self.spec_entries(),
    {
        &self.entries
    }
}

/// Gathers named field values one call at a time, then hands the collection
/// over.
pub struct DocumentFieldBuilder {
    pub map: DocumentFields,
}

impl DocumentFieldBuilder {
    /// A builder holding no fields yet.
    pub fn new() -> (r: DocumentFieldBuilder)
        ensures
            r.map.wf(),
            r.map.spec_entries() == Seq::<(String, FieldValue)>::empty(),
    {
        DocumentFieldBuilder { map: DocumentFields::new() }
    }

    /// Adds one named field value, replacing any earlier value of that name.
    pub fn field(self, name: &str, value: FieldValue) -> (r: DocumentFieldBuilder)
        requires
            self.map.wf(),
        ensures
            r.map.wf(),
            lookup(r.map.spec_entries(), name@) == Some(value),
            forall|k: Seq<char>|
                k != name@ ==> lookup(r.map.spec_entries(), k) == lookup(
                    self.map.spec_entries(),
                    k,
                ),
    {
        let mut map = self.map;
        map.insert(name, value);
        DocumentFieldBuilder { map }
    }

    /// Hands the gathered collection over.
    pub fn build(self) -> (r: DocumentFields)
        ensures
            r == self.map,
    {
        self.map
    }
}

impl Default for DocumentFieldBuilder {
    /// A builder holding no fields yet.
    fn default() -> (r: DocumentFieldBuilder)
        ensures
            r.map.wf(),
            r.map.spec_entries() == Seq::<(String, FieldValue)>::empty(),
    {
        DocumentFieldBuilder::new()
    }
}

/// The payload fragment of one named field value: the quoted identifier, a
/// colon, and the value's wire rendering.
pub open spec fn json_field_spec(key: Seq<char>, v: FieldValueSpec) -> Seq<char> {
    "\""@ + key + "\": "@ + value_render_spec(v)
}

/// Renders every document field as its payload fragment, in the collection's
/// sorted order.
pub fn document_fields_to_json_fields(fields: &DocumentFields) -> (r: Vec<String>)
    ensures
        r@.len() == fields.spec_entries().len(),
        forall|i: int|
            0 <= i < r@.len() ==> (#[trigger] r@[i])@ == json_field_spec(
                fields.spec_entries()[i].0@,
                fields.spec_entries()[i].1@,
            ),
{
    let entries = fields.entries();
    let mut out: Vec<String> = Vec::new();
    let mut i: usize = 0;
    while i < entries.len()
        invariant
            0 <= i <= entries@.len(),
            entries@ == fields.spec_entries(),
            out@.len() == i,
            forall|j: int|
                0 <= j < i ==> (#[trigger] out@[j])@ == json_field_spec(
                    fields.spec_entries()[j].0@,
                    fields.spec_entries()[j].1@,
                ),
        decreases entries@.len() - i,
    {
        let mut line = ("\"").to_owned();
        line.append(entries[i].0.as_str());
        line.append("\": ");
        let rendered = entries[i].1.render();
        line.append(rendered.as_str());
        out.push(line);
        i = i + 1;
    }
    out
}

} // verus!
