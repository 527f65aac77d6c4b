//! An earlier, borrowing shape of the field-type declarations, kept for
//! callers that still build schemas from it: the type tokens reference the
//! caller's target ids instead of owning them.

use vstd::prelude::*;
use vstd::string::*;
use crate::fields::{type_render_spec, FieldTypeSpec};
use crate::text::str_eq;

verus! {

/// The type of a schema field, borrowing its relation target from the
/// caller.
#[derive(Debug, Clone, PartialEq)]
pub enum FieldType<'a> {
    Bool,
    Int,
    Float,
    Str,
    Relation(&'a str),
    RelationList(&'a str),
    PinnedRelation(&'a str),
    PinnedRelationList(&'a str),
}

impl<'a> View for FieldType<'a> {
    type V = FieldTypeSpec;

    open spec fn view(&self) -> FieldTypeSpec {
        match self {
            FieldType::Bool => FieldTypeSpec::Bool,
            FieldType::Int => FieldTypeSpec::Int,
            FieldType::Float => FieldTypeSpec::Float,
            FieldType::Str => FieldTypeSpec::Str,
            FieldType::Relation(d) => FieldTypeSpec::Relation(d@),
            FieldType::RelationList(d) => FieldTypeSpec::RelationList(d@),
            FieldType::PinnedRelation(d) => FieldTypeSpec::PinnedRelation(d@),
            FieldType::PinnedRelationList(d) => FieldTypeSpec::PinnedRelationList(d@),
        }
    }
}

impl<'a> FieldType<'a> {
    /// Renders the type to its canonical textual form.
    pub fn render(&self) -> (r: String)
        ensures
            r@ == type_render_spec(self@),
    {
        match self {
            FieldType::Bool => ("bool").to_owned(),
            FieldType::Int => ("int").to_owned(),
            FieldType::Float => ("float").to_owned(),
            FieldType::Str => ("str").to_owned(),
            FieldType::Relation(d) => {
                let mut r = ("relation(").to_owned();
                r.append(d);
                r.append(")");
                r
            }
            FieldType::RelationList(d) => {
                let mut r = ("relation_list(").to_owned();
                r.append(d);
                r.append(")");
                r
            }
            FieldType::PinnedRelation(d) => {
                let mut r = ("pinned_relation(").to_owned();
                r.append(d);
                r.append(")");
                r
            }
            FieldType::PinnedRelationList(d) => {
                let mut r = ("pinned_relation_list(").to_owned();
                r.append(d);
                r.append(")");
                r
            }
        }
    }
}

/// One declared schema field: its name and its type.
#[derive(Debug, Clone, PartialEq)]
pub struct SchemaField<'a> {
    pub name: String,
    pub field_type: FieldType<'a>,
}

impl SchemaField<'_> {
    /// Pairs a field name with its type.
    pub fn new(name: String, field_type: FieldType<'_>) -> (r: SchemaField<'_>)
        ensures
            r.name == name,
            r.field_type == field_type,
    {
        SchemaField { name, field_type }
    }
}

/// Whether some declared field carries the given name.
pub open spec fn declared_has(declared: Seq<SchemaField>, name: Seq<char>) -> bool {
    exists|j: int| 0 <= j < declared.len() && (#[trigger] declared[j].name)@ == name
}

/// Whether the given name stands among the declared fields.
fn is_declared(declared: &Vec<SchemaField>, name: &str) -> (r: bool)
    ensures
        r == declared_has(declared@, name@),
{
    let mut j: usize = 0;
    while j < declared.len()
        invariant
            0 <= j <= declared@.len(),
            forall|l: int| 0 <= l < j ==> (#[trigger] declared@[l].name)@ != name@,
        decreases declared@.len() - j,
    {
        if str_eq(declared[j].name.as_str(), name) {
            return true;
        }
        j = j + 1;
    }
    false
}

/// The first assignment naming no declared field, scanning in order: the
/// guard an instance factory runs before it submits anything.
pub fn first_unknown_field(declared: &Vec<SchemaField>, fields: &Vec<(String, String)>) -> (r:
    Option<String>)
    ensures
        match r {
            Some(k) => exists|i: int|
                0 <= i < fields@.len() && !declared_has(declared@, (#[trigger] fields@[i].0)@)
                    && k@ == fields@[i].0@ && (forall|l: int|
                    0 <= l < i ==> declared_has(declared@, (#[trigger] fields@[l].0)@)),
            None => forall|i: int|
                0 <= i < fields@.len() ==> declared_has(declared@, (#[trigger] fields@[i].0)@),
        },
{
    let mut i: usize = 0;
    while i < fields.len()
        invariant
            0 <= i <= fields@.len(),
            forall|l: int| 0 <= l < i ==> declared_has(declared@, (#[trigger] fields@[l].0)@),
        decreases fields@.len() - i,
    {
        if !is_declared(declared, fields[i].0.as_str()) {
            return Some(fields[i].0.clone());
        }
        i = i + 1;
    }
    None
}

/// Whether two declared fields share a name: the factory refuses such a
/// declaration list.
pub fn has_duplicate_name(declared: &Vec<SchemaField>) -> (r: bool)
    ensures
        r == exists|i: int, j: int|
            0 <= i < j < declared@.len() && (#[trigger] declared@[i].name)@ == (
            #[trigger] declared@[j].name)@,
{
    let mut j: usize = 1;
    if declared.len() == 0 {
        return false;
    }
    while j < declared.len()
        invariant
            1 <= j <= declared@.len() || declared@.len() == 0,
            forall|a: int, b: int|
                0 <= a < b < j ==> (#[trigger] declared@[a].name)@ != (
                #[trigger] declared@[b].name)@,
        decreases declared@.len() - j,
    {
        let mut a: usize = 0;
        while a < j
            invariant
                0 <= a <= j < declared@.len(),
                forall|l: int| 0 <= l < a ==> (#[trigger] declared@[l].name)@ != declared@[
                    j as int
                ].name@,
                forall|x: int, y: int|
                    0 <= x < y < j ==> (#[trigger] declared@[x].name)@ != (
                    #[trigger] declared@[y].name)@,
            decreases j - a,
        {
            if str_eq(declared[a].name.as_str(), declared[j].name.as_str()) {
                return true;
            }
            a = a + 1;
        }
        j = j + 1;
    }
    false
}

} // verus!
