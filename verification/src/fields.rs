//! The typed field model: the closed set of field types a schema may
//! declare, the closed set of field values a document may carry, and their
//! canonical textual renderings.

use vstd::prelude::*;
use vstd::string::*;
use crate::text::{float_render_of, i64_dec_spec, i64_to_string, render_float_text};

verus! {

/// Mathematical image of a field type, over plain character sequences.
pub enum FieldTypeSpec {
    Int,
    Float,
    Bool,
    Str,
    Relation(Seq<char>),
    RelationList(Seq<char>),
    PinnedRelation(Seq<char>),
    PinnedRelationList(Seq<char>),
}

/// The type of a schema field: one of the four primitives, or one of the
/// four relation kinds carrying an opaque target identifier that this core
/// never inspects or resolves.
#[derive(Debug, Clone, PartialEq)]
pub enum FieldType {
    Int,
    Float,
    Boolean,
    String,
    Relation(String),
    RelationList(String),
    PinnedRelation(String),
    PinnedRelationList(String),
}

impl View for FieldType {
    type V = FieldTypeSpec;

    open spec fn view(&self) -> FieldTypeSpec {
        match self {
            FieldType::Int => FieldTypeSpec::Int,
            FieldType::Float => FieldTypeSpec::Float,
            FieldType::Boolean => FieldTypeSpec::Bool,
            FieldType::String => FieldTypeSpec::Str,
            FieldType::Relation(d) => FieldTypeSpec::Relation(d@),
            FieldType::RelationList(d) => FieldTypeSpec::RelationList(d@),
            FieldType::PinnedRelation(d) => FieldTypeSpec::PinnedRelation(d@),
            FieldType::PinnedRelationList(d) => FieldTypeSpec::PinnedRelationList(d@),
        }
    }
}

/// Mathematical image of a field value.
pub enum FieldValueSpec {
    Int(i64),
    /// The numeric literal text the value was written as; it parsed as a
    /// double-precision number and held a decimal point.
    Float(Seq<char>),
    Str(Seq<char>),
    Bool(bool),
    Relation(Seq<char>),
    RelationList(Seq<char>),
    PinnedRelation(Seq<char>),
    PinnedRelationList(Seq<char>),
}

/// The value of a document field. A floating-point value is carried as the
/// literal text it was written as (it parsed as a double-precision number);
/// its canonical rendering re-reads that text.
#[derive(Debug, Clone, PartialEq)]
pub enum FieldValue {
    Int(i64),
    Float(String),
    String(String),
    Boolean(bool),
    Relation(String),
    RelationList(String),
    PinnedRelation(String),
    PinnedRelationList(String),
}

impl View for FieldValue {
    type V = FieldValueSpec;

    open spec fn view(&self) -> FieldValueSpec {
        match self {
            FieldValue::Int(n) => FieldValueSpec::Int(*n),
            FieldValue::Float(t) => FieldValueSpec::Float(t@),
            FieldValue::String(s) => FieldValueSpec::Str(s@),
            FieldValue::Boolean(b) => FieldValueSpec::Bool(*b),
            FieldValue::Relation(d) => FieldValueSpec::Relation(d@),
            FieldValue::RelationList(d) => FieldValueSpec::RelationList(d@),
            FieldValue::PinnedRelation(d) => FieldValueSpec::PinnedRelation(d@),
            FieldValue::PinnedRelationList(d) => FieldValueSpec::PinnedRelationList(d@),
        }
    }
}

/// The canonical textual form of a field type: the form the type grammar
/// reads back, and the form the wire payload carries.
pub open spec fn type_render_spec(t: FieldTypeSpec) -> Seq<char> {
    match t {
        FieldTypeSpec::Bool => "bool"@,
        FieldTypeSpec::Int => "int"@,
        FieldTypeSpec::Float => "float"@,
        FieldTypeSpec::Str => "str"@,
        FieldTypeSpec::Relation(d) => "relation("@ + d + ")"@,
        FieldTypeSpec::RelationList(d) => "relation_list("@ + d + ")"@,
        FieldTypeSpec::PinnedRelation(d) => "pinned_relation("@ + d + ")"@,
        FieldTypeSpec::PinnedRelationList(d) => "pinned_relation_list("@ + d + ")"@,
    }
}

impl FieldType {
    /// Renders the type back to its canonical textual form.
    pub fn render(&self) -> (r: String)
        ensures
            r@ == type_render_spec(self@),
    {
        match self {
            FieldType::Boolean => ("bool").to_owned(),
            FieldType::Int => ("int").to_owned(),
            FieldType::Float => ("float").to_owned(),
            FieldType::String => ("str").to_owned(),
            FieldType::Relation(d) => {
                let mut r = ("relation(").to_owned();
                r.append(d.as_str());
                r.append(")");
                r
            }
            FieldType::RelationList(d) => {
                let mut r = ("relation_list(").to_owned();
                r.append(d.as_str());
                r.append(")");
                r
            }
            FieldType::PinnedRelation(d) => {
                let mut r = ("pinned_relation(").to_owned();
                r.append(d.as_str());
                r.append(")");
                r
            }
            FieldType::PinnedRelationList(d) => {
                let mut r = ("pinned_relation_list(").to_owned();
                r.append(d.as_str());
                r.append(")");
                r
            }
        }
    }
}

/// The wire rendering of a field value: booleans and numbers bare, strings
/// and single relations quoted, relation lists and pinned relations
/// bracketed.
pub open spec fn value_render_spec(v: FieldValueSpec) -> Seq<char> {
    match v {
        FieldValueSpec::Bool(b) => if b {
            "true"@
        } else {
            "false"@
        },
        FieldValueSpec::Int(n) => i64_dec_spec(n as int),
        FieldValueSpec::Float(t) => float_render_of(t),
        FieldValueSpec::Str(s) => "\""@ + s + "\""@,
        FieldValueSpec::Relation(d) => "\""@ + d + "\""@,
        FieldValueSpec::RelationList(d) => "["@ + d + "]"@,
        FieldValueSpec::PinnedRelation(d) => "["@ + d + "]"@,
        FieldValueSpec::PinnedRelationList(d) => "["@ + d + "]"@,
    }
}

impl FieldValue {
    /// Renders the value in its wire form.
    pub fn render(&self) -> (r: String)
        ensures
            r@ == value_render_spec(self@),
    {
        match self {
            FieldValue::Boolean(b) => {
                if *b {
                    ("true").to_owned()
                } else {
                    ("false").to_owned()
                }
            }
            FieldValue::Int(n) => i64_to_string(*n),
            FieldValue::Float(t) => render_float_text(t.as_str()),
            FieldValue::String(s) => {
                let mut r = ("\"").to_owned();
                r.append(s.as_str());
                r.append("\"");
                r
            }
            FieldValue::Relation(d) => {
                let mut r = ("\"").to_owned();
                r.append(d.as_str());
                r.append("\"");
                r
            }
            FieldValue::RelationList(d) => {
                let mut r = ("[").to_owned();
                r.append(d.as_str());
                r.append("]");
                r
            }
            FieldValue::PinnedRelation(d) => {
                let mut r = ("[").to_owned();
                r.append(d.as_str());
                r.append("]");
                r
            }
            FieldValue::PinnedRelationList(d) => {
                let mut r = ("[").to_owned();
                r.append(d.as_str());
                r.append("]");
                r
            }
        }
    }
}

} // verus!
