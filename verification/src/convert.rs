//! The type/value grammar engine: a lower-cased, trimmed payload string
//! resolves to exactly one field type (when declaring a schema) or exactly
//! one field value (when writing a document), or fails with a structural or
//! unknown-type error.

use vstd::prelude::*;
use vstd::string::*;
use crate::error::{ErrorSpec, PamError};
use crate::fields::{FieldType, FieldTypeSpec, FieldValue, FieldValueSpec};
use crate::parser::{parse_relation, parse_relation_spec};
use crate::text::{
    find_char, find_char_at, float_trunc_of, lemma_find_count, numeric_start, parse_float_trunc,
    str_eq,
    str_starts_with, substring, trim, trim_spec,
};

verus! {

/// The payload's relation-kind candidate: the trimmed text up to the first
/// opening parenthesis, or all of it where there is none.
pub open spec fn kind_prefix_spec(s: Seq<char>) -> Seq<char> {
    let t = trim_spec(s);
    if find_char(t, '(') >= 0 {
        t.subrange(0, find_char(t, '('))
    } else {
        t
    }
}

/// Whether the text names one of the four relation kinds.
pub open spec fn is_relation_kind(p: Seq<char>) -> bool {
    p == "relation"@ || p == "relation_list"@ || p == "pinned_relation"@
        || p == "pinned_relation_list"@
}

/// What type resolution makes of a payload: one of the four primitive
/// tokens resolves to its primitive type; otherwise, where the text before
/// the first parenthesis names a relation kind, the relation sub-grammar
/// yields that kind carrying the extracted target, and a missing parenthesis
/// there is a structural error; any other token is an unknown type.
pub open spec fn type_resolve_spec(s: Seq<char>) -> Result<FieldTypeSpec, ErrorSpec> {
    if s == "str"@ {
        Ok(FieldTypeSpec::Str)
    } else if s == "int"@ {
        Ok(FieldTypeSpec::Int)
    } else if s == "float"@ {
        Ok(FieldTypeSpec::Float)
    } else if s == "bool"@ {
        Ok(FieldTypeSpec::Bool)
    } else if is_relation_kind(kind_prefix_spec(s)) {
        match parse_relation_spec(s) {
            Err(e) => Err(e),
            Ok(parts) => if parts.0 == "relation"@ {
                Ok(FieldTypeSpec::Relation(parts.1))
            } else if parts.0 == "relation_list"@ {
                Ok(FieldTypeSpec::RelationList(parts.1))
            } else if parts.0 == "pinned_relation"@ {
                Ok(FieldTypeSpec::PinnedRelation(parts.1))
            } else {
                Ok(FieldTypeSpec::PinnedRelationList(parts.1))
            },
        }
    } else {
        Err(ErrorSpec::UnknownType { typ: s })
    }
}

/// Where the sub-grammar succeeds, the name it extracts is the text before
/// the first parenthesis of the trimmed payload.
proof fn lemma_parse_name_is_kind_prefix(s: Seq<char>)
    ensures
        parse_relation_spec(s) matches Ok(parts) ==> parts.0 == kind_prefix_spec(s),
{
    lemma_find_count(trim_spec(s), '(', 0);
}

/// Resolves a payload to the field type it denotes.
pub fn match_type_field(typ: &str) -> (r: Result<FieldType, PamError>)
    ensures
        match r {
            Ok(t) => type_resolve_spec(typ@) == Ok::<_, ErrorSpec>(t@),
            Err(e) => type_resolve_spec(typ@) == Err::<FieldTypeSpec, _>(e@),
        },
{
    if str_eq(typ, "str") {
        Ok(FieldType::String)
    } else if str_eq(typ, "int") {
        Ok(FieldType::Int)
    } else if str_eq(typ, "float") {
        Ok(FieldType::Float)
    } else if str_eq(typ, "bool") {
        Ok(FieldType::Boolean)
    } else {
        let t = trim(typ);
        let prefix = match find_char_at(t.as_str(), '(') {
            Some(i) => substring(t.as_str(), 0, i),
            None => t,
        };
        let p = prefix.as_str();
        if str_eq(p, "relation") || str_eq(p, "relation_list") || str_eq(p, "pinned_relation")
            || str_eq(p, "pinned_relation_list") {
            proof {
                lemma_parse_name_is_kind_prefix(typ@);
            }
            match parse_relation(typ) {
                Err(e) => Err(e),
                Ok(res) => {
                    if str_eq(res.relation_name.as_str(), "relation") {
                        Ok(FieldType::Relation(res.document_id))
                    } else if str_eq(res.relation_name.as_str(), "relation_list") {
                        Ok(FieldType::RelationList(res.document_id))
                    } else if str_eq(res.relation_name.as_str(), "pinned_relation") {
                        Ok(FieldType::PinnedRelation(res.document_id))
                    } else {
                        Ok(FieldType::PinnedRelationList(res.document_id))
                    }
                }
            }
        } else {
            Err(PamError::UnknownTypeError { typ: typ.to_owned() })
        }
    }
}

/// What value resolution makes of a payload: the two boolean literals first;
/// then any text that parses as a double-precision number, where a decimal
/// point in the text itself picks the floating-point value and its absence
/// the truncated integer; then relation-prefixed text through the relation
/// sub-grammar, the extracted name picking the relation kind exactly; any
/// other text falls back to an opaque string value. The `numeric_start`
/// guard restates the documented literal grammar of the numeric parse, so
/// that text opening otherwise provably bypasses the numeric branch.
pub open spec fn value_resolve_spec(s: Seq<char>) -> Result<FieldValueSpec, ErrorSpec> {
    if s == "true"@ {
        Ok(FieldValueSpec::Bool(true))
    } else if s == "false"@ {
        Ok(FieldValueSpec::Bool(false))
    } else if numeric_start(s) && float_trunc_of(s) is Some {
        if find_char(s, '.') >= 0 {
            Ok(FieldValueSpec::Float(s))
        } else {
            Ok(FieldValueSpec::Int(float_trunc_of(s)->Some_0))
        }
    } else if "relation"@.is_prefix_of(s) || "pinned_relation"@.is_prefix_of(s) {
        match parse_relation_spec(s) {
            Err(e) => Err(e),
            Ok(parts) => if parts.0 == "relation"@ {
                Ok(FieldValueSpec::Relation(parts.1))
            } else if parts.0 == "relation_list"@ {
                Ok(FieldValueSpec::RelationList(parts.1))
            } else if parts.0 == "pinned_relation"@ {
                Ok(FieldValueSpec::PinnedRelation(parts.1))
            } else if parts.0 == "pinned_relation_list"@ {
                Ok(FieldValueSpec::PinnedRelationList(parts.1))
            } else {
                Err(ErrorSpec::UnknownType { typ: parts.0 })
            },
        }
    } else {
        Ok(FieldValueSpec::Str(s))
    }
}

/// Resolves a payload to the field value it denotes.
pub fn match_value_field(value: &str) -> (r: Result<FieldValue, PamError>)
    ensures
        match r {
            Ok(v) => value_resolve_spec(value@) == Ok::<_, ErrorSpec>(v@),
            Err(e) => value_resolve_spec(value@) == Err::<FieldValueSpec, _>(e@),
        },
{
    if str_eq(value, "true") {
        Ok(FieldValue::Boolean(true))
    } else if str_eq(value, "false") {
        Ok(FieldValue::Boolean(false))
    } else if let Some(number) = parse_float_trunc(value) {
        let has_dot = find_char_at(value, '.').is_some();
        if has_dot {
            Ok(FieldValue::Float(value.to_owned()))
        } else {
            Ok(FieldValue::Int(number))
        }
    } else if str_starts_with(value, "relation") || str_starts_with(value, "pinned_relation") {
        match parse_relation(value) {
            Err(e) => Err(e),
            Ok(res) => {
                if str_eq(res.relation_name.as_str(), "relation") {
                    Ok(FieldValue::Relation(res.document_id))
                } else if str_eq(res.relation_name.as_str(), "relation_list") {
                    Ok(FieldValue::RelationList(res.document_id))
                } else if str_eq(res.relation_name.as_str(), "pinned_relation") {
                    Ok(FieldValue::PinnedRelation(res.document_id))
                } else if str_eq(res.relation_name.as_str(), "pinned_relation_list") {
                    Ok(FieldValue::PinnedRelationList(res.document_id))
                } else {
                    Err(PamError::UnknownTypeError { typ: res.relation_name })
                }
            }
        }
    } else {
        Ok(FieldValue::String(value.to_owned()))
    }
}

/// Resolves every split field's payload to a type, in order, stopping at the
/// first failure.
pub fn convert_to_type_fields(fields: &Vec<(String, String)>) -> (r: Result<
    Vec<(String, FieldType)>,
    PamError,
>)
    ensures
        match r {
            Ok(v) => v@.len() == fields@.len() && forall|j: int|
                0 <= j < fields@.len() ==> type_resolve_spec(#[trigger] fields@[j].1@) is Ok
                    && v@[j].0@ == fields@[j].0@ && type_resolve_spec(fields@[j].1@) == Ok::<
                    _,
                    ErrorSpec,
                >(v@[j].1@),
            Err(e) => exists|j: int|
                0 <= j < fields@.len() && type_resolve_spec(#[trigger] fields@[j].1@) == Err::<
                    FieldTypeSpec,
                    _,
                >(e@) && (forall|k: int|
                    0 <= k < j ==> type_resolve_spec(#[trigger] fields@[k].1@) is Ok),
        },
{
    let mut out: Vec<(String, FieldType)> = Vec::new();
    let mut i: usize = 0;
    while i < fields.len()
        invariant
            0 <= i <= fields@.len(),
            out@.len() == i,
            forall|j: int|
                0 <= j < i ==> type_resolve_spec(#[trigger] fields@[j].1@) is Ok
                    && out@[j].0@ == fields@[j].0@ && type_resolve_spec(fields@[j].1@) == Ok::<
                    _,
                    ErrorSpec,
                >(out@[j].1@),
        decreases fields@.len() - i,
    {
        match match_type_field(fields[i].1.as_str()) {
            Ok(t) => out.push((fields[i].0.clone(), t)),
            Err(e) => {
                return Err(e);
            }
        }
        i = i + 1;
    }
    Ok(out)
}

/// Resolves every split field's payload to a value, in order, stopping at
/// the first failure.
pub fn convert_to_value_fields(fields: &Vec<(String, String)>) -> (r: Result<
    Vec<(String, FieldValue)>,
    PamError,
>)
    ensures
        match r {
            Ok(v) => v@.len() == fields@.len() && forall|j: int|
                0 <= j < fields@.len() ==> value_resolve_spec(#[trigger] fields@[j].1@) is Ok
                    && v@[j].0@ == fields@[j].0@ && value_resolve_spec(fields@[j].1@) == Ok::<
                    _,
                    ErrorSpec,
                >(v@[j].1@),
            Err(e) => exists|j: int|
                0 <= j < fields@.len() && value_resolve_spec(#[trigger] fields@[j].1@) == Err::<
                    FieldValueSpec,
                    _,
                >(e@) && (forall|k: int|
                    0 <= k < j ==> value_resolve_spec(#[trigger] fields@[k].1@) is Ok),
        },
{
    let mut out: Vec<(String, FieldValue)> = Vec::new();
    let mut i: usize = 0;
    while i < fields.len()
        invariant
            0 <= i <= fields@.len(),
            out@.len() == i,
            forall|j: int|
                0 <= j < i ==> value_resolve_spec(#[trigger] fields@[j].1@) is Ok
                    && out@[j].0@ == fields@[j].0@ && value_resolve_spec(fields@[j].1@) == Ok::<
                    _,
                    ErrorSpec,
                >(out@[j].1@),
        decreases fields@.len() - i,
    {
        match match_value_field(fields[i].1.as_str()) {
            Ok(v) => out.push((fields[i].0.clone(), v)),
            Err(e) => {
                return Err(e);
            }
        }
        i = i + 1;
    }
    Ok(out)
}

} // verus!
