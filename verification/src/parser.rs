//! The field splitter and the relation sub-grammar: raw `"name: value"`
//! strings become `(identifier, payload)` pairs, and `name(inner)` relation
//! expressions are taken apart at their first pair of parentheses.

use vstd::prelude::*;
use vstd::string::*;
use crate::error::{
    build_missing_close_reason, build_missing_open_reason, build_missing_sep_reason,
    build_too_many_sep_reason, missing_close_reason, missing_open_reason, missing_sep_reason,
    too_many_sep_reason, ErrorSpec, PamError,
};
use crate::text::{
    count_char, count_char_in, find_char, find_char_at, lemma_find_count, lower_of, lowercase,
    str_eq, str_len, str_starts_with, str_ends_with, substring, trim, trim_spec,
};

verus! {

/// What splitting one raw field yields: where the text holds exactly one
/// colon, the pair of the trimmed identifier and the trimmed, lower-cased
/// payload; a structural error naming the offending text otherwise.
pub open spec fn split_field_spec(s: Seq<char>) -> Result<(Seq<char>, Seq<char>), ErrorSpec> {
    if count_char(s, ':') == 1 {
        let i = find_char(s, ':');
        Ok(
            (
                trim_spec(s.subrange(0, i)),
                lower_of(trim_spec(s.subrange(i + 1, s.len() as int))),
            ),
        )
    } else if count_char(s, ':') == 0 {
        Err(ErrorSpec::Parse { field: s, reason: missing_sep_reason(s) })
    } else {
        Err(ErrorSpec::Parse { field: s, reason: too_many_sep_reason(s) })
    }
}

/// Splits one raw `"identifier: payload"` string on its colon, trimming both
/// sides and lower-casing the payload.
pub fn split_field(s: &str) -> (r: Result<(String, String), PamError>)
    ensures
        match r {
            Ok(p) => split_field_spec(s@) == Ok::<_, ErrorSpec>((p.0@, p.1@)),
            Err(e) => split_field_spec(s@) == Err::<(Seq<char>, Seq<char>), _>(e@),
        },
{
    proof {
        lemma_find_count(s@, ':', 0);
    }
    let cnt = count_char_in(s, ':');
    if cnt == 0 {
        Err(
            PamError::ParseError {
                field: s.to_owned(),
                reason: build_missing_sep_reason(s),
            },
        )
    } else if cnt > 1 {
        Err(
            PamError::ParseError {
                field: s.to_owned(),
                reason: build_too_many_sep_reason(s),
            },
        )
    } else {
        let i = find_char_at(s, ':').unwrap();
        let n = str_len(s);
        let left = substring(s, 0, i);
        let right = substring(s, i + 1, n);
        let ident = trim(left.as_str());
        let trimmed = trim(right.as_str());
        let payload = lowercase(trimmed.as_str());
        Ok((ident, payload))
    }
}

/// Splits every raw field in order, stopping at the first malformed one.
pub fn parse_fields(fields: &Vec<String>) -> (r: Result<Vec<(String, String)>, PamError>)
    ensures
        match r {
            Ok(v) => v@.len() == fields@.len() && forall|j: int|
                0 <= j < fields@.len() ==> split_field_spec(#[trigger] fields@[j]@) is Ok
                    && split_field_spec(fields@[j]@) == Ok::<_, ErrorSpec>(
                    (v@[j].0@, v@[j].1@),
                ),
            Err(e) => exists|j: int|
                0 <= j < fields@.len() && split_field_spec(#[trigger] fields@[j]@) == Err::<
                    (Seq<char>, Seq<char>),
                    _,
                >(e@) && (forall|k: int|
                    0 <= k < j ==> split_field_spec(#[trigger] fields@[k]@) is Ok),
        },
{
    let mut out: Vec<(String, String)> = Vec::new();
    let mut i: usize = 0;
    while i < fields.len()
        invariant
            0 <= i <= fields@.len(),
            out@.len() == i,
            forall|j: int|
                0 <= j < i ==> split_field_spec(#[trigger] fields@[j]@) is Ok
                    && split_field_spec(fields@[j]@) == Ok::<_, ErrorSpec>(
                    (out@[j].0@, out@[j].1@),
                ),
        decreases fields@.len() - i,
    {
        match split_field(fields[i].as_str()) {
            Ok(p) => out.push(p),
            Err(e) => {
                return Err(e);
            }
        }
        i = i + 1;
    }
    Ok(out)
}

/// Whether a payload is a well-formed type token: one of the four primitive
/// tokens, or a relation-kind prefix followed by text ending in a closing
/// parenthesis.
pub open spec fn validate_type_spec(t: Seq<char>) -> Result<(), ErrorSpec> {
    if t == "str"@ || t == "int"@ || t == "float"@ || t == "bool"@ {
        Ok(())
    } else if (("relation("@.is_prefix_of(t) || "relation_list("@.is_prefix_of(t)
        || "pinned_relation("@.is_prefix_of(t) || "pinned_relation_list("@.is_prefix_of(t))
        && ")"@.is_suffix_of(t)) {
        Ok(())
    } else {
        Err(ErrorSpec::UnknownType { typ: t })
    }
}

/// Checks that one split field's payload is a well-formed type token.
pub fn validate_type_field(field: &(String, String)) -> (r: Result<(), PamError>)
    ensures
        match r {
            Ok(_) => validate_type_spec(field.1@) is Ok,
            Err(e) => validate_type_spec(field.1@) == Err::<(), _>(e@),
        },
{
    let typ = field.1.as_str();
    if str_eq(typ, "str") || str_eq(typ, "int") || str_eq(typ, "float") || str_eq(typ, "bool") {
        Ok(())
    } else if (str_starts_with(typ, "relation(") || str_starts_with(typ, "relation_list(")
        || str_starts_with(typ, "pinned_relation(") || str_starts_with(
        typ,
        "pinned_relation_list(",
    )) && str_ends_with(typ, ")") {
        Ok(())
    } else {
        Err(PamError::UnknownTypeError { typ: field.1.clone() })
    }
}

/// Checks every split field's payload, stopping at the first ill-formed one.
pub fn validate_type_fields(type_fields: &Vec<(String, String)>) -> (r: Result<(), PamError>)
    ensures
        match r {
            Ok(_) => forall|j: int|
                0 <= j < type_fields@.len() ==> validate_type_spec(
                    #[trigger] type_fields@[j].1@,
                ) is Ok,
            Err(e) => exists|j: int|
                0 <= j < type_fields@.len() && validate_type_spec(#[trigger] type_fields@[j].1@)
                    == Err::<(), _>(e@) && (forall|k: int|
                    0 <= k < j ==> validate_type_spec(#[trigger] type_fields@[k].1@) is Ok),
        },
{
    let mut i: usize = 0;
    while i < type_fields.len()
        invariant
            0 <= i <= type_fields@.len(),
            forall|j: int|
                0 <= j < i ==> validate_type_spec(#[trigger] type_fields@[j].1@) is Ok,
        decreases type_fields@.len() - i,
    {
        match validate_type_field(&type_fields[i]) {
            Ok(_) => {}
            Err(e) => {
                return Err(e);
            }
        }
        i = i + 1;
    }
    Ok(())
}

/// A relation expression taken apart: the name before the first opening
/// parenthesis and the text up to the first closing one.
#[derive(Debug, Clone, PartialEq)]
pub struct RelationData {
    pub relation_name: String,
    pub document_id: String,
}

/// What the relation sub-grammar makes of a string: after trimming, the text
/// before the first `(` names the relation, and the text from there to the
/// first `)` is the embedded identifier. Nested parentheses are not
/// rebalanced, and text after the first `)` is ignored.
pub open spec fn parse_relation_spec(s: Seq<char>) -> Result<(Seq<char>, Seq<char>), ErrorSpec> {
    let t = trim_spec(s);
    if find_char(t, '(') == -1 {
        Err(ErrorSpec::Parse { field: s, reason: missing_open_reason(s) })
    } else {
        let i = find_char(t, '(');
        let rest = t.subrange(i + 1, t.len() as int);
        if find_char(rest, ')') == -1 {
            Err(ErrorSpec::Parse { field: s, reason: missing_close_reason(s) })
        } else {
            Ok((t.subrange(0, i), rest.subrange(0, find_char(rest, ')'))))
        }
    }
}

/// Takes a `name(inner)` relation expression apart at its first pair of
/// parentheses, after trimming surrounding white space.
pub fn parse_relation(input: &str) -> (r: Result<RelationData, PamError>)
    ensures
        match r {
            Ok(d) => parse_relation_spec(input@) == Ok::<_, ErrorSpec>(
                (d.relation_name@, d.document_id@),
            ),
            Err(e) => parse_relation_spec(input@) == Err::<(Seq<char>, Seq<char>), _>(e@),
        },
{
    let t = trim(input);
    match find_char_at(t.as_str(), '(') {
        None => Err(
            PamError::ParseError {
                field: input.to_owned(),
                reason: build_missing_open_reason(input),
            },
        ),
        Some(i) => {
            let n = str_len(t.as_str());
            let name = substring(t.as_str(), 0, i);
            let rest = substring(t.as_str(), i + 1, n);
            match find_char_at(rest.as_str(), ')') {
                None => Err(
                    PamError::ParseError {
                        field: input.to_owned(),
                        reason: build_missing_close_reason(input),
                    },
                ),
                Some(j) => {
                    let inner = substring(rest.as_str(), 0, j);
                    Ok(RelationData { relation_name: name, document_id: inner })
                }
            }
        }
    }
}

} // verus!
