use zenode::convert::{convert_to_type_fields, convert_to_value_fields, match_type_field, match_value_field};
use zenode::error::PamError;
use zenode::fields::{FieldType, FieldValue};

#[test]
fn test_convert_to_type_fields() {
    let fields = vec![
        ("foo".to_string(), "int".to_string()),
        ("bar".to_string(), "bool".to_string()),
        ("buzz".to_string(), "relation_list(id_123)".to_string()),
    ];

    let res = convert_to_type_fields(&fields);

    assert!(res.is_ok());
    let types = res.unwrap();

    assert_eq!(types.get(0), Some(&("foo".to_string(), FieldType::Int)));
    assert_eq!(types.get(1), Some(&("bar".to_string(), FieldType::Boolean)));
    assert_eq!(
        types.get(2),
        Some(&(
            "buzz".to_string(),
            FieldType::RelationList("id_123".to_string())
        ))
    );
}

#[test]
fn test_convert_to_value_fields() {
    let fields = vec![
        ("foo".to_string(), "100".to_string()),
        ("bar".to_string(), "true".to_string()),
        ("buzz".to_string(), "relation_list([id_123])".to_string()),
    ];

    let res = convert_to_value_fields(&fields);
    assert!(res.is_ok());

    let values = res.unwrap();

    assert_eq!(
        values.get(0),
        Some(&("foo".to_string(), FieldValue::Int(100)))
    );
    assert_eq!(
        values.get(1),
        Some(&("bar".to_string(), FieldValue::Boolean(true)))
    );
    assert_eq!(
        values.get(2),
        Some(&(
            "buzz".to_string(),
            FieldValue::RelationList("[id_123]".to_string())
        ))
    );
}

#[test]
fn test_primitive_tokens_resolve() {
    assert_eq!(match_type_field("str").unwrap(), FieldType::String);
    assert_eq!(match_type_field("int").unwrap(), FieldType::Int);
    assert_eq!(match_type_field("float").unwrap(), FieldType::Float);
    assert_eq!(match_type_field("bool").unwrap(), FieldType::Boolean);
}

#[test]
fn test_relation_kinds_resolve_as_types() {
    assert_eq!(
        match_type_field("relation(abc)").unwrap(),
        FieldType::Relation("abc".to_string())
    );
    assert_eq!(
        match_type_field("relation_list(abc)").unwrap(),
        FieldType::RelationList("abc".to_string())
    );
    assert_eq!(
        match_type_field("pinned_relation(abc)").unwrap(),
        FieldType::PinnedRelation("abc".to_string())
    );
    assert_eq!(
        match_type_field("pinned_relation_list(abc)").unwrap(),
        FieldType::PinnedRelationList("abc".to_string())
    );
}

#[test]
fn test_relation_kinds_resolve_as_values() {
    assert_eq!(
        match_value_field("relation(abc)").unwrap(),
        FieldValue::Relation("abc".to_string())
    );
    assert_eq!(
        match_value_field("relation_list(abc)").unwrap(),
        FieldValue::RelationList("abc".to_string())
    );
    assert_eq!(
        match_value_field("pinned_relation(abc)").unwrap(),
        FieldValue::PinnedRelation("abc".to_string())
    );
    assert_eq!(
        match_value_field("pinned_relation_list(abc)").unwrap(),
        FieldValue::PinnedRelationList("abc".to_string())
    );
}

#[test]
fn test_numeric_disambiguation() {
    assert_eq!(match_value_field("100").unwrap(), FieldValue::Int(100));
    assert_eq!(
        match_value_field("100.0").unwrap(),
        FieldValue::Float("100.0".to_string())
    );
    assert_eq!(
        match_value_field("3.1416").unwrap(),
        FieldValue::Float("3.1416".to_string())
    );
    assert_eq!(match_value_field("-42").unwrap(), FieldValue::Int(-42));
}

#[test]
fn test_boolean_literals() {
    assert_eq!(match_value_field("true").unwrap(), FieldValue::Boolean(true));
    assert_eq!(
        match_value_field("false").unwrap(),
        FieldValue::Boolean(false)
    );
    // case-sensitive against already-lowercased input
    assert_eq!(
        match_value_field("True").unwrap(),
        FieldValue::String("True".to_string())
    );
}

#[test]
fn test_string_fallback() {
    assert_eq!(
        match_value_field("Bulbasaur").unwrap(),
        FieldValue::String("Bulbasaur".to_string())
    );
}

#[test]
fn test_unknown_type() {
    match match_type_field("money") {
        Err(PamError::UnknownTypeError { typ }) => assert_eq!(typ, "money".to_string()),
        other => panic!("expected an unknown-type error, got {:?}", other),
    }
}

#[test]
fn test_unknown_relation_name_as_value() {
    match match_value_field("relationship(abc)") {
        Err(PamError::UnknownTypeError { typ }) => {
            assert_eq!(typ, "relationship".to_string())
        }
        other => panic!("expected an unknown-type error, got {:?}", other),
    }
}

#[test]
fn test_type_side_missing_parenthesis_is_parse_error() {
    match match_type_field("relation") {
        Err(PamError::ParseError { field, reason: _ }) => {
            assert_eq!(field, "relation".to_string())
        }
        other => panic!("expected a parse error, got {:?}", other),
    }
}

#[test]
fn test_conversion_fails_fast_on_first_error() {
    let fields = vec![
        ("a".to_string(), "int".to_string()),
        ("b".to_string(), "money".to_string()),
        ("c".to_string(), "gold".to_string()),
    ];
    match convert_to_type_fields(&fields) {
        Err(PamError::UnknownTypeError { typ }) => assert_eq!(typ, "money".to_string()),
        other => panic!("expected an unknown-type error, got {:?}", other),
    }
}
