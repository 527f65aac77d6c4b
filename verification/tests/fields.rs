use zenode::convert::{match_type_field, match_value_field};
use zenode::error::PamError;
use zenode::fields::{FieldType, FieldValue};

#[test]
fn test_type_render_round_trip() {
    let cases = vec![
        FieldType::Boolean,
        FieldType::Int,
        FieldType::Float,
        FieldType::String,
        FieldType::Relation("schema_a".to_string()),
        FieldType::RelationList("schema_b".to_string()),
        FieldType::PinnedRelation("schema_c".to_string()),
        FieldType::PinnedRelationList("schema_d".to_string()),
    ];
    for t in cases {
        let text = t.render();
        assert_eq!(match_type_field(text.as_str()).unwrap(), t);
    }
}

#[test]
fn test_type_render_canonical_forms() {
    assert_eq!(FieldType::Boolean.render(), "bool".to_string());
    assert_eq!(FieldType::Int.render(), "int".to_string());
    assert_eq!(FieldType::Float.render(), "float".to_string());
    assert_eq!(FieldType::String.render(), "str".to_string());
    assert_eq!(
        FieldType::Relation("schema_a".to_string()).render(),
        "relation(schema_a)".to_string()
    );
}

#[test]
fn test_value_render_wire_forms() {
    assert_eq!(FieldValue::Boolean(true).render(), "true".to_string());
    assert_eq!(FieldValue::Boolean(false).render(), "false".to_string());
    assert_eq!(FieldValue::Int(100).render(), "100".to_string());
    assert_eq!(FieldValue::Int(-42).render(), "-42".to_string());
    assert_eq!(FieldValue::Int(0).render(), "0".to_string());
    assert_eq!(
        FieldValue::String("Neko".to_string()).render(),
        "\"Neko\"".to_string()
    );
    assert_eq!(
        FieldValue::Relation("id_1".to_string()).render(),
        "\"id_1\"".to_string()
    );
    assert_eq!(
        FieldValue::RelationList("[id_1]".to_string()).render(),
        "[[id_1]]".to_string()
    );
    assert_eq!(
        FieldValue::PinnedRelation("id_2".to_string()).render(),
        "[id_2]".to_string()
    );
    assert_eq!(
        FieldValue::PinnedRelationList("id_3".to_string()).render(),
        "[id_3]".to_string()
    );
}

#[test]
fn test_float_value_renders_like_the_parsed_number() {
    // the stored literal is re-read as a number before printing
    assert_eq!(
        FieldValue::Float("100.0".to_string()).render(),
        "100".to_string()
    );
    assert_eq!(
        FieldValue::Float("3.1416".to_string()).render(),
        "3.1416".to_string()
    );
    assert_eq!(
        FieldValue::Float("2.50".to_string()).render(),
        "2.5".to_string()
    );
}

#[test]
fn test_int_render_at_the_edges() {
    assert_eq!(
        FieldValue::Int(i64::MAX).render(),
        "9223372036854775807".to_string()
    );
    assert_eq!(
        FieldValue::Int(i64::MIN).render(),
        "-9223372036854775808".to_string()
    );
}

#[test]
fn test_error_messages() {
    let e = PamError::ParseError {
        field: "name str".to_string(),
        reason: "why".to_string(),
    };
    assert_eq!(e.message(), "Error at parsing name str, why".to_string());

    let e = PamError::UnknownTypeError {
        typ: "money".to_string(),
    };
    assert_eq!(e.message(), "Unknown type \"money\"".to_string());

    let e = PamError::from("transport failed".to_string());
    assert_eq!(e, PamError::GenericStringError("transport failed".to_string()));
    assert_eq!(e.message(), "transport failed".to_string());
}

#[test]
fn test_truncating_large_numbers_saturates() {
    // a value beyond the signed 64-bit range saturates at its edge
    assert_eq!(
        match_value_field("1e300").unwrap(),
        FieldValue::Int(i64::MAX)
    );
    assert_eq!(
        match_value_field("-1e300").unwrap(),
        FieldValue::Int(i64::MIN)
    );
    // a fractional value without a decimal point truncates toward zero
    assert_eq!(match_value_field("5e-1").unwrap(), FieldValue::Int(0));
}
