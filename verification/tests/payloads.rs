use zenode::builder;
use zenode::document::{document_fields_to_json_fields, DocumentFieldBuilder};
use zenode::fields::{FieldType, FieldValue};
use zenode::operator::{
    create_document_payload, delete_document_payload, next_args_query, publish_mutation,
    schema_definition_payload, schema_field_payloads, update_document_payload, OperatorBuilder,
};
use zenode::schema::SchemaFieldBuilder;

#[test]
fn test_operator_builder_defaults_and_overrides() {
    let b = OperatorBuilder::new();
    assert_eq!(b.version, 1);
    assert_eq!(b.key_pair_path, None);
    assert_eq!(b.endpoint, "http://localhost:2020/graphql".to_string());

    let b = OperatorBuilder::new()
        .version(2)
        .key_pair_path("key.txt")
        .endpoint("http://example.org/graphql");
    assert_eq!(b.version, 2);
    assert_eq!(b.key_pair_path, Some("key.txt".to_string()));
    assert_eq!(b.endpoint, "http://example.org/graphql".to_string());
}

#[test]
fn test_schema_field_payloads_are_sorted_by_name() {
    let fields = SchemaFieldBuilder::new()
        .field("name", FieldType::String)
        .field("id", FieldType::Int)
        .build();
    let payloads = schema_field_payloads(1, &fields);
    assert_eq!(
        payloads,
        vec![
            "[1, 0, \"schema_field_definition_v1\", { \"name\": \"id\", \"type\": \"int\" }]"
                .to_string(),
            "[1, 0, \"schema_field_definition_v1\", { \"name\": \"name\", \"type\": \"str\" }]"
                .to_string(),
        ]
    );
}

#[test]
fn test_schema_field_builder_replaces_duplicates() {
    let fields = SchemaFieldBuilder::new()
        .field("id", FieldType::Int)
        .field("id", FieldType::Boolean)
        .build();
    let payloads = schema_field_payloads(1, &fields);
    assert_eq!(
        payloads,
        vec![
            "[1, 0, \"schema_field_definition_v1\", { \"name\": \"id\", \"type\": \"bool\" }]"
                .to_string(),
        ]
    );
}

#[test]
fn test_schema_definition_payload() {
    let ids = vec!["0020aaa".to_string(), "0020bbb".to_string()];
    let payload = schema_definition_payload(1, "a pet", &ids, "PetSchema");
    assert_eq!(
        payload,
        "[1, 0, \"schema_definition_v1\", { \"description\": \"a pet\", \
         \"fields\": [[\"0020aaa\"], [\"0020bbb\"]], \"name\": \"PetSchema\" }]"
            .to_string()
    );
}

#[test]
fn test_document_payloads() {
    let fields = DocumentFieldBuilder::new()
        .field("name", FieldValue::String("Neko".to_string()))
        .field("id", FieldValue::Int(1200))
        .build();

    let fragments = document_fields_to_json_fields(&fields);
    assert_eq!(
        fragments,
        vec!["\"id\": 1200".to_string(), "\"name\": \"Neko\"".to_string()]
    );

    let create = create_document_payload(1, "pet_0020abc", &fields);
    assert_eq!(
        create,
        "[1, 0, \"pet_0020abc\", { \"id\": 1200, \"name\": \"Neko\" } ]".to_string()
    );

    let update = update_document_payload(1, "pet_0020abc", "0020view", &fields);
    assert_eq!(
        update,
        "[1, 1, \"pet_0020abc\", [ \"0020view\" ], { \"id\": 1200, \"name\": \"Neko\" } ]"
            .to_string()
    );

    let delete = delete_document_payload(1, "pet_0020abc", "0020view");
    assert_eq!(delete, "[ 1,2,\"pet_0020abc\",[\"0020view\"] ]".to_string());
}

#[test]
fn test_next_args_query_text() {
    let q = next_args_query("aabbcc", &None);
    let expected = format!(
        r#"
            {{
                nextArgs(publicKey: "{}", viewId: {}) {{
                    logId
                    seqNum
                    skiplink
                    backlink
                }}
            }}
            "#,
        "aabbcc", "null"
    );
    assert_eq!(q, expected);

    let q = next_args_query("aabbcc", &Some("0020view".to_string()));
    let expected = format!(
        r#"
            {{
                nextArgs(publicKey: "{}", viewId: {}) {{
                    logId
                    seqNum
                    skiplink
                    backlink
                }}
            }}
            "#,
        "aabbcc", "\"0020view\""
    );
    assert_eq!(q, expected);
}

#[test]
fn test_publish_mutation_text() {
    let q = publish_mutation("entry0011", "op2233");
    let expected = format!(
        r#"
            mutation Publish {{
                publish(entry: "{}", operation: "{}") {{
                    logId
                    seqNum
                    skiplink
                    backlink
                }}
            }}
        "#,
        "entry0011", "op2233"
    );
    assert_eq!(q, expected);
}

#[test]
fn test_borrowing_field_types_render() {
    assert_eq!(builder::FieldType::Bool.render(), "bool".to_string());
    assert_eq!(builder::FieldType::Int.render(), "int".to_string());
    assert_eq!(builder::FieldType::Float.render(), "float".to_string());
    assert_eq!(builder::FieldType::Str.render(), "str".to_string());
    assert_eq!(
        builder::FieldType::Relation("id_9").render(),
        "relation(id_9)".to_string()
    );
    assert_eq!(
        builder::FieldType::PinnedRelationList("id_9").render(),
        "pinned_relation_list(id_9)".to_string()
    );

    let f = builder::SchemaField::new("id".to_string(), builder::FieldType::Int);
    assert_eq!(f.name, "id".to_string());
    assert_eq!(f.field_type, builder::FieldType::Int);
}
