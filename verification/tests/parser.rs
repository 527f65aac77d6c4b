use zenode::error::PamError;
use zenode::parser::{parse_fields, parse_relation, validate_type_field, validate_type_fields};

#[test]
fn test_parse_fields() -> Result<(), PamError> {
    let fields = vec![
        "name:str",
        "id: int",
        "is_ok : bool",
        "  score : float  ",
        "link: relation(id_000123123)",
    ];

    let fields: Vec<_> = fields.iter().map(|s| s.to_string()).collect();
    let fields = parse_fields(&fields)?;

    assert_eq!(
        fields.get(0),
        Some(&("name".to_string(), "str".to_string()))
    );
    assert_eq!(fields.get(1), Some(&("id".to_string(), "int".to_string())));
    assert_eq!(
        fields.get(2),
        Some(&("is_ok".to_string(), "bool".to_string()))
    );
    assert_eq!(
        fields.get(3),
        Some(&("score".to_string(), "float".to_string()))
    );
    assert_eq!(
        fields.get(4),
        Some(&("link".to_string(), "relation(id_000123123)".to_string()))
    );

    Ok(())
}

#[test]
fn test_validate_type_fields() -> Result<(), PamError> {
    let fields = vec![
        "name:str",
        "id: int",
        "is_ok : bool",
        "  score : float  ",
        "link: relation(id_000123123)",
    ];

    let fields: Vec<_> = fields.iter().map(|s| s.to_string()).collect();
    let fields = parse_fields(&fields)?;

    for f in fields.iter() {
        validate_type_field(&f)?;
    }

    Ok(())
}

#[test]
fn test_missing_err() {
    let fields = vec![String::from("name    str")];
    let res = parse_fields(&fields);
    assert!(res.is_err());
}

#[test]
fn test_too_many_err() {
    let fields = vec![String::from(":  :: name  :str")];
    let res = parse_fields(&fields);
    assert!(res.is_err());
}

#[test]
fn test_parse_relation() {
    let input = String::from("   pinned_relation_list(id_1232343232)");
    match parse_relation(&input) {
        Ok(result) => {
            assert_eq!(result.relation_name, String::from("pinned_relation_list"));
            assert_eq!(result.document_id, String::from("id_1232343232"));
        }
        Err(e) => println!("{}", e.message()),
    };
}

#[test]
fn test_parse_relation_err() -> Result<(), PamError> {
    let input = String::from("   relation_list(((((id_1232343232)))))  ");
    parse_relation(&input)?;
    Ok(())
}

#[test]
fn test_nested_parentheses_extract_flat() {
    // the grammar cuts at the first closing parenthesis, without rebalancing
    let input = String::from("   relation_list(((((id_1232343232)))))  ");
    let res = parse_relation(&input).unwrap();
    assert_eq!(res.relation_name, "relation_list".to_string());
    assert_eq!(res.document_id, "((((id_1232343232".to_string());
}

#[test]
fn test_empty_inner_text_is_accepted() {
    let res = parse_relation("name()").unwrap();
    assert_eq!(res.relation_name, "name".to_string());
    assert_eq!(res.document_id, "".to_string());
}

#[test]
fn test_splitter_missing_separator() {
    let fields = vec![String::from("name str")];
    match parse_fields(&fields) {
        Err(PamError::ParseError { field, reason }) => {
            assert_eq!(field, "name str".to_string());
            assert_eq!(
                reason,
                "Error missing \":\" in field: \"name str\"".to_string()
            );
        }
        other => panic!("expected a parse error, got {:?}", other),
    }
}

#[test]
fn test_splitter_too_many_separators() {
    let fields = vec![String::from(":: name :str")];
    match parse_fields(&fields) {
        Err(PamError::ParseError { field, reason }) => {
            assert_eq!(field, ":: name :str".to_string());
            assert_eq!(
                reason,
                "Error more than one \":\" in field: \":: name :str\"".to_string()
            );
        }
        other => panic!("expected a parse error, got {:?}", other),
    }
}

#[test]
fn test_splitter_trims_and_lowercases_payload() {
    let fields = vec![
        "name:str".to_string(),
        "id: int".to_string(),
        "  score : FLOAT  ".to_string(),
    ];
    let parsed = parse_fields(&fields).unwrap();
    assert_eq!(parsed.get(0), Some(&("name".to_string(), "str".to_string())));
    assert_eq!(parsed.get(1), Some(&("id".to_string(), "int".to_string())));
    assert_eq!(
        parsed.get(2),
        Some(&("score".to_string(), "float".to_string()))
    );
}

#[test]
fn test_empty_identifier_is_permitted_by_the_splitter() {
    let fields = vec![":str".to_string()];
    let parsed = parse_fields(&fields).unwrap();
    assert_eq!(parsed.get(0), Some(&("".to_string(), "str".to_string())));
}

#[test]
fn test_identifier_keeps_its_case() {
    let fields = vec!["Name: STR".to_string()];
    let parsed = parse_fields(&fields).unwrap();
    assert_eq!(parsed.get(0), Some(&("Name".to_string(), "str".to_string())));
}

#[test]
fn test_validate_rejects_unclosed_relation() {
    let field = ("link".to_string(), "relation(abc".to_string());
    match validate_type_field(&field) {
        Err(PamError::UnknownTypeError { typ }) => {
            assert_eq!(typ, "relation(abc".to_string())
        }
        other => panic!("expected an unknown-type error, got {:?}", other),
    }
    assert!(validate_type_fields(&vec![field]).is_err());
}
