use parquet_generator::errors::GenerateError;
use parquet_generator::schema::{build_schema, compile_schema, compile_schema_with};

#[test]
fn test_build_schema_basic() {
    let schema = r#"
    {
        "fields": [
            {
                "name": "id",
                "type": "INT32"
            },
            {
                "name": "name",
                "type": "BYTE_ARRAY",
                "logical_type": "UTF8"
            },
            {
                "name": "age",
                "type": "INT32"
            },
            {
                "name": "is_active",
                "type": "BOOLEAN"
            }
        ]
    }
    "#;
    let schema = build_schema(schema.to_string()).unwrap();
    assert_eq!(
        schema,
        "message schema {\n  REQUIRED INT32 id;\n  REQUIRED BYTE_ARRAY name (UTF8);\n  REQUIRED INT32 age;\n  REQUIRED BOOLEAN is_active;\n}\n"
    );
}

#[test]
fn canonical_text_is_deterministic() {
    let schema = r#"{"fields":[{"name":"id","type":"INT64"},{"name":"tag","type":"BINARY","logical_type":"UTF8","repetition_type":"OPTIONAL"}]}"#;
    let first = build_schema(schema.to_string()).unwrap();
    let second = build_schema(schema.to_string()).unwrap();
    assert_eq!(first, second);
}

#[test]
fn field_order_is_preserved() {
    let schema = r#"{"fields":[{"name":"c","type":"INT32"},{"name":"a","type":"INT64"},{"name":"b","type":"BOOLEAN"}]}"#;
    let text = build_schema(schema.to_string()).unwrap();
    assert_eq!(
        text,
        "message schema {\n  REQUIRED INT32 c;\n  REQUIRED INT64 a;\n  REQUIRED BOOLEAN b;\n}\n"
    );
}

#[test]
fn omitted_repetition_defaults_to_required() {
    let schema = r#"{"fields":[{"name":"x","type":"INT32"},{"name":"y","type":"INT32","repetition_type":"OPTIONAL"},{"name":"z","type":"INT32","repetition_type":null}]}"#;
    let text = build_schema(schema.to_string()).unwrap();
    assert_eq!(
        text,
        "message schema {\n  REQUIRED INT32 x;\n  OPTIONAL INT32 y;\n  REQUIRED INT32 z;\n}\n"
    );
}

#[test]
fn binary_and_byte_array_compile_identically() {
    let with_binary = r#"{"fields":[{"name":"payload","type":"BINARY","logical_type":"UTF8"}]}"#;
    let with_byte_array =
        r#"{"fields":[{"name":"payload","type":"BYTE_ARRAY","logical_type":"UTF8"}]}"#;
    let t1 = build_schema(with_binary.to_string()).unwrap();
    let t2 = build_schema(with_byte_array.to_string()).unwrap();
    assert_eq!(t1, t2);
    assert_eq!(t1, "message schema {\n  REQUIRED BYTE_ARRAY payload (UTF8);\n}\n");
}

#[test]
fn illegal_annotation_degrades_to_none() {
    let schema = r#"{"fields":[{"name":"a","type":"INT32","logical_type":"UTF8"},{"name":"b","type":"INT32","logical_type":"DATE"}]}"#;
    let text = build_schema(schema.to_string()).unwrap();
    assert_eq!(text, "message schema {\n  REQUIRED INT32 a;\n  REQUIRED INT32 b (DATE);\n}\n");
}

#[test]
fn interval_needs_twelve_byte_fixed_length() {
    let schema =
        r#"{"fields":[{"name":"span","type":"FIXED_LEN_BYTE_ARRAY","logical_type":"INTERVAL"}]}"#;
    let degraded = compile_schema(schema).unwrap();
    assert_eq!(
        degraded.canonical,
        "message schema {\n  REQUIRED FIXED_LEN_BYTE_ARRAY span;\n}\n"
    );
    let kept = compile_schema_with(schema, 12).unwrap();
    assert_eq!(
        kept.canonical,
        "message schema {\n  REQUIRED FIXED_LEN_BYTE_ARRAY span (INTERVAL);\n}\n"
    );
}

#[test]
fn int64_annotations_follow_the_catalog() {
    let schema = r#"{"fields":[{"name":"t","type":"INT64","logical_type":"TIMESTAMP_MILLIS"},{"name":"u","type":"INT64","logical_type":"UINT64"},{"name":"bad","type":"INT64","logical_type":"DATE"}]}"#;
    let text = build_schema(schema.to_string()).unwrap();
    assert_eq!(
        text,
        "message schema {\n  REQUIRED INT64 t (TIMESTAMP_MILLIS);\n  REQUIRED INT64 u (UINT_64);\n  REQUIRED INT64 bad;\n}\n"
    );
}

#[test]
fn malformed_schema_json_is_rejected() {
    assert_eq!(
        build_schema("not json at all".to_string()).unwrap_err(),
        GenerateError::MalformedSchemaJson
    );
}

#[test]
fn missing_fields_member_is_rejected() {
    assert_eq!(
        build_schema(r#"{"columns":[]}"#.to_string()).unwrap_err(),
        GenerateError::MalformedSchemaJson
    );
}

#[test]
fn missing_name_is_rejected() {
    assert_eq!(
        build_schema(r#"{"fields":[{"type":"INT32"}]}"#.to_string()).unwrap_err(),
        GenerateError::MalformedSchemaJson
    );
}

#[test]
fn wrong_kind_for_known_key_is_rejected() {
    assert_eq!(
        build_schema(r#"{"fields":[{"name":7,"type":"INT32"}]}"#.to_string()).unwrap_err(),
        GenerateError::MalformedSchemaJson
    );
    assert_eq!(
        build_schema(r#"{"fields":[{"name":"a","type":"INT32","logical_type":7}]}"#.to_string())
            .unwrap_err(),
        GenerateError::MalformedSchemaJson
    );
}

#[test]
fn unknown_enum_spelling_is_rejected() {
    assert_eq!(
        build_schema(r#"{"fields":[{"name":"a","type":"INT33"}]}"#.to_string()).unwrap_err(),
        GenerateError::MalformedSchemaJson
    );
    assert_eq!(
        build_schema(
            r#"{"fields":[{"name":"a","type":"INT32","repetition_type":"SOMETIMES"}]}"#.to_string()
        )
        .unwrap_err(),
        GenerateError::MalformedSchemaJson
    );
    assert_eq!(
        build_schema(
            r#"{"fields":[{"name":"a","type":"INT32","logical_type":"UTF9"}]}"#.to_string()
        )
        .unwrap_err(),
        GenerateError::MalformedSchemaJson
    );
}

#[test]
fn duplicate_field_names_are_rejected() {
    assert_eq!(
        build_schema(
            r#"{"fields":[{"name":"a","type":"INT32"},{"name":"a","type":"INT64"}]}"#.to_string()
        )
        .unwrap_err(),
        GenerateError::SchemaBuildError
    );
}

#[test]
fn empty_field_name_is_rejected() {
    assert_eq!(
        build_schema(r#"{"fields":[{"name":"","type":"INT32"}]}"#.to_string()).unwrap_err(),
        GenerateError::SchemaBuildError
    );
}

#[test]
fn unknown_members_are_ignored() {
    let schema = r#"{"fields":[{"name":"a","type":"INT32","comment":"kept out"}],"extra":true}"#;
    let text = build_schema(schema.to_string()).unwrap();
    assert_eq!(text, "message schema {\n  REQUIRED INT32 a;\n}\n");
}

#[test]
fn null_logical_type_means_no_annotation() {
    let schema = r#"{"fields":[{"name":"a","type":"BYTE_ARRAY","logical_type":null}]}"#;
    let text = build_schema(schema.to_string()).unwrap();
    assert_eq!(text, "message schema {\n  REQUIRED BYTE_ARRAY a;\n}\n");
}

#[test]
fn empty_field_list_compiles_to_empty_schema() {
    let text = build_schema(r#"{"fields":[]}"#.to_string()).unwrap();
    assert_eq!(text, "message schema {\n}\n");
}
