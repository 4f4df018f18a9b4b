use parquet_generator::catalog::{LogicalType, PrimitiveType, Repetition};
use parquet_generator::extract::{extract_column, ColumnBatch};
use parquet_generator::json_model::parse_json;
use parquet_generator::parse_records;
use parquet_generator::schema::FieldDescriptor;

fn field(name: &str, primitive: PrimitiveType) -> FieldDescriptor {
    FieldDescriptor {
        name: name.to_string(),
        primitive,
        logical: None::<LogicalType>,
        repetition: Repetition::Required,
    }
}

fn records(texts: &[&str]) -> Vec<parquet_generator::json_model::JsonValue> {
    let files: Vec<String> = texts.iter().map(|t| t.to_string()).collect();
    parse_records(&files).unwrap()
}

#[test]
fn extraction_keeps_only_matching_members() {
    let recs = records(&[r#"{"a":1}"#, r#"{"a":"x"}"#, r#"{}"#]);
    match extract_column(&field("a", PrimitiveType::Int32), &recs) {
        ColumnBatch::Int32(vs) => assert_eq!(vs, vec![1]),
        _ => panic!("wrong batch variant"),
    }
}

#[test]
fn extraction_narrows_int64_without_range_check() {
    let recs = records(&[r#"{"a":4294967297}"#, r#"{"a":-1}"#]);
    match extract_column(&field("a", PrimitiveType::Int32), &recs) {
        ColumnBatch::Int32(vs) => assert_eq!(vs, vec![1, -1]),
        _ => panic!("wrong batch variant"),
    }
    match extract_column(&field("a", PrimitiveType::Int64), &recs) {
        ColumnBatch::Int64(vs) => assert_eq!(vs, vec![4294967297i64, -1]),
        _ => panic!("wrong batch variant"),
    }
}

#[test]
fn extraction_skips_fractional_numbers_for_integers() {
    let recs = records(&[r#"{"a":1.5}"#, r#"{"a":2}"#]);
    match extract_column(&field("a", PrimitiveType::Int32), &recs) {
        ColumnBatch::Int32(vs) => assert_eq!(vs, vec![2]),
        _ => panic!("wrong batch variant"),
    }
}

#[test]
fn extraction_of_booleans_and_strings() {
    let recs = records(&[
        r#"{"flag":true,"tag":"alpha"}"#,
        r#"{"flag":"true","tag":7}"#,
        r#"{"flag":false,"tag":"beta"}"#,
    ]);
    match extract_column(&field("flag", PrimitiveType::Boolean), &recs) {
        ColumnBatch::Bool(vs) => assert_eq!(vs, vec![true, false]),
        _ => panic!("wrong batch variant"),
    }
    match extract_column(&field("tag", PrimitiveType::ByteArray), &recs) {
        ColumnBatch::Text(vs) => assert_eq!(vs, vec!["alpha".to_string(), "beta".to_string()]),
        _ => panic!("wrong batch variant"),
    }
}

#[test]
fn extraction_carries_double_bit_patterns() {
    let recs = records(&[r#"{"score":2.5}"#, r#"{"score":"high"}"#, r#"{"score":3}"#]);
    match extract_column(&field("score", PrimitiveType::Double), &recs) {
        ColumnBatch::DoubleBits(vs) => {
            assert_eq!(vs, vec![2.5f64.to_bits(), 3.0f64.to_bits()]);
        },
        _ => panic!("wrong batch variant"),
    }
    match extract_column(&field("score", PrimitiveType::Float), &recs) {
        ColumnBatch::FloatBits(vs) => {
            assert_eq!(vs, vec![2.5f64.to_bits(), 3.0f64.to_bits()]);
        },
        _ => panic!("wrong batch variant"),
    }
}

#[test]
fn unsupported_types_give_empty_batches() {
    let recs = records(&[r#"{"a":1}"#]);
    assert!(matches!(
        extract_column(&field("a", PrimitiveType::Int96), &recs),
        ColumnBatch::Unsupported
    ));
    assert!(matches!(
        extract_column(&field("a", PrimitiveType::FixedLenByteArray), &recs),
        ColumnBatch::Unsupported
    ));
}

#[test]
fn non_object_records_contribute_nothing() {
    let recs = records(&[r#"[1,2,3]"#, r#""a""#, r#"{"a":{"a":1}}"#, r#"{"a":5}"#]);
    match extract_column(&field("a", PrimitiveType::Int32), &recs) {
        ColumnBatch::Int32(vs) => assert_eq!(vs, vec![5]),
        _ => panic!("wrong batch variant"),
    }
}

#[test]
fn parse_records_fails_fast_on_bad_json() {
    let files = vec![r#"{"a":1}"#.to_string(), "{".to_string(), r#"{"a":2}"#.to_string()];
    assert!(parse_records(&files).is_none());
}

#[test]
fn parse_json_rejects_invalid_text() {
    assert!(parse_json("{").is_none());
    assert!(parse_json("").is_none());
    assert!(parse_json("null").is_some());
}
