use parquet_generator::catalog::{
    pairing_allowed, to_native_physical, LogicalType, NativePhysical, PrimitiveType,
};
use parquet_generator::errors::GenerateError;
use parquet_generator::schema::compile_schema_with;

const PRIMITIVES: [PrimitiveType; 9] = [
    PrimitiveType::Boolean,
    PrimitiveType::Int32,
    PrimitiveType::Int64,
    PrimitiveType::Int96,
    PrimitiveType::Float,
    PrimitiveType::Binary,
    PrimitiveType::Double,
    PrimitiveType::ByteArray,
    PrimitiveType::FixedLenByteArray,
];

const BYTE_ARRAY_ONLY: [LogicalType; 4] = [
    LogicalType::Utf8,
    LogicalType::Enum,
    LogicalType::Json,
    LogicalType::Bson,
];

const INT32_ONLY: [LogicalType; 8] = [
    LogicalType::Date,
    LogicalType::TimeMillis,
    LogicalType::Uint8,
    LogicalType::Uint16,
    LogicalType::Uint32,
    LogicalType::Int8,
    LogicalType::Int16,
    LogicalType::Int32,
];

const INT64_ONLY: [LogicalType; 5] = [
    LogicalType::TimeMicros,
    LogicalType::TimestampMillis,
    LogicalType::TimestampMicros,
    LogicalType::Uint64,
    LogicalType::Int64,
];

const NEVER: [LogicalType; 4] = [
    LogicalType::MapMarker,
    LogicalType::MapKeyValue,
    LogicalType::ListMarker,
    LogicalType::Decimal,
];

#[test]
fn every_pairing_has_a_defined_outcome() {
    for &p in PRIMITIVES.iter() {
        let n = to_native_physical(p);
        for &l in BYTE_ARRAY_ONLY.iter() {
            assert_eq!(pairing_allowed(l, n, 1024), matches!(n, NativePhysical::ByteArray));
        }
        for &l in INT32_ONLY.iter() {
            assert_eq!(pairing_allowed(l, n, 1024), matches!(n, NativePhysical::Int32));
        }
        for &l in INT64_ONLY.iter() {
            assert_eq!(pairing_allowed(l, n, 1024), matches!(n, NativePhysical::Int64));
        }
        for &l in NEVER.iter() {
            assert!(!pairing_allowed(l, n, 1024));
        }
        assert_eq!(
            pairing_allowed(LogicalType::Interval, n, 12),
            matches!(n, NativePhysical::FixedLenByteArray)
        );
        assert!(!pairing_allowed(LogicalType::Interval, n, 1024));
    }
}

#[test]
fn binary_aliases_byte_array_in_the_catalog() {
    assert_eq!(
        to_native_physical(PrimitiveType::Binary),
        to_native_physical(PrimitiveType::ByteArray)
    );
    assert_eq!(to_native_physical(PrimitiveType::Binary), NativePhysical::ByteArray);
}

#[test]
fn oversized_fixed_length_is_rejected_by_the_native_grammar() {
    let schema = r#"{"fields":[{"name":"pad","type":"FIXED_LEN_BYTE_ARRAY"}]}"#;
    assert!(matches!(
        compile_schema_with(schema, u32::MAX),
        Err(GenerateError::SchemaBuildError)
    ));
    assert!(compile_schema_with(schema, 16).is_ok());
}
