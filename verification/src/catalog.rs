//! Type catalog: the primitive physical types, the logical (semantic)
//! annotations, the repetition kinds, the schema-vocabulary tokens for each,
//! and the legality of logical/physical pairings in the native format.

use vstd::prelude::*;

verus! {

/// A field's primitive type as spelled in the input schema vocabulary.
/// `Binary` and `ByteArray` are two spellings of the same native type.
#[derive(Clone, Copy, Debug, PartialEq, Eq, Structural)]
pub enum PrimitiveType {
    Boolean,
    Int32,
    Int64,
    Int96,
    Float,
    Binary,
    Double,
    ByteArray,
    FixedLenByteArray,
}

/// A semantic annotation layered on a primitive type. Purely descriptive:
/// it never changes the physical encoding width.
#[derive(Clone, Copy, Debug, PartialEq, Eq, Structural)]
pub enum LogicalType {
    Utf8,
    MapMarker,
    MapKeyValue,
    ListMarker,
    Enum,
    Decimal,
    Date,
    TimeMillis,
    TimeMicros,
    TimestampMillis,
    TimestampMicros,
    Uint8,
    Uint16,
    Uint32,
    Uint64,
    Int8,
    Int16,
    Int32,
    Int64,
    Json,
    Bson,
    Interval,
}

/// Per-field cardinality contract.
#[derive(Clone, Copy, Debug, PartialEq, Eq, Structural)]
pub enum Repetition {
    Required,
    Optional,
    Repeated,
}

/// The native format's physical types. The input vocabulary's `Binary` and
/// `ByteArray` both collapse onto `ByteArray` here.
#[derive(Clone, Copy, Debug, PartialEq, Eq, Structural)]
pub enum NativePhysical {
    Boolean,
    Int32,
    Int64,
    Int96,
    Float,
    Double,
    ByteArray,
    FixedLenByteArray,
}

/// The native physical type of each primitive type. Total: every primitive
/// type has exactly one native physical type.
pub open spec fn native_physical_of(p: PrimitiveType) -> NativePhysical {
    match p {
        PrimitiveType::Boolean => NativePhysical::Boolean,
        PrimitiveType::Int32 => NativePhysical::Int32,
        PrimitiveType::Int64 => NativePhysical::Int64,
        PrimitiveType::Int96 => NativePhysical::Int96,
        PrimitiveType::Float => NativePhysical::Float,
        PrimitiveType::Binary => NativePhysical::ByteArray,
        PrimitiveType::Double => NativePhysical::Double,
        PrimitiveType::ByteArray => NativePhysical::ByteArray,
        PrimitiveType::FixedLenByteArray => NativePhysical::FixedLenByteArray,
    }
}

/// The canonical-text token of a native physical type.
pub open spec fn physical_token(n: NativePhysical) -> Seq<char> {
    match n {
        NativePhysical::Boolean => "BOOLEAN"@,
        NativePhysical::Int32 => "INT32"@,
        NativePhysical::Int64 => "INT64"@,
        NativePhysical::Int96 => "INT96"@,
        NativePhysical::Float => "FLOAT"@,
        NativePhysical::Double => "DOUBLE"@,
        NativePhysical::ByteArray => "BYTE_ARRAY"@,
        NativePhysical::FixedLenByteArray => "FIXED_LEN_BYTE_ARRAY"@,
    }
}

/// The canonical-text token of a repetition.
pub open spec fn repetition_token(r: Repetition) -> Seq<char> {
    match r {
        Repetition::Required => "REQUIRED"@,
        Repetition::Optional => "OPTIONAL"@,
        Repetition::Repeated => "REPEATED"@,
    }
}

/// The native annotation token of each logical type, as it appears in the
/// canonical schema text. Total: every logical type has exactly one native
/// annotation.
pub open spec fn annotation_token(l: LogicalType) -> Seq<char> {
    match l {
        LogicalType::Utf8 => "UTF8"@,
        LogicalType::MapMarker => "MAP"@,
        LogicalType::MapKeyValue => "MAP_KEY_VALUE"@,
        LogicalType::ListMarker => "LIST"@,
        LogicalType::Enum => "ENUM"@,
        LogicalType::Decimal => "DECIMAL"@,
        LogicalType::Date => "DATE"@,
        LogicalType::TimeMillis => "TIME_MILLIS"@,
        LogicalType::TimeMicros => "TIME_MICROS"@,
        LogicalType::TimestampMillis => "TIMESTAMP_MILLIS"@,
        LogicalType::TimestampMicros => "TIMESTAMP_MICROS"@,
        LogicalType::Uint8 => "UINT_8"@,
        LogicalType::Uint16 => "UINT_16"@,
        LogicalType::Uint32 => "UINT_32"@,
        LogicalType::Uint64 => "UINT_64"@,
        LogicalType::Int8 => "INT_8"@,
        LogicalType::Int16 => "INT_16"@,
        LogicalType::Int32 => "INT_32"@,
        LogicalType::Int64 => "INT_64"@,
        LogicalType::Json => "JSON"@,
        LogicalType::Bson => "BSON"@,
        LogicalType::Interval => "INTERVAL"@,
    }
}

/// Whether the native format accepts `l` as an annotation of a primitive
/// field whose physical type is `n` (with `flba_len` the byte length used
/// for fixed-length byte-array fields).
///
/// String-like annotations need the byte-array physical type; date, time in
/// milliseconds and the narrow integer widths need a 32-bit integer; the
/// microsecond and timestamp annotations and the 64-bit widths need a 64-bit
/// integer; an interval needs a 12-byte fixed-length field. The group-level
/// markers (map, map-key-value, list) and decimal (whose precision this
/// schema vocabulary cannot carry) are never representable on a flat scalar
/// field.
pub open spec fn pairing_ok(l: LogicalType, n: NativePhysical, flba_len: u32) -> bool {
    match l {
        LogicalType::Utf8 => n is ByteArray,
        LogicalType::Enum => n is ByteArray,
        LogicalType::Json => n is ByteArray,
        LogicalType::Bson => n is ByteArray,
        LogicalType::Date => n is Int32,
        LogicalType::TimeMillis => n is Int32,
        LogicalType::Uint8 => n is Int32,
        LogicalType::Uint16 => n is Int32,
        LogicalType::Uint32 => n is Int32,
        LogicalType::Int8 => n is Int32,
        LogicalType::Int16 => n is Int32,
        LogicalType::Int32 => n is Int32,
        LogicalType::TimeMicros => n is Int64,
        LogicalType::TimestampMillis => n is Int64,
        LogicalType::TimestampMicros => n is Int64,
        LogicalType::Uint64 => n is Int64,
        LogicalType::Int64 => n is Int64,
        LogicalType::Interval => n is FixedLenByteArray && flba_len == 12,
        LogicalType::MapMarker => false,
        LogicalType::MapKeyValue => false,
        LogicalType::ListMarker => false,
        LogicalType::Decimal => false,
    }
}

/// The annotation a compiled field keeps: the declared logical type where the
/// pairing is representable, and no annotation otherwise (the silent-degrade
/// policy for illegal pairings).
pub open spec fn resolve_annotation(
    l: Option<LogicalType>,
    n: NativePhysical,
    flba_len: u32,
) -> Option<LogicalType> {
    match l {
        Some(lt) => if pairing_ok(lt, n, flba_len) {
            Some(lt)
        } else {
            None
        },
        None => None,
    }
}

/// Runtime form of `native_physical_of`.
pub fn to_native_physical(p: PrimitiveType) -> (n: NativePhysical)
    ensures
        n == native_physical_of(p),
{
    match p {
        PrimitiveType::Boolean => NativePhysical::Boolean,
        PrimitiveType::Int32 => NativePhysical::Int32,
        PrimitiveType::Int64 => NativePhysical::Int64,
        PrimitiveType::Int96 => NativePhysical::Int96,
        PrimitiveType::Float => NativePhysical::Float,
        PrimitiveType::Binary => NativePhysical::ByteArray,
        PrimitiveType::Double => NativePhysical::Double,
        PrimitiveType::ByteArray => NativePhysical::ByteArray,
        PrimitiveType::FixedLenByteArray => NativePhysical::FixedLenByteArray,
    }
}

/// Runtime form of `physical_token`.
pub fn physical_token_str(n: NativePhysical) -> (r: &'static str)
    ensures
        r@ == physical_token(n),
{
    match n {
        NativePhysical::Boolean => "BOOLEAN",
        NativePhysical::Int32 => "INT32",
        NativePhysical::Int64 => "INT64",
        NativePhysical::Int96 => "INT96",
        NativePhysical::Float => "FLOAT",
        NativePhysical::Double => "DOUBLE",
        NativePhysical::ByteArray => "BYTE_ARRAY",
        NativePhysical::FixedLenByteArray => "FIXED_LEN_BYTE_ARRAY",
    }
}

/// Runtime form of `repetition_token`.
pub fn repetition_token_str(r: Repetition) -> (t: &'static str)
    ensures
        t@ == repetition_token(r),
{
    match r {
        Repetition::Required => "REQUIRED",
        Repetition::Optional => "OPTIONAL",
        Repetition::Repeated => "REPEATED",
    }
}

/// Runtime form of `annotation_token`.
pub fn annotation_token_str(l: LogicalType) -> (t: &'static str)
    ensures
        t@ == annotation_token(l),
{
    match l {
        LogicalType::Utf8 => "UTF8",
        LogicalType::MapMarker => "MAP",
        LogicalType::MapKeyValue => "MAP_KEY_VALUE",
        LogicalType::ListMarker => "LIST",
        LogicalType::Enum => "ENUM",
        LogicalType::Decimal => "DECIMAL",
        LogicalType::Date => "DATE",
        LogicalType::TimeMillis => "TIME_MILLIS",
        LogicalType::TimeMicros => "TIME_MICROS",
        LogicalType::TimestampMillis => "TIMESTAMP_MILLIS",
        LogicalType::TimestampMicros => "TIMESTAMP_MICROS",
        LogicalType::Uint8 => "UINT_8",
        LogicalType::Uint16 => "UINT_16",
        LogicalType::Uint32 => "UINT_32",
        LogicalType::Uint64 => "UINT_64",
        LogicalType::Int8 => "INT_8",
        LogicalType::Int16 => "INT_16",
        LogicalType::Int32 => "INT_32",
        LogicalType::Int64 => "INT_64",
        LogicalType::Json => "JSON",
        LogicalType::Bson => "BSON",
        LogicalType::Interval => "INTERVAL",
    }
}

/// Runtime form of `pairing_ok`.
pub fn pairing_allowed(l: LogicalType, n: NativePhysical, flba_len: u32) -> (r: bool)
    ensures
        r == pairing_ok(l, n, flba_len),
{
    match l {
        LogicalType::Utf8 => matches!(n, NativePhysical::ByteArray),
        LogicalType::Enum => matches!(n, NativePhysical::ByteArray),
        LogicalType::Json => matches!(n, NativePhysical::ByteArray),
        LogicalType::Bson => matches!(n, NativePhysical::ByteArray),
        LogicalType::Date => matches!(n, NativePhysical::Int32),
        LogicalType::TimeMillis => matches!(n, NativePhysical::Int32),
        LogicalType::Uint8 => matches!(n, NativePhysical::Int32),
        LogicalType::Uint16 => matches!(n, NativePhysical::Int32),
        LogicalType::Uint32 => matches!(n, NativePhysical::Int32),
        LogicalType::Int8 => matches!(n, NativePhysical::Int32),
        LogicalType::Int16 => matches!(n, NativePhysical::Int32),
        LogicalType::Int32 => matches!(n, NativePhysical::Int32),
        LogicalType::TimeMicros => matches!(n, NativePhysical::Int64),
        LogicalType::TimestampMillis => matches!(n, NativePhysical::Int64),
        LogicalType::TimestampMicros => matches!(n, NativePhysical::Int64),
        LogicalType::Uint64 => matches!(n, NativePhysical::Int64),
        LogicalType::Int64 => matches!(n, NativePhysical::Int64),
        LogicalType::Interval => matches!(n, NativePhysical::FixedLenByteArray) && flba_len == 12,
        LogicalType::MapMarker => false,
        LogicalType::MapKeyValue => false,
        LogicalType::ListMarker => false,
        LogicalType::Decimal => false,
    }
}

/// Type aliasing law: the `BINARY` and `BYTE_ARRAY` spellings denote the same
/// native physical type, and render as the same canonical token.
pub proof fn lemma_binary_byte_array_alias()
    ensures
        native_physical_of(PrimitiveType::Binary) == native_physical_of(PrimitiveType::ByteArray),
        physical_token(native_physical_of(PrimitiveType::Binary))
            == physical_token(native_physical_of(PrimitiveType::ByteArray)),
        native_physical_of(PrimitiveType::Binary) == NativePhysical::ByteArray,
{
}

} // verus!
