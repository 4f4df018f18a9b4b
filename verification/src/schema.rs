//! Schema compiler: parses the declarative JSON schema document into a typed
//! field list, applies the per-type defaults (default repetition, the fixed
//! byte length of fixed-length fields, the silent degrade of unrepresentable
//! annotations), renders the canonical schema text, and builds the native
//! schema object.

use vstd::prelude::*;

verus! {

use vstd::string::StringExecFns;
use crate::catalog::{
    PrimitiveType, LogicalType, Repetition, NativePhysical, native_physical_of, physical_token,
    repetition_token, annotation_token, resolve_annotation, to_native_physical, pairing_allowed,
    physical_token_str, repetition_token_str, annotation_token_str,
};
use crate::errors::GenerateError;
use crate::json_model::{JsonValue, lookup_member, get_member, json_of};
use crate::native::{message_parse_ok, parse_schema_text};
use crate::text::{str_eq_lit, dec_digits, u32_to_string};

/// The fixed byte length given to fixed-length byte-array fields when the
/// caller does not choose one.
pub const DEFAULT_FIXED_LEN: u32 = 1024;

/// One compiled schema field: an immutable description owned by the compiled
/// schema and read by the record extractor and the writer driver.
pub struct FieldDescriptor {
    /// The field's name, unique within a schema and non-empty.
    pub name: String,
    /// The declared primitive type.
    pub primitive: PrimitiveType,
    /// The annotation the field keeps, after unrepresentable pairings have
    /// degraded to no annotation.
    pub logical: Option<LogicalType>,
    /// The declared repetition, `Required` when the input omitted it.
    pub repetition: Repetition,
}

// ---------------------------------------------------------------------------
// Input vocabulary
// ---------------------------------------------------------------------------

/// The primitive type a schema-vocabulary token denotes, if any.
pub open spec fn primitive_of_token(s: Seq<char>) -> Option<PrimitiveType> {
    if s == "BOOLEAN"@ {
        Some(PrimitiveType::Boolean)
    } else if s == "INT32"@ {
        Some(PrimitiveType::Int32)
    } else if s == "INT64"@ {
        Some(PrimitiveType::Int64)
    } else if s == "INT96"@ {
        Some(PrimitiveType::Int96)
    } else if s == "FLOAT"@ {
        Some(PrimitiveType::Float)
    } else if s == "BINARY"@ {
        Some(PrimitiveType::Binary)
    } else if s == "DOUBLE"@ {
        Some(PrimitiveType::Double)
    } else if s == "BYTE_ARRAY"@ {
        Some(PrimitiveType::ByteArray)
    } else if s == "FIXED_LEN_BYTE_ARRAY"@ {
        Some(PrimitiveType::FixedLenByteArray)
    } else {
        None
    }
}

/// The logical type a schema-vocabulary token denotes, if any.
pub open spec fn logical_of_token(s: Seq<char>) -> Option<LogicalType> {
    if s == "UTF8"@ {
        Some(LogicalType::Utf8)
    } else if s == "MAP"@ {
        Some(LogicalType::MapMarker)
    } else if s == "MAP_KEY_VALUE"@ {
        Some(LogicalType::MapKeyValue)
    } else if s == "LIST"@ {
        Some(LogicalType::ListMarker)
    } else if s == "ENUM"@ {
        Some(LogicalType::Enum)
    } else if s == "DECIMAL"@ {
        Some(LogicalType::Decimal)
    } else if s == "DATE"@ {
        Some(LogicalType::Date)
    } else if s == "TIME_MILLIS"@ {
        Some(LogicalType::TimeMillis)
    } else if s == "TIME_MICROS"@ {
        Some(LogicalType::TimeMicros)
    } else if s == "TIMESTAMP_MILLIS"@ {
        Some(LogicalType::TimestampMillis)
    } else if s == "TIMESTAMP_MICROS"@ {
        Some(LogicalType::TimestampMicros)
    } else if s == "UINT8"@ {
        Some(LogicalType::Uint8)
    } else if s == "UINT16"@ {
        Some(LogicalType::Uint16)
    } else if s == "UINT32"@ {
        Some(LogicalType::Uint32)
    } else if s == "UINT64"@ {
        Some(LogicalType::Uint64)
    } else if s == "INT8"@ {
        Some(LogicalType::Int8)
    } else if s == "INT16"@ {
        Some(LogicalType::Int16)
    } else if s == "INT32"@ {
        Some(LogicalType::Int32)
    } else if s == "INT64"@ {
        Some(LogicalType::Int64)
    } else if s == "JSON"@ {
        Some(LogicalType::Json)
    } else if s == "BSON"@ {
        Some(LogicalType::Bson)
    } else if s == "INTERVAL"@ {
        Some(LogicalType::Interval)
    } else {
        None
    }
}

/// The repetition a schema-vocabulary token denotes, if any.
pub open spec fn repetition_of_token(s: Seq<char>) -> Option<Repetition> {
    if s == "REQUIRED"@ {
        Some(Repetition::Required)
    } else if s == "OPTIONAL"@ {
        Some(Repetition::Optional)
    } else if s == "REPEATED"@ {
        Some(Repetition::Repeated)
    } else {
        None
    }
}

/// Runtime form of `primitive_of_token`.
pub fn parse_primitive_token(s: &String) -> (r: Option<PrimitiveType>)
    ensures
        r == primitive_of_token(s@),
{
    if str_eq_lit(s, "BOOLEAN") {
        Some(PrimitiveType::Boolean)
    } else if str_eq_lit(s, "INT32") {
        Some(PrimitiveType::Int32)
    } else if str_eq_lit(s, "INT64") {
        Some(PrimitiveType::Int64)
    } else if str_eq_lit(s, "INT96") {
        Some(PrimitiveType::Int96)
    } else if str_eq_lit(s, "FLOAT") {
        Some(PrimitiveType::Float)
    } else if str_eq_lit(s, "BINARY") {
        Some(PrimitiveType::Binary)
    } else if str_eq_lit(s, "DOUBLE") {
        Some(PrimitiveType::Double)
    } else if str_eq_lit(s, "BYTE_ARRAY") {
        Some(PrimitiveType::ByteArray)
    } else if str_eq_lit(s, "FIXED_LEN_BYTE_ARRAY") {
        Some(PrimitiveType::FixedLenByteArray)
    } else {
        None
    }
}

/// Runtime form of `logical_of_token`.
pub fn parse_logical_token(s: &String) -> (r: Option<LogicalType>)
    ensures
        r == logical_of_token(s@),
{
    if str_eq_lit(s, "UTF8") {
        Some(LogicalType::Utf8)
    } else if str_eq_lit(s, "MAP") {
        Some(LogicalType::MapMarker)
    } else if str_eq_lit(s, "MAP_KEY_VALUE") {
        Some(LogicalType::MapKeyValue)
    } else if str_eq_lit(s, "LIST") {
        Some(LogicalType::ListMarker)
    } else if str_eq_lit(s, "ENUM") {
        Some(LogicalType::Enum)
    } else if str_eq_lit(s, "DECIMAL") {
        Some(LogicalType::Decimal)
    } else if str_eq_lit(s, "DATE") {
        Some(LogicalType::Date)
    } else if str_eq_lit(s, "TIME_MILLIS") {
        Some(LogicalType::TimeMillis)
    } else if str_eq_lit(s, "TIME_MICROS") {
        Some(LogicalType::TimeMicros)
    } else if str_eq_lit(s, "TIMESTAMP_MILLIS") {
        Some(LogicalType::TimestampMillis)
    } else if str_eq_lit(s, "TIMESTAMP_MICROS") {
        Some(LogicalType::TimestampMicros)
    } else if str_eq_lit(s, "UINT8") {
        Some(LogicalType::Uint8)
    } else if str_eq_lit(s, "UINT16") {
        Some(LogicalType::Uint16)
    } else if str_eq_lit(s, "UINT32") {
        Some(LogicalType::Uint32)
    } else if str_eq_lit(s, "UINT64") {
        Some(LogicalType::Uint64)
    } else if str_eq_lit(s, "INT8") {
        Some(LogicalType::Int8)
    } else if str_eq_lit(s, "INT16") {
        Some(LogicalType::Int16)
    } else if str_eq_lit(s, "INT32") {
        Some(LogicalType::Int32)
    } else if str_eq_lit(s, "INT64") {
        Some(LogicalType::Int64)
    } else if str_eq_lit(s, "JSON") {
        Some(LogicalType::Json)
    } else if str_eq_lit(s, "BSON") {
        Some(LogicalType::Bson)
    } else if str_eq_lit(s, "INTERVAL") {
        Some(LogicalType::Interval)
    } else {
        None
    }
}

/// Runtime form of `repetition_of_token`.
pub fn parse_repetition_token(s: &String) -> (r: Option<Repetition>)
    ensures
        r == repetition_of_token(s@),
{
    if str_eq_lit(s, "REQUIRED") {
        Some(Repetition::Required)
    } else if str_eq_lit(s, "OPTIONAL") {
        Some(Repetition::Optional)
    } else if str_eq_lit(s, "REPEATED") {
        Some(Repetition::Repeated)
    } else {
        None
    }
}

// ---------------------------------------------------------------------------
// Shape of one field object
// ---------------------------------------------------------------------------

/// Whether an optional annotation member is well-shaped: absent, null, or a
/// known annotation token.
pub open spec fn logical_member_ok(m: Option<JsonValue>) -> bool {
    match m {
        None => true,
        Some(JsonValue::Null) => true,
        Some(JsonValue::Text(s)) => logical_of_token(s@) is Some,
        _ => false,
    }
}

/// The annotation a well-shaped annotation member declares.
pub open spec fn logical_member_value(m: Option<JsonValue>) -> Option<LogicalType> {
    match m {
        Some(JsonValue::Text(s)) => logical_of_token(s@),
        _ => None,
    }
}

/// Whether an optional repetition member is well-shaped: absent, null, or a
/// known repetition token.
pub open spec fn repetition_member_ok(m: Option<JsonValue>) -> bool {
    match m {
        None => true,
        Some(JsonValue::Null) => true,
        Some(JsonValue::Text(s)) => repetition_of_token(s@) is Some,
        _ => false,
    }
}

/// The repetition a well-shaped repetition member declares, `Required` when
/// it declares none.
pub open spec fn repetition_member_value(m: Option<JsonValue>) -> Repetition {
    match m {
        Some(JsonValue::Text(s)) => match repetition_of_token(s@) {
            Some(r) => r,
            None => Repetition::Required,
        },
        _ => Repetition::Required,
    }
}

/// The field descriptor one JSON field object compiles to, or nothing when
/// the object is malformed: it must carry a string `name`, a string `type`
/// holding a primitive-type token, and only absent, null or known-token
/// `logical_type` and `repetition_type` members.
pub open spec fn field_of_json(v: JsonValue, flba_len: u32) -> Option<FieldDescriptor> {
    match (lookup_member(v, "name"@), lookup_member(v, "type"@)) {
        (Some(JsonValue::Text(name)), Some(JsonValue::Text(ty))) => match primitive_of_token(
            ty@,
        ) {
            Some(p) => {
                let lm = lookup_member(v, "logical_type"@);
                let rm = lookup_member(v, "repetition_type"@);
                if logical_member_ok(lm) && repetition_member_ok(rm) {
                    Some(
                        FieldDescriptor {
                            name: name,
                            primitive: p,
                            logical: resolve_annotation(
                                logical_member_value(lm),
                                native_physical_of(p),
                                flba_len,
                            ),
                            repetition: repetition_member_value(rm),
                        },
                    )
                } else {
                    None
                }
            },
            None => None,
        },
        _ => None,
    }
}

/// Runtime form of `field_of_json`.
pub fn parse_field(v: &JsonValue, flba_len: u32) -> (r: Option<FieldDescriptor>)
    ensures
        r == field_of_json(*v, flba_len),
{
    let name: String = match get_member(v, "name") {
        Some(m) => match m {
            JsonValue::Text(s) => s.clone(),
            _ => {
                return None;
            },
        },
        None => {
            return None;
        },
    };
    let primitive: PrimitiveType = match get_member(v, "type") {
        Some(m) => match m {
            JsonValue::Text(s) => match parse_primitive_token(s) {
                Some(p) => p,
                None => {
                    return None;
                },
            },
            _ => {
                return None;
            },
        },
        None => {
            return None;
        },
    };
    let declared: Option<LogicalType> = match get_member(v, "logical_type") {
        None => None,
        Some(m) => match m {
            JsonValue::Null => None,
            JsonValue::Text(s) => match parse_logical_token(s) {
                Some(l) => Some(l),
                None => {
                    return None;
                },
            },
            _ => {
                return None;
            },
        },
    };
    let repetition: Repetition = match get_member(v, "repetition_type") {
        None => Repetition::Required,
        Some(m) => match m {
            JsonValue::Null => Repetition::Required,
            JsonValue::Text(s) => match parse_repetition_token(s) {
                Some(r) => r,
                None => {
                    return None;
                },
            },
            _ => {
                return None;
            },
        },
    };
    let native = to_native_physical(primitive);
    let logical: Option<LogicalType> = match declared {
        Some(l) => if pairing_allowed(l, native, flba_len) {
            Some(l)
        } else {
            None
        },
        None => None,
    };
    Some(FieldDescriptor { name, primitive, logical, repetition })
}

// ---------------------------------------------------------------------------
// The field list
// ---------------------------------------------------------------------------

/// The field descriptors a sequence of JSON field objects compiles to, in
/// order; nothing when any of them is malformed.
pub open spec fn fields_of_json(s: Seq<JsonValue>, flba_len: u32) -> Option<Seq<FieldDescriptor>>
    decreases s.len(),
{
    if s.len() == 0 {
        Some(Seq::empty())
    } else {
        match (fields_of_json(s.drop_last(), flba_len), field_of_json(s.last(), flba_len)) {
            (Some(init), Some(f)) => Some(init.push(f)),
            _ => None,
        }
    }
}

/// The field list a whole schema document compiles to: its `fields` member
/// must be an array of well-shaped field objects.
pub open spec fn schema_fields_of_json(doc: JsonValue, flba_len: u32) -> Option<
    Seq<FieldDescriptor>,
> {
    match lookup_member(doc, "fields"@) {
        Some(JsonValue::Arr(a)) => fields_of_json(a@, flba_len),
        _ => None,
    }
}

/// The field list a schema text compiles to: the text must be valid JSON and
/// its document well-shaped.
pub open spec fn compiled_fields_of(s: Seq<char>, flba_len: u32) -> Option<Seq<FieldDescriptor>> {
    match json_of(s) {
        Some(doc) => schema_fields_of_json(doc, flba_len),
        None => None,
    }
}

/// A malformed element anywhere in the array makes the whole list malformed.
proof fn lemma_fields_of_json_fail(s: Seq<JsonValue>, flba_len: u32, i: int)
    requires
        0 <= i < s.len(),
        field_of_json(s[i], flba_len) is None,
    ensures
        fields_of_json(s, flba_len) is None,
    decreases s.len(),
{
    if i == s.len() - 1 {
    } else {
        assert(s.drop_last()[i] == s[i]);
        lemma_fields_of_json_fail(s.drop_last(), flba_len, i);
    }
}

/// Runtime form of `schema_fields_of_json`.
pub fn parse_schema_fields(doc: &JsonValue, flba_len: u32) -> (r: Option<Vec<FieldDescriptor>>)
    ensures
        match r {
            Some(fs) => schema_fields_of_json(*doc, flba_len) == Some(fs@),
            None => schema_fields_of_json(*doc, flba_len) is None,
        },
{
    let arr: &Vec<JsonValue> = match get_member(doc, "fields") {
        Some(m) => match m {
            JsonValue::Arr(a) => a,
            _ => {
                return None;
            },
        },
        None => {
            return None;
        },
    };
    let ghost member = lookup_member(*doc, "fields"@);
    let mut out: Vec<FieldDescriptor> = Vec::new();
    let n = arr.len();
    proof {
        assert(arr@.take(0) =~= Seq::<JsonValue>::empty());
    }
    for i in 0..n
        invariant
            member == lookup_member(*doc, "fields"@),
            member == Some(JsonValue::Arr(*arr)),
            n == arr@.len(),
            fields_of_json(arr@.take(i as int), flba_len) == Some(out@),
    {
        match parse_field(&arr[i], flba_len) {
            Some(f) => {
                out.push(f);
                proof {
                    assert(arr@.take(i as int + 1).drop_last() =~= arr@.take(i as int));
                    assert(arr@.take(i as int + 1).last() == arr@[i as int]);
                }
            },
            None => {
                proof {
                    lemma_fields_of_json_fail(arr@, flba_len, i as int);
                }
                return None;
            },
        }
    }
    proof {
        assert(arr@.take(n as int) =~= arr@);
    }
    Some(out)
}

// ---------------------------------------------------------------------------
// Name validity
// ---------------------------------------------------------------------------

/// No two fields share a name.
pub open spec fn names_unique(fields: Seq<FieldDescriptor>) -> bool {
    forall|a: int, b: int|
        0 <= a < b < fields.len() ==> fields[a].name@ != fields[b].name@
}

/// Every field name is non-empty.
pub open spec fn names_nonempty(fields: Seq<FieldDescriptor>) -> bool {
    forall|a: int| 0 <= a < fields.len() ==> fields[a].name@.len() > 0
}

/// Runtime check that all names are non-empty and pairwise distinct.
pub fn check_names(fields: &Vec<FieldDescriptor>) -> (r: bool)
    ensures
        r == (names_unique(fields@) && names_nonempty(fields@)),
{
    let n = fields.len();
    for i in 0..n
        invariant
            n == fields@.len(),
            forall|a: int| 0 <= a < i ==> fields@[a].name@.len() > 0,
            forall|a: int, b: int| 0 <= a < b < i ==> fields@[a].name@ != fields@[b].name@,
    {
        if fields[i].name.as_str().is_empty() {
            return false;
        }
        for j in 0..i
            invariant
                n == fields@.len(),
                i < n,
                forall|a: int| 0 <= a < i ==> fields@[a].name@.len() > 0,
                forall|a: int, b: int| 0 <= a < b < i ==> fields@[a].name@ != fields@[b].name@,
                forall|a: int| 0 <= a < j ==> fields@[a].name@ != fields@[i as int].name@,
        {
            if fields[j].name == fields[i].name {
                return false;
            }
        }
    }
    true
}

// ---------------------------------------------------------------------------
// Canonical text and schema message text
// ---------------------------------------------------------------------------

/// The parenthesized annotation part of a field line, empty when the field
/// keeps no annotation.
pub open spec fn annot_part(l: Option<LogicalType>) -> Seq<char> {
    match l {
        Some(lt) => " ("@ + annotation_token(lt) + ")"@,
        None => Seq::<char>::empty(),
    }
}

/// The parenthesized length part a fixed-length byte-array field carries in
/// the schema message text, empty for every other type.
pub open spec fn flba_part(p: PrimitiveType, flba_len: u32) -> Seq<char> {
    if native_physical_of(p) is FixedLenByteArray {
        " ("@ + dec_digits(flba_len as nat) + ")"@
    } else {
        Seq::<char>::empty()
    }
}

/// One field's line of the canonical schema text.
pub open spec fn canon_line(f: FieldDescriptor) -> Seq<char> {
    "  "@ + repetition_token(f.repetition) + " "@ + physical_token(native_physical_of(f.primitive))
        + " "@ + f.name@ + annot_part(f.logical) + ";\n"@
}

/// One field's line of the schema message text handed to the native parser:
/// the canonical line, with the byte length spliced in after a fixed-length
/// byte-array type.
pub open spec fn message_line(f: FieldDescriptor, flba_len: u32) -> Seq<char> {
    "  "@ + repetition_token(f.repetition) + " "@ + physical_token(native_physical_of(f.primitive))
        + flba_part(f.primitive, flba_len) + " "@ + f.name@ + annot_part(f.logical) + ";\n"@
}

/// The canonical text's body: one line per field, in declared order.
pub open spec fn canon_body(fields: Seq<FieldDescriptor>) -> Seq<char>
    decreases fields.len(),
{
    if fields.len() == 0 {
        Seq::<char>::empty()
    } else {
        canon_body(fields.drop_last()) + canon_line(fields.last())
    }
}

/// The message text's body: one line per field, in declared order.
pub open spec fn message_body(fields: Seq<FieldDescriptor>, flba_len: u32) -> Seq<char>
    decreases fields.len(),
{
    if fields.len() == 0 {
        Seq::<char>::empty()
    } else {
        message_body(fields.drop_last(), flba_len) + message_line(fields.last(), flba_len)
    }
}

/// The canonical textual form of a compiled schema.
pub open spec fn canonical_text(fields: Seq<FieldDescriptor>) -> Seq<char> {
    "message schema {\n"@ + canon_body(fields) + "}\n"@
}

/// The schema message text handed to the native parser.
pub open spec fn message_text(fields: Seq<FieldDescriptor>, flba_len: u32) -> Seq<char> {
    "message schema {\n"@ + message_body(fields, flba_len) + "}\n"@
}

/// Renders one canonical field line.
fn render_canon_line(f: &FieldDescriptor) -> (s: String)
    ensures
        s@ == canon_line(*f),
{
    let mut s: String = "  ".to_owned();
    s.append(repetition_token_str(f.repetition));
    s.append(" ");
    s.append(physical_token_str(to_native_physical(f.primitive)));
    s.append(" ");
    s.append(f.name.as_str());
    match f.logical {
        Some(l) => {
            s.append(" (");
            s.append(annotation_token_str(l));
            s.append(")");
        },
        None => {},
    }
    s.append(";\n");
    proof {
        assert(s@ =~= canon_line(*f));
    }
    s
}

/// Renders one message-text field line.
fn render_message_line(f: &FieldDescriptor, flba_len: u32) -> (s: String)
    ensures
        s@ == message_line(*f, flba_len),
{
    let mut s: String = "  ".to_owned();
    s.append(repetition_token_str(f.repetition));
    s.append(" ");
    let native = to_native_physical(f.primitive);
    s.append(physical_token_str(native));
    match native {
        NativePhysical::FixedLenByteArray => {
            s.append(" (");
            let len_text = u32_to_string(flba_len);
            s.append(len_text.as_str());
            s.append(")");
        },
        _ => {},
    }
    s.append(" ");
    s.append(f.name.as_str());
    match f.logical {
        Some(l) => {
            s.append(" (");
            s.append(annotation_token_str(l));
            s.append(")");
        },
        None => {},
    }
    s.append(";\n");
    proof {
        assert(s@ =~= message_line(*f, flba_len));
    }
    s
}

/// Renders the canonical text of a field list.
pub fn render_canonical_text(fields: &Vec<FieldDescriptor>) -> (s: String)
    ensures
        s@ == canonical_text(fields@),
{
    let mut s: String = "message schema {\n".to_owned();
    let n = fields.len();
    proof {
        assert(fields@.take(0) =~= Seq::<FieldDescriptor>::empty());
    }
    for i in 0..n
        invariant
            n == fields@.len(),
            s@ == "message schema {\n"@ + canon_body(fields@.take(i as int)),
    {
        let line = render_canon_line(&fields[i]);
        s.append(line.as_str());
        proof {
            assert(fields@.take(i as int + 1).drop_last() =~= fields@.take(i as int));
            assert(fields@.take(i as int + 1).last() == fields@[i as int]);
            assert(s@ =~= "message schema {\n"@ + canon_body(fields@.take(i as int + 1)));
        }
    }
    s.append("}\n");
    proof {
        assert(fields@.take(n as int) =~= fields@);
        assert(s@ =~= canonical_text(fields@));
    }
    s
}

/// Renders the schema message text of a field list.
pub fn render_message_text(fields: &Vec<FieldDescriptor>, flba_len: u32) -> (s: String)
    ensures
        s@ == message_text(fields@, flba_len),
{
    let mut s: String = "message schema {\n".to_owned();
    let n = fields.len();
    proof {
        assert(fields@.take(0) =~= Seq::<FieldDescriptor>::empty());
    }
    for i in 0..n
        invariant
            n == fields@.len(),
            s@ == "message schema {\n"@ + message_body(fields@.take(i as int), flba_len),
    {
        let line = render_message_line(&fields[i], flba_len);
        s.append(line.as_str());
        proof {
            assert(fields@.take(i as int + 1).drop_last() =~= fields@.take(i as int));
            assert(fields@.take(i as int + 1).last() == fields@[i as int]);
            assert(s@ =~= "message schema {\n"@ + message_body(
                fields@.take(i as int + 1),
                flba_len,
            ));
        }
    }
    s.append("}\n");
    proof {
        assert(fields@.take(n as int) =~= fields@);
        assert(s@ =~= message_text(fields@, flba_len));
    }
    s
}

// ---------------------------------------------------------------------------
// Compilation
// ---------------------------------------------------------------------------

/// A compiled schema: the typed field list, the canonical text, and the
/// native schema object the writer opens the file over.
pub struct CompiledSchema {
    /// The compiled field descriptors, in declared order.
    pub fields: Vec<FieldDescriptor>,
    /// The canonical textual form.
    pub canonical: String,
    /// The native schema object.
    pub native: parquet::schema::types::Type,
}

/// The canonical text a schema text compiles to, if it compiles.
pub open spec fn canonical_of_input(s: Seq<char>, flba_len: u32) -> Option<Seq<char>> {
    match compiled_fields_of(s, flba_len) {
        Some(fs) => Some(canonical_text(fs)),
        None => None,
    }
}

/// Compiles a JSON schema text, with `flba_len` the byte length given to
/// fixed-length byte-array fields.
///
/// Succeeds exactly when the text is valid JSON of the expected shape, the
/// field names are non-empty and pairwise distinct, and the native grammar
/// accepts the rendered message text.
pub fn compile_schema_with(schema_str: &str, flba_len: u32) -> (r: Result<
    CompiledSchema,
    GenerateError,
>)
    ensures
        ({
            let fo = compiled_fields_of(schema_str@, flba_len);
            match r {
                Ok(c) => {
                    &&& fo == Some(c.fields@)
                    &&& names_unique(c.fields@)
                    &&& names_nonempty(c.fields@)
                    &&& message_parse_ok(message_text(c.fields@, flba_len))
                    &&& c.canonical@ == canonical_text(c.fields@)
                },
                Err(e) => match e {
                    GenerateError::MalformedSchemaJson => fo is None,
                    GenerateError::SchemaBuildError => fo matches Some(fs) && !(names_unique(fs)
                        && names_nonempty(fs) && message_parse_ok(message_text(fs, flba_len))),
                    _ => false,
                },
            }
        }),
{
    let doc = match crate::json_model::parse_json(schema_str) {
        Some(d) => d,
        None => {
            return Err(GenerateError::MalformedSchemaJson);
        },
    };
    let fields = match parse_schema_fields(&doc, flba_len) {
        Some(fs) => fs,
        None => {
            return Err(GenerateError::MalformedSchemaJson);
        },
    };
    if !check_names(&fields) {
        return Err(GenerateError::SchemaBuildError);
    }
    let message = render_message_text(&fields, flba_len);
    let native = match parse_schema_text(message.as_str()) {
        Ok(t) => t,
        Err(_) => {
            return Err(GenerateError::SchemaBuildError);
        },
    };
    let canonical = render_canonical_text(&fields);
    Ok(CompiledSchema { fields, canonical, native })
}

/// Compiles a JSON schema text with the default fixed length.
pub fn compile_schema(schema_str: &str) -> (r: Result<CompiledSchema, GenerateError>)
    ensures
        ({
            let fo = compiled_fields_of(schema_str@, DEFAULT_FIXED_LEN);
            match r {
                Ok(c) => {
                    &&& fo == Some(c.fields@)
                    &&& names_unique(c.fields@)
                    &&& names_nonempty(c.fields@)
                    &&& message_parse_ok(message_text(c.fields@, DEFAULT_FIXED_LEN))
                    &&& c.canonical@ == canonical_text(c.fields@)
                },
                Err(e) => match e {
                    GenerateError::MalformedSchemaJson => fo is None,
                    GenerateError::SchemaBuildError => fo matches Some(fs) && !(names_unique(fs)
                        && names_nonempty(fs) && message_parse_ok(
                        message_text(fs, DEFAULT_FIXED_LEN),
                    )),
                    _ => false,
                },
            }
        }),
{
    compile_schema_with(schema_str, DEFAULT_FIXED_LEN)
}

/// Compiles a JSON schema text and returns its canonical textual form.
pub fn build_schema(schema: String) -> (r: Result<String, GenerateError>)
    ensures
        ({
            let fo = compiled_fields_of(schema@, DEFAULT_FIXED_LEN);
            match r {
                Ok(t) => {
                    &&& canonical_of_input(schema@, DEFAULT_FIXED_LEN) == Some(t@)
                    &&& fo matches Some(fs) && names_unique(fs) && names_nonempty(fs)
                        && message_parse_ok(message_text(fs, DEFAULT_FIXED_LEN))
                },
                Err(e) => match e {
                    GenerateError::MalformedSchemaJson => fo is None,
                    GenerateError::SchemaBuildError => fo matches Some(fs) && !(names_unique(fs)
                        && names_nonempty(fs) && message_parse_ok(
                        message_text(fs, DEFAULT_FIXED_LEN),
                    )),
                    _ => false,
                },
            }
        }),
{
    match compile_schema(schema.as_str()) {
        Ok(c) => Ok(c.canonical),
        Err(e) => Err(e),
    }
}

/// Whether a schema text compiles: valid JSON of the expected shape, names
/// non-empty and pairwise distinct, and a message text the native grammar
/// accepts.
pub open spec fn schema_ok(s: Seq<char>, flba_len: u32) -> bool {
    match compiled_fields_of(s, flba_len) {
        Some(fs) => names_unique(fs) && names_nonempty(fs) && message_parse_ok(
            message_text(fs, flba_len),
        ),
        None => false,
    }
}

// ---------------------------------------------------------------------------
// Laws
// ---------------------------------------------------------------------------

/// Determinism: compiling the same schema text (with the same fixed length)
/// twice yields byte-identical canonical text.
pub proof fn lemma_compile_deterministic(s: Seq<char>, flba_len: u32, t1: Seq<char>, t2: Seq<char>)
    requires
        canonical_of_input(s, flba_len) == Some(t1),
        canonical_of_input(s, flba_len) == Some(t2),
    ensures
        t1 == t2,
{
}

/// The canonical body of a concatenation is the concatenation of the bodies.
proof fn lemma_canon_body_concat(a: Seq<FieldDescriptor>, b: Seq<FieldDescriptor>)
    ensures
        canon_body(a + b) == canon_body(a) + canon_body(b),
    decreases b.len(),
{
    if b.len() == 0 {
        assert(a + b =~= a);
        assert(canon_body(a) + canon_body(b) =~= canon_body(a));
    } else {
        lemma_canon_body_concat(a, b.drop_last());
        assert((a + b).drop_last() =~= a + b.drop_last());
        assert((a + b).last() == b.last());
        assert(canon_body(a) + (canon_body(b.drop_last()) + canon_line(b.last())) =~= (canon_body(a)
            + canon_body(b.drop_last())) + canon_line(b.last()));
    }
}

/// Field-order preservation: the i-th declared field contributes the i-th
/// line of the canonical body, placed after exactly the lines of the fields
/// declared before it.
pub proof fn lemma_field_order(fields: Seq<FieldDescriptor>, i: int)
    requires
        0 <= i < fields.len(),
    ensures
        canon_body(fields) == canon_body(fields.take(i)) + canon_line(fields[i]) + canon_body(
            fields.skip(i + 1),
        ),
{
    let middle = seq![fields[i]];
    assert(fields =~= fields.take(i) + middle + fields.skip(i + 1));
    lemma_canon_body_concat(fields.take(i) + middle, fields.skip(i + 1));
    lemma_canon_body_concat(fields.take(i), middle);
    assert(middle.drop_last() =~= Seq::<FieldDescriptor>::empty());
    assert(canon_body(middle) == canon_body(middle.drop_last()) + canon_line(middle.last()));
    assert(canon_body(middle) =~= canon_line(fields[i]));
}

/// Default repetition: a well-shaped field object whose repetition member is
/// absent or null compiles to `REQUIRED`.
pub proof fn lemma_default_repetition(v: JsonValue, flba_len: u32)
    requires
        lookup_member(v, "repetition_type"@) is None || lookup_member(v, "repetition_type"@)
            == Some(JsonValue::Null),
        field_of_json(v, flba_len) is Some,
    ensures
        field_of_json(v, flba_len) matches Some(f) && f.repetition == Repetition::Required,
{
}

/// Type aliasing: two fields that differ only in spelling their type
/// `BINARY` versus `BYTE_ARRAY` render identical canonical lines.
pub proof fn lemma_alias_same_canonical_line(f1: FieldDescriptor, f2: FieldDescriptor)
    requires
        f1.primitive == PrimitiveType::Binary,
        f2.primitive == PrimitiveType::ByteArray,
        f1.name@ == f2.name@,
        f1.logical == f2.logical,
        f1.repetition == f2.repetition,
    ensures
        canon_line(f1) == canon_line(f2),
{
}

} // verus!
