//! Record extractor: produces, per field, the ordered sequence of coerced
//! scalar values found in the records, silently skipping records where the
//! field is absent or of an incompatible kind. No placeholder is produced
//! for a skipped record, so per-field value counts may differ.

use vstd::prelude::*;

verus! {

use crate::catalog::PrimitiveType;
use crate::json_model::{JsonValue, lookup_member, get_member};
use crate::schema::FieldDescriptor;

/// One field's column batch: the coerced values the records contribute, in
/// record order. Floating values are carried as the bit patterns of their
/// 64-bit readings; string values as the strings themselves. A primitive
/// type outside the write-dispatch set yields `Unsupported`, which writes an
/// empty column.
pub enum ColumnBatch {
    Bool(Vec<bool>),
    Int32(Vec<i32>),
    Int64(Vec<i64>),
    FloatBits(Vec<u64>),
    DoubleBits(Vec<u64>),
    Text(Vec<String>),
    Unsupported,
}

/// The booleans the records contribute to field `name`: one per record whose
/// member of that name is a boolean.
pub open spec fn extract_bools(name: Seq<char>, recs: Seq<JsonValue>) -> Seq<bool>
    decreases recs.len(),
{
    if recs.len() == 0 {
        Seq::empty()
    } else {
        let rest = extract_bools(name, recs.drop_last());
        match lookup_member(recs.last(), name) {
            Some(JsonValue::Bool(b)) => rest.push(b),
            _ => rest,
        }
    }
}

/// The 64-bit integers the records contribute to field `name`: one per
/// record whose member of that name is a number with an integer reading.
pub open spec fn extract_i64s(name: Seq<char>, recs: Seq<JsonValue>) -> Seq<i64>
    decreases recs.len(),
{
    if recs.len() == 0 {
        Seq::empty()
    } else {
        let rest = extract_i64s(name, recs.drop_last());
        match lookup_member(recs.last(), name) {
            Some(JsonValue::Num(n)) => match n.int_rep {
                Some(x) => rest.push(x),
                None => rest,
            },
            _ => rest,
        }
    }
}

/// The 32-bit integers the records contribute to field `name`: the 64-bit
/// readings, narrowed by truncation without a range check.
pub open spec fn extract_i32s(name: Seq<char>, recs: Seq<JsonValue>) -> Seq<i32>
    decreases recs.len(),
{
    if recs.len() == 0 {
        Seq::empty()
    } else {
        let rest = extract_i32s(name, recs.drop_last());
        match lookup_member(recs.last(), name) {
            Some(JsonValue::Num(n)) => match n.int_rep {
                Some(x) => rest.push(x as i32),
                None => rest,
            },
            _ => rest,
        }
    }
}

/// The floating bit patterns the records contribute to field `name`: one per
/// record whose member of that name is a number with a floating reading.
pub open spec fn extract_f64_bits(name: Seq<char>, recs: Seq<JsonValue>) -> Seq<u64>
    decreases recs.len(),
{
    if recs.len() == 0 {
        Seq::empty()
    } else {
        let rest = extract_f64_bits(name, recs.drop_last());
        match lookup_member(recs.last(), name) {
            Some(JsonValue::Num(n)) => match n.float_bits {
                Some(b) => rest.push(b),
                None => rest,
            },
            _ => rest,
        }
    }
}

/// The strings the records contribute to field `name`: one per record whose
/// member of that name is a string.
pub open spec fn extract_texts(name: Seq<char>, recs: Seq<JsonValue>) -> Seq<String>
    decreases recs.len(),
{
    if recs.len() == 0 {
        Seq::empty()
    } else {
        let rest = extract_texts(name, recs.drop_last());
        match lookup_member(recs.last(), name) {
            Some(JsonValue::Text(s)) => rest.push(s),
            _ => rest,
        }
    }
}

/// Whether `b` is the batch that field `f` extracts from `recs`: the variant
/// matches the field's primitive type and the values are exactly the coerced
/// member values, in record order.
pub open spec fn column_matches(b: ColumnBatch, f: FieldDescriptor, recs: Seq<JsonValue>) -> bool {
    match b {
        ColumnBatch::Bool(vs) => f.primitive is Boolean && vs@ == extract_bools(f.name@, recs),
        ColumnBatch::Int32(vs) => f.primitive is Int32 && vs@ == extract_i32s(f.name@, recs),
        ColumnBatch::Int64(vs) => f.primitive is Int64 && vs@ == extract_i64s(f.name@, recs),
        ColumnBatch::FloatBits(vs) => f.primitive is Float && vs@ == extract_f64_bits(
            f.name@,
            recs,
        ),
        ColumnBatch::DoubleBits(vs) => f.primitive is Double && vs@ == extract_f64_bits(
            f.name@,
            recs,
        ),
        ColumnBatch::Text(vs) => (f.primitive is ByteArray || f.primitive is Binary) && vs@
            == extract_texts(f.name@, recs),
        ColumnBatch::Unsupported => f.primitive is Int96 || f.primitive is FixedLenByteArray,
    }
}

/// A column never holds more values than there are records.
pub proof fn lemma_extract_len_bounded(name: Seq<char>, recs: Seq<JsonValue>)
    ensures
        extract_bools(name, recs).len() <= recs.len(),
        extract_i64s(name, recs).len() <= recs.len(),
        extract_i32s(name, recs).len() <= recs.len(),
        extract_f64_bits(name, recs).len() <= recs.len(),
        extract_texts(name, recs).len() <= recs.len(),
    decreases recs.len(),
{
    if recs.len() > 0 {
        lemma_extract_len_bounded(name, recs.drop_last());
    }
}

fn extract_bool_vec(name: &String, records: &Vec<JsonValue>) -> (r: Vec<bool>)
    ensures
        r@ == extract_bools(name@, records@),
{
    let mut out: Vec<bool> = Vec::new();
    let n = records.len();
    proof {
        assert(records@.take(0) =~= Seq::<JsonValue>::empty());
    }
    for i in 0..n
        invariant
            n == records@.len(),
            out@ == extract_bools(name@, records@.take(i as int)),
    {
        match get_member(&records[i], name.as_str()) {
            Some(m) => match m {
                JsonValue::Bool(b) => out.push(*b),
                _ => {},
            },
            None => {},
        }
        proof {
            assert(records@.take(i as int + 1).drop_last() =~= records@.take(i as int));
            assert(records@.take(i as int + 1).last() == records@[i as int]);
        }
    }
    proof {
        assert(records@.take(n as int) =~= records@);
    }
    out
}

fn extract_i64_vec(name: &String, records: &Vec<JsonValue>) -> (r: Vec<i64>)
    ensures
        r@ == extract_i64s(name@, records@),
{
    let mut out: Vec<i64> = Vec::new();
    let n = records.len();
    proof {
        assert(records@.take(0) =~= Seq::<JsonValue>::empty());
    }
    for i in 0..n
        invariant
            n == records@.len(),
            out@ == extract_i64s(name@, records@.take(i as int)),
    {
        match get_member(&records[i], name.as_str()) {
            Some(m) => match m {
                JsonValue::Num(v) => match v.int_rep {
                    Some(x) => out.push(x),
                    None => {},
                },
                _ => {},
            },
            None => {},
        }
        proof {
            assert(records@.take(i as int + 1).drop_last() =~= records@.take(i as int));
            assert(records@.take(i as int + 1).last() == records@[i as int]);
        }
    }
    proof {
        assert(records@.take(n as int) =~= records@);
    }
    out
}

fn extract_i32_vec(name: &String, records: &Vec<JsonValue>) -> (r: Vec<i32>)
    ensures
        r@ == extract_i32s(name@, records@),
{
    let mut out: Vec<i32> = Vec::new();
    let n = records.len();
    proof {
        assert(records@.take(0) =~= Seq::<JsonValue>::empty());
    }
    for i in 0..n
        invariant
            n == records@.len(),
            out@ == extract_i32s(name@, records@.take(i as int)),
    {
        match get_member(&records[i], name.as_str()) {
            Some(m) => match m {
                JsonValue::Num(v) => match v.int_rep {
                    Some(x) => out.push(#[verifier::truncate] (x as i32)),
                    None => {},
                },
                _ => {},
            },
            None => {},
        }
        proof {
            assert(records@.take(i as int + 1).drop_last() =~= records@.take(i as int));
            assert(records@.take(i as int + 1).last() == records@[i as int]);
        }
    }
    proof {
        assert(records@.take(n as int) =~= records@);
    }
    out
}

fn extract_bits_vec(name: &String, records: &Vec<JsonValue>) -> (r: Vec<u64>)
    ensures
        r@ == extract_f64_bits(name@, records@),
{
    let mut out: Vec<u64> = Vec::new();
    let n = records.len();
    proof {
        assert(records@.take(0) =~= Seq::<JsonValue>::empty());
    }
    for i in 0..n
        invariant
            n == records@.len(),
            out@ == extract_f64_bits(name@, records@.take(i as int)),
    {
        match get_member(&records[i], name.as_str()) {
            Some(m) => match m {
                JsonValue::Num(v) => match v.float_bits {
                    Some(b) => out.push(b),
                    None => {},
                },
                _ => {},
            },
            None => {},
        }
        proof {
            assert(records@.take(i as int + 1).drop_last() =~= records@.take(i as int));
            assert(records@.take(i as int + 1).last() == records@[i as int]);
        }
    }
    proof {
        assert(records@.take(n as int) =~= records@);
    }
    out
}

fn extract_text_vec(name: &String, records: &Vec<JsonValue>) -> (r: Vec<String>)
    ensures
        r@ == extract_texts(name@, records@),
{
    let mut out: Vec<String> = Vec::new();
    let n = records.len();
    proof {
        assert(records@.take(0) =~= Seq::<JsonValue>::empty());
    }
    for i in 0..n
        invariant
            n == records@.len(),
            out@ == extract_texts(name@, records@.take(i as int)),
    {
        match get_member(&records[i], name.as_str()) {
            Some(m) => match m {
                JsonValue::Text(s) => out.push(s.clone()),
                _ => {},
            },
            None => {},
        }
        proof {
            assert(records@.take(i as int + 1).drop_last() =~= records@.take(i as int));
            assert(records@.take(i as int + 1).last() == records@[i as int]);
        }
    }
    proof {
        assert(records@.take(n as int) =~= records@);
    }
    out
}

/// Extracts one field's column batch from the records.
pub fn extract_column(field: &FieldDescriptor, records: &Vec<JsonValue>) -> (r: ColumnBatch)
    ensures
        column_matches(r, *field, records@),
{
    match field.primitive {
        PrimitiveType::Boolean => ColumnBatch::Bool(extract_bool_vec(&field.name, records)),
        PrimitiveType::Int32 => ColumnBatch::Int32(extract_i32_vec(&field.name, records)),
        PrimitiveType::Int64 => ColumnBatch::Int64(extract_i64_vec(&field.name, records)),
        PrimitiveType::Float => ColumnBatch::FloatBits(extract_bits_vec(&field.name, records)),
        PrimitiveType::Double => ColumnBatch::DoubleBits(extract_bits_vec(&field.name, records)),
        PrimitiveType::ByteArray => ColumnBatch::Text(extract_text_vec(&field.name, records)),
        PrimitiveType::Binary => ColumnBatch::Text(extract_text_vec(&field.name, records)),
        PrimitiveType::Int96 => ColumnBatch::Unsupported,
        PrimitiveType::FixedLenByteArray => ColumnBatch::Unsupported,
    }
}

/// Extracts every field's column batch, in schema order.
pub fn extract_all(fields: &Vec<FieldDescriptor>, records: &Vec<JsonValue>) -> (r: Vec<
    ColumnBatch,
>)
    ensures
        r@.len() == fields@.len(),
        forall|i: int|
            0 <= i < fields@.len() ==> column_matches(#[trigger] r@[i], fields@[i], records@),
{
    let mut out: Vec<ColumnBatch> = Vec::new();
    let n = fields.len();
    for i in 0..n
        invariant
            n == fields@.len(),
            out@.len() == i,
            forall|k: int|
                0 <= k < i ==> column_matches(#[trigger] out@[k], fields@[k], records@),
    {
        out.push(extract_column(&fields[i], records));
    }
    out
}

} // verus!
