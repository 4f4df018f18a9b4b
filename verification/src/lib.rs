//! Columnar file generation from JSON-described schemas and JSON row records.
//!
//! The library compiles a declarative JSON schema into the columnar format's
//! native schema grammar, extracts typed column batches out of heterogeneous
//! JSON records, and drives the file / row-group / column writer protocol to
//! produce the encoded byte buffer in memory.

pub mod catalog;
pub mod errors;
pub mod json_model;
pub mod extract;
pub mod native;
pub mod schema;
pub mod writer;
pub mod text;

use vstd::prelude::*;

verus! {

use crate::errors::GenerateError;
use crate::extract::extract_all;
use crate::json_model::{JsonValue, json_of, parse_json};
use crate::schema::{DEFAULT_FIXED_LEN, compile_schema_with, compiled_fields_of, schema_ok};
use crate::writer::write_columns;

/// The JSON values an ordered collection of record strings parses to, or
/// nothing when any of them is not valid JSON.
pub open spec fn records_of(files: Seq<String>) -> Option<Seq<JsonValue>>
    decreases files.len(),
{
    if files.len() == 0 {
        Some(Seq::empty())
    } else {
        match (records_of(files.drop_last()), json_of(files.last()@)) {
            (Some(rs), Some(v)) => Some(rs.push(v)),
            _ => None,
        }
    }
}

/// An invalid record anywhere in the collection makes the whole batch
/// invalid.
proof fn lemma_records_of_fail(files: Seq<String>, i: int)
    requires
        0 <= i < files.len(),
        json_of(files[i]@) is None,
    ensures
        records_of(files) is None,
    decreases files.len(),
{
    if i == files.len() - 1 {
    } else {
        assert(files.drop_last()[i] == files[i]);
        lemma_records_of_fail(files.drop_last(), i);
    }
}

/// Parses every record string, failing the whole batch on the first record
/// that is not valid JSON.
pub fn parse_records(files: &Vec<String>) -> (r: Option<Vec<JsonValue>>)
    ensures
        match r {
            Some(rs) => records_of(files@) == Some(rs@),
            None => records_of(files@) is None,
        },
{
    let mut out: Vec<JsonValue> = Vec::new();
    let n = files.len();
    proof {
        assert(files@.take(0) =~= Seq::<String>::empty());
    }
    for i in 0..n
        invariant
            n == files@.len(),
            records_of(files@.take(i as int)) == Some(out@),
    {
        match parse_json(files[i].as_str()) {
            Some(v) => {
                out.push(v);
                proof {
                    assert(files@.take(i as int + 1).drop_last() =~= files@.take(i as int));
                    assert(files@.take(i as int + 1).last() == files@[i as int]);
                }
            },
            None => {
                proof {
                    lemma_records_of_fail(files@, i as int);
                }
                return None;
            },
        }
    }
    proof {
        assert(files@.take(n as int) =~= files@);
    }
    Some(out)
}

/// Generates the encoded columnar file for a JSON schema text and a
/// collection of JSON record strings, with `flba_len` the byte length given
/// to fixed-length byte-array fields.
///
/// Succeeds only when the schema compiles and every record is valid JSON;
/// each error kind comes exactly on the inputs it names, and a failure
/// anywhere in the writer protocol yields an error and no byte buffer.
pub fn generate_parquet_with(schema_str: String, files: Vec<String>, flba_len: u32) -> (r: Result<
    Vec<u8>,
    GenerateError,
>)
    ensures
        ({
            let ok_schema = schema_ok(schema_str@, flba_len);
            match r {
                Ok(_) => ok_schema && records_of(files@) is Some,
                Err(e) => match e {
                    GenerateError::MalformedSchemaJson => compiled_fields_of(
                        schema_str@,
                        flba_len,
                    ) is None,
                    GenerateError::SchemaBuildError => compiled_fields_of(
                        schema_str@,
                        flba_len,
                    ) is Some && !ok_schema,
                    GenerateError::MalformedRecordJson => ok_schema && records_of(files@) is None,
                    GenerateError::WriterProtocol(_) => ok_schema && records_of(files@) is Some,
                },
            }
        }),
{
    let compiled = match compile_schema_with(schema_str.as_str(), flba_len) {
        Ok(c) => c,
        Err(e) => {
            return Err(e);
        },
    };
    let records = match parse_records(&files) {
        Some(rs) => rs,
        None => {
            return Err(GenerateError::MalformedRecordJson);
        },
    };
    let batches = extract_all(&compiled.fields, &records);
    write_columns(compiled.native, &compiled.fields, &batches).0
}

/// Generates the encoded columnar file with the default fixed length.
pub fn generate_parquet(schema_str: String, files: Vec<String>) -> (r: Result<
    Vec<u8>,
    GenerateError,
>)
    ensures
        ({
            let ok_schema = schema_ok(schema_str@, DEFAULT_FIXED_LEN);
            match r {
                Ok(_) => ok_schema && records_of(files@) is Some,
                Err(e) => match e {
                    GenerateError::MalformedSchemaJson => compiled_fields_of(
                        schema_str@,
                        DEFAULT_FIXED_LEN,
                    ) is None,
                    GenerateError::SchemaBuildError => compiled_fields_of(
                        schema_str@,
                        DEFAULT_FIXED_LEN,
                    ) is Some && !ok_schema,
                    GenerateError::MalformedRecordJson => ok_schema && records_of(files@) is None,
                    GenerateError::WriterProtocol(_) => ok_schema && records_of(files@) is Some,
                },
            }
        }),
{
    generate_parquet_with(schema_str, files, DEFAULT_FIXED_LEN)
}

} // verus!
