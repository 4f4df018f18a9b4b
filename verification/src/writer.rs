//! Columnar writer driver: opens a file-level writer over the native schema,
//! opens exactly one row group, writes one column per schema field in
//! declared order from the extracted batches, and closes the column, the row
//! group and the file writer, yielding the encoded byte buffer.
//!
//! Every call into the native writer stands behind a trusted wrapper; the
//! sequencing of the protocol, the dispatch from field to batch, and the
//! classification of every failure by phase are verified.

use vstd::prelude::*;

verus! {

use parquet::data_type::DataType;
use crate::catalog::PrimitiveType;
use crate::errors::{GenerateError, WriterPhase};
use crate::extract::ColumnBatch;
use crate::schema::FieldDescriptor;

/// The open file-level writer over an in-memory buffer. Held opaquely: the
/// native writer type is generic over a writing trait this verifier has no
/// declaration of, so the value lives in a hidden field instead.
#[verifier::external_body]
pub struct FileWriterHandle {
    inner: parquet::file::writer::SerializedFileWriter<Vec<u8>>,
}

/// The open row-group writer, borrowing the file-level writer. Held opaquely
/// for the same reason as `FileWriterHandle`.
#[verifier::external_body]
pub struct RowGroupHandle<'a> {
    inner: parquet::file::writer::SerializedRowGroupWriter<'a, Vec<u8>>,
}

/// Opens the file-level writer over `schema`, writing into a fresh in-memory
/// buffer. Relies on `SerializedFileWriter::new` with the default writer
/// properties.
#[verifier::external_body]
fn open_file_writer(schema: parquet::schema::types::Type) -> (r: Result<
    FileWriterHandle,
    parquet::errors::ParquetError,
>) {
    let w = parquet::file::writer::SerializedFileWriter::new(
        Vec::new(),
        std::sync::Arc::new(schema),
        std::sync::Arc::new(parquet::file::properties::WriterProperties::default()),
    )?;
    Ok(FileWriterHandle { inner: w })
}

/// Opens the single row group. Relies on
/// `SerializedFileWriter::next_row_group`.
#[verifier::external_body]
fn open_row_group<'a>(w: &'a mut FileWriterHandle) -> (r: Result<
    RowGroupHandle<'a>,
    parquet::errors::ParquetError,
>) {
    let rg = w.inner.next_row_group()?;
    Ok(RowGroupHandle { inner: rg })
}

/// Acquires the next column, writes `vals` when it is the boolean column
/// writer (a column of any other type is closed empty), and closes it.
/// Relies on `SerializedRowGroupWriter::next_column`, the column writer's
/// `write_batch` and `SerializedColumnWriter::close`; `false` means the row
/// group had no column left.
#[verifier::external_body]
fn write_bool_column(
    rg: &mut RowGroupHandle<'_>,
    vals: &Vec<bool>,
) -> (r: Result<bool, WriterPhase>)
    ensures
        r matches Err(p) ==> (p is ColumnAcquire || p is ColumnWrite || p is ColumnClose),
{
    match rg.inner.next_column() {
        Err(_) => Err(WriterPhase::ColumnAcquire),
        Ok(None) => Ok(false),
        Ok(Some(mut col)) => {
            if let parquet::column::writer::ColumnWriter::BoolColumnWriter(w) = col.untyped() {
                if w.write_batch(vals.as_slice(), None, None).is_err() { return Err(WriterPhase::ColumnWrite); }
            }
            if col.close().is_err() { return Err(WriterPhase::ColumnClose); }
            Ok(true)
        },
    }
}

/// As `write_bool_column`, for the 32-bit integer column writer.
#[verifier::external_body]
fn write_i32_column(
    rg: &mut RowGroupHandle<'_>,
    vals: &Vec<i32>,
) -> (r: Result<bool, WriterPhase>)
    ensures
        r matches Err(p) ==> (p is ColumnAcquire || p is ColumnWrite || p is ColumnClose),
{
    match rg.inner.next_column() {
        Err(_) => Err(WriterPhase::ColumnAcquire),
        Ok(None) => Ok(false),
        Ok(Some(mut col)) => {
            if let parquet::column::writer::ColumnWriter::Int32ColumnWriter(w) = col.untyped() {
                if w.write_batch(vals.as_slice(), None, None).is_err() { return Err(WriterPhase::ColumnWrite); }
            }
            if col.close().is_err() { return Err(WriterPhase::ColumnClose); }
            Ok(true)
        },
    }
}

/// As `write_bool_column`, for the 64-bit integer column writer.
#[verifier::external_body]
fn write_i64_column(
    rg: &mut RowGroupHandle<'_>,
    vals: &Vec<i64>,
) -> (r: Result<bool, WriterPhase>)
    ensures
        r matches Err(p) ==> (p is ColumnAcquire || p is ColumnWrite || p is ColumnClose),
{
    match rg.inner.next_column() {
        Err(_) => Err(WriterPhase::ColumnAcquire),
        Ok(None) => Ok(false),
        Ok(Some(mut col)) => {
            if let parquet::column::writer::ColumnWriter::Int64ColumnWriter(w) = col.untyped() {
                if w.write_batch(vals.as_slice(), None, None).is_err() { return Err(WriterPhase::ColumnWrite); }
            }
            if col.close().is_err() { return Err(WriterPhase::ColumnClose); }
            Ok(true)
        },
    }
}

/// As `write_bool_column`, for the 32-bit floating column writer. Each value
/// is the bit pattern of a 64-bit floating reading; relies on the standard
/// bit conversion and narrowing cast to rebuild the column's values.
#[verifier::external_body]
fn write_float_column(
    rg: &mut RowGroupHandle<'_>,
    vals: &Vec<u64>,
) -> (r: Result<bool, WriterPhase>)
    ensures
        r matches Err(p) ==> (p is ColumnAcquire || p is ColumnWrite || p is ColumnClose),
{
    match rg.inner.next_column() {
        Err(_) => Err(WriterPhase::ColumnAcquire),
        Ok(None) => Ok(false),
        Ok(Some(mut col)) => {
            if let parquet::column::writer::ColumnWriter::FloatColumnWriter(w) = col.untyped() {
                let xs: Vec<_> = vals.iter().map(|b| <<parquet::data_type::DoubleType as DataType>::T>::from_bits(*b) as <parquet::data_type::FloatType as DataType>::T).collect();
                if w.write_batch(xs.as_slice(), None, None).is_err() { return Err(WriterPhase::ColumnWrite); }
            }
            if col.close().is_err() { return Err(WriterPhase::ColumnClose); }
            Ok(true)
        },
    }
}

/// As `write_bool_column`, for the 64-bit floating column writer. Each value
/// is the bit pattern of the floating value to write; relies on the standard
/// bit conversion to rebuild it.
#[verifier::external_body]
fn write_double_column(
    rg: &mut RowGroupHandle<'_>,
    vals: &Vec<u64>,
) -> (r: Result<bool, WriterPhase>)
    ensures
        r matches Err(p) ==> (p is ColumnAcquire || p is ColumnWrite || p is ColumnClose),
{
    match rg.inner.next_column() {
        Err(_) => Err(WriterPhase::ColumnAcquire),
        Ok(None) => Ok(false),
        Ok(Some(mut col)) => {
            if let parquet::column::writer::ColumnWriter::DoubleColumnWriter(w) = col.untyped() {
                let xs: Vec<_> = vals.iter().map(|b| <<parquet::data_type::DoubleType as DataType>::T>::from_bits(*b)).collect();
                if w.write_batch(xs.as_slice(), None, None).is_err() { return Err(WriterPhase::ColumnWrite); }
            }
            if col.close().is_err() { return Err(WriterPhase::ColumnClose); }
            Ok(true)
        },
    }
}

/// As `write_bool_column`, for the byte-array column writer. Each string's
/// bytes become one byte-array value; relies on `ByteArray::from` over the
/// string's bytes.
#[verifier::external_body]
fn write_byte_array_column(
    rg: &mut RowGroupHandle<'_>,
    vals: &Vec<String>,
) -> (r: Result<bool, WriterPhase>)
    ensures
        r matches Err(p) ==> (p is ColumnAcquire || p is ColumnWrite || p is ColumnClose),
{
    match rg.inner.next_column() {
        Err(_) => Err(WriterPhase::ColumnAcquire),
        Ok(None) => Ok(false),
        Ok(Some(mut col)) => {
            if let parquet::column::writer::ColumnWriter::ByteArrayColumnWriter(w) = col.untyped() {
                let xs: Vec<_> = vals.iter().map(|s| parquet::data_type::ByteArray::from(s.as_bytes())).collect();
                if w.write_batch(xs.as_slice(), None, None).is_err() { return Err(WriterPhase::ColumnWrite); }
            }
            if col.close().is_err() { return Err(WriterPhase::ColumnClose); }
            Ok(true)
        },
    }
}

/// Acquires the next column and closes it with no values written: the
/// column of a field whose primitive type has no write dispatch still exists
/// in the output, empty. Relies on `next_column` and `close`.
#[verifier::external_body]
fn close_empty_column(
    rg: &mut RowGroupHandle<'_>,
) -> (r: Result<bool, WriterPhase>)
    ensures
        r matches Err(p) ==> (p is ColumnAcquire || p is ColumnClose),
{
    match rg.inner.next_column() {
        Err(_) => Err(WriterPhase::ColumnAcquire),
        Ok(None) => Ok(false),
        Ok(Some(col)) => match col.close() {
            Err(_) => Err(WriterPhase::ColumnClose),
            Ok(()) => Ok(true),
        },
    }
}

/// Closes the row group. Relies on `SerializedRowGroupWriter::close`.
#[verifier::external_body]
fn close_row_group(
    rg: RowGroupHandle<'_>,
) -> (r: Result<(), parquet::errors::ParquetError>) {
    rg.inner.close().map(|_| ())
}

/// Finalizes the file and recovers the encoded buffer. Relies on
/// `SerializedFileWriter::into_inner`.
#[verifier::external_body]
fn finish_file_writer(w: FileWriterHandle) -> (r: Result<
    Vec<u8>,
    parquet::errors::ParquetError,
>) {
    w.inner.into_inner()
}

/// The number of values a batch carries.
pub open spec fn batch_len(b: ColumnBatch) -> nat {
    match b {
        ColumnBatch::Bool(vs) => vs@.len(),
        ColumnBatch::Int32(vs) => vs@.len(),
        ColumnBatch::Int64(vs) => vs@.len(),
        ColumnBatch::FloatBits(vs) => vs@.len(),
        ColumnBatch::DoubleBits(vs) => vs@.len(),
        ColumnBatch::Text(vs) => vs@.len(),
        ColumnBatch::Unsupported => 0,
    }
}

/// Ghost record of one completed column: the primitive type of the field it
/// served and the number of values written to it.
pub open spec fn action_of(f: FieldDescriptor, b: ColumnBatch) -> (PrimitiveType, nat) {
    (f.primitive, batch_len(b))
}

/// Writes one column per field, in declared order, from the extracted
/// batches, and returns the encoded byte buffer.
///
/// The ghost trace records the completed columns: its `i`-th entry comes
/// from the `i`-th field and batch, so columns are served in field order; on
/// success there is exactly one per field. Every failure is a
/// writer-protocol error carrying the phase it arose in, and no byte buffer
/// is returned with it.
pub fn write_columns(
    native: parquet::schema::types::Type,
    fields: &Vec<FieldDescriptor>,
    batches: &Vec<ColumnBatch>,
) -> (res: (Result<Vec<u8>, GenerateError>, Ghost<Seq<(PrimitiveType, nat)>>))
    requires
        batches@.len() == fields@.len(),
    ensures
        res.1@.len() <= fields@.len(),
        forall|i: int|
            0 <= i < res.1@.len() ==> res.1@[i] == action_of(fields@[i], batches@[i]),
        res.0 is Ok ==> res.1@.len() == fields@.len(),
        res.0 matches Err(e) ==> e is WriterProtocol,
{
    let ghost mut trace: Seq<(PrimitiveType, nat)> = Seq::empty();
    let mut writer = match open_file_writer(native) {
        Ok(w) => w,
        Err(_) => {
            return (Err(GenerateError::WriterProtocol(WriterPhase::FileOpen)), Ghost(trace));
        },
    };
    let mut rg = match open_row_group(&mut writer) {
        Ok(rg) => rg,
        Err(_) => {
            return (Err(GenerateError::WriterProtocol(WriterPhase::RowGroupOpen)), Ghost(trace));
        },
    };
    let n = fields.len();
    for i in 0..n
        invariant
            n == fields@.len(),
            batches@.len() == fields@.len(),
            trace.len() == i,
            forall|k: int| 0 <= k < i ==> trace[k] == action_of(fields@[k], batches@[k]),
    {
        let outcome = match &batches[i] {
            ColumnBatch::Bool(vs) => write_bool_column(&mut rg, vs),
            ColumnBatch::Int32(vs) => write_i32_column(&mut rg, vs),
            ColumnBatch::Int64(vs) => write_i64_column(&mut rg, vs),
            ColumnBatch::FloatBits(vs) => write_float_column(&mut rg, vs),
            ColumnBatch::DoubleBits(vs) => write_double_column(&mut rg, vs),
            ColumnBatch::Text(vs) => write_byte_array_column(&mut rg, vs),
            ColumnBatch::Unsupported => close_empty_column(&mut rg),
        };
        match outcome {
            Ok(true) => {
                proof {
                    trace = trace.push(action_of(fields@[i as int], batches@[i as int]));
                }
            },
            Ok(false) => {
                // A field remains but the row group has no column left: a
                // protocol violation. Attempt to close the row group before
                // propagating.
                match close_row_group(rg) {
                    _ => {},
                }
                return (
                    Err(GenerateError::WriterProtocol(WriterPhase::ColumnAcquire)),
                    Ghost(trace),
                );
            },
            Err(phase) => {
                match close_row_group(rg) {
                    _ => {},
                }
                return (Err(GenerateError::WriterProtocol(phase)), Ghost(trace));
            },
        }
    }
    if close_row_group(rg).is_err() {
        return (Err(GenerateError::WriterProtocol(WriterPhase::RowGroupClose)), Ghost(trace));
    }
    match finish_file_writer(writer) {
        Ok(bytes) => (Ok(bytes), Ghost(trace)),
        Err(_) => (Err(GenerateError::WriterProtocol(WriterPhase::Finalize)), Ghost(trace)),
    }
}

/// Unsupported-type tolerance: a field whose primitive type is outside the
/// write-dispatch set extracts an empty batch, and the column completed for
/// it records zero values written; the column still exists in the output.
pub proof fn lemma_unsupported_column_empty(
    b: ColumnBatch,
    f: FieldDescriptor,
    recs: Seq<crate::json_model::JsonValue>,
)
    requires
        crate::extract::column_matches(b, f, recs),
        f.primitive is Int96 || f.primitive is FixedLenByteArray,
    ensures
        b is Unsupported,
        action_of(f, b).1 == 0,
{
}

} // verus!
