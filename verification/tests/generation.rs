use parquet::file::reader::FileReader;
use parquet::file::serialized_reader::SerializedFileReader;
use parquet::record::RowAccessor;
use parquet_generator::errors::GenerateError;
use parquet_generator::generate_parquet;

fn reader_over(bytes: Vec<u8>) -> SerializedFileReader<bytes::Bytes> {
    SerializedFileReader::new(bytes::Bytes::from(bytes)).unwrap()
}

#[test]
fn generated_file_round_trips_values() {
    let schema = r#"{"fields":[
        {"name":"id","type":"INT32"},
        {"name":"name","type":"BYTE_ARRAY","logical_type":"UTF8"},
        {"name":"score","type":"DOUBLE"},
        {"name":"flag","type":"BOOLEAN"},
        {"name":"big","type":"INT64"}
    ]}"#;
    let files = vec![
        r#"{"id":1,"name":"alice","score":1.5,"flag":true,"big":5000000000}"#.to_string(),
        r#"{"id":2,"name":"bob","score":-0.25,"flag":false,"big":-7}"#.to_string(),
    ];
    let bytes = generate_parquet(schema.to_string(), files).unwrap();
    let reader = reader_over(bytes);
    let meta = reader.metadata();
    assert_eq!(meta.file_metadata().num_rows(), 2);
    assert_eq!(meta.file_metadata().schema_descr().num_columns(), 5);
    let names: Vec<String> = (0..5)
        .map(|i| meta.file_metadata().schema_descr().column(i).name().to_string())
        .collect();
    assert_eq!(names, vec!["id", "name", "score", "flag", "big"]);

    let rows: Vec<_> = reader
        .get_row_iter(None)
        .unwrap()
        .map(|r| r.unwrap())
        .collect();
    assert_eq!(rows.len(), 2);
    assert_eq!(rows[0].get_int(0).unwrap(), 1);
    assert_eq!(rows[0].get_string(1).unwrap(), "alice");
    assert_eq!(rows[0].get_double(2).unwrap(), 1.5);
    assert_eq!(rows[0].get_bool(3).unwrap(), true);
    assert_eq!(rows[0].get_long(4).unwrap(), 5000000000);
    assert_eq!(rows[1].get_int(0).unwrap(), 2);
    assert_eq!(rows[1].get_string(1).unwrap(), "bob");
    assert_eq!(rows[1].get_double(2).unwrap(), -0.25);
    assert_eq!(rows[1].get_bool(3).unwrap(), false);
    assert_eq!(rows[1].get_long(4).unwrap(), -7);
}

#[test]
fn float_columns_narrow_from_double_readings() {
    let schema = r#"{"fields":[{"name":"x","type":"FLOAT"}]}"#;
    let files = vec![r#"{"x":1.5}"#.to_string(), r#"{"x":0.1}"#.to_string()];
    let bytes = generate_parquet(schema.to_string(), files).unwrap();
    let reader = reader_over(bytes);
    let rows: Vec<_> = reader
        .get_row_iter(None)
        .unwrap()
        .map(|r| r.unwrap())
        .collect();
    assert_eq!(rows.len(), 2);
    assert_eq!(rows[0].get_float(0).unwrap(), 1.5f32);
    assert_eq!(rows[1].get_float(0).unwrap(), 0.1f64 as f32);
}

#[test]
fn unsupported_type_still_yields_an_empty_column() {
    let schema = r#"{"fields":[{"name":"odd","type":"INT96"}]}"#;
    let files = vec![r#"{"odd":1}"#.to_string()];
    let bytes = generate_parquet(schema.to_string(), files).unwrap();
    let reader = reader_over(bytes);
    let meta = reader.metadata();
    assert_eq!(meta.file_metadata().schema_descr().num_columns(), 1);
    assert_eq!(meta.file_metadata().num_rows(), 0);
}

#[test]
fn fixed_len_byte_array_column_is_empty_but_present() {
    let schema = r#"{"fields":[{"name":"pad","type":"FIXED_LEN_BYTE_ARRAY"}]}"#;
    let files = vec![r#"{"pad":"abc"}"#.to_string()];
    let bytes = generate_parquet(schema.to_string(), files).unwrap();
    let reader = reader_over(bytes);
    assert_eq!(reader.metadata().file_metadata().schema_descr().num_columns(), 1);
    assert_eq!(reader.metadata().file_metadata().num_rows(), 0);
}

#[test]
fn mismatched_column_lengths_fail_without_output() {
    let schema = r#"{"fields":[{"name":"a","type":"INT32"},{"name":"b","type":"INT32"}]}"#;
    let files = vec![r#"{"a":1}"#.to_string(), r#"{"a":2,"b":3}"#.to_string()];
    let result = generate_parquet(schema.to_string(), files);
    assert!(matches!(result, Err(GenerateError::WriterProtocol(_))));
}

#[test]
fn optional_repetition_without_levels_fails_the_write() {
    let schema =
        r#"{"fields":[{"name":"a","type":"INT32","repetition_type":"OPTIONAL"}]}"#;
    let files = vec![r#"{"a":1}"#.to_string()];
    let result = generate_parquet(schema.to_string(), files);
    assert!(matches!(result, Err(GenerateError::WriterProtocol(_))));
}

#[test]
fn bad_record_aborts_the_whole_batch() {
    let schema = r#"{"fields":[{"name":"a","type":"INT32"}]}"#;
    let files = vec![r#"{"a":1}"#.to_string(), "not json".to_string()];
    assert_eq!(
        generate_parquet(schema.to_string(), files),
        Err(GenerateError::MalformedRecordJson)
    );
}

#[test]
fn schema_errors_surface_before_any_record_work() {
    let files = vec!["also not json".to_string()];
    assert_eq!(
        generate_parquet("broken".to_string(), files),
        Err(GenerateError::MalformedSchemaJson)
    );
}

#[test]
fn empty_record_set_writes_an_empty_file() {
    let schema = r#"{"fields":[{"name":"a","type":"INT32"}]}"#;
    let bytes = generate_parquet(schema.to_string(), Vec::new()).unwrap();
    let reader = reader_over(bytes);
    assert_eq!(reader.metadata().file_metadata().num_rows(), 0);
    assert_eq!(reader.metadata().file_metadata().schema_descr().num_columns(), 1);
}

#[test]
fn configured_fixed_length_flows_through_generation() {
    let schema =
        r#"{"fields":[{"name":"span","type":"FIXED_LEN_BYTE_ARRAY","logical_type":"INTERVAL"}]}"#;
    let bytes = parquet_generator::generate_parquet_with(schema.to_string(), Vec::new(), 12)
        .unwrap();
    let reader = reader_over(bytes);
    let descr = reader.metadata().file_metadata().schema_descr();
    assert_eq!(descr.num_columns(), 1);
    assert_eq!(descr.column(0).type_length(), 12);
}

#[test]
fn records_missing_fields_everywhere_write_empty_columns() {
    let schema = r#"{"fields":[{"name":"a","type":"INT32"},{"name":"b","type":"BOOLEAN"}]}"#;
    let files = vec![r#"{"c":1}"#.to_string(), r#"{}"#.to_string()];
    let bytes = generate_parquet(schema.to_string(), files).unwrap();
    let reader = reader_over(bytes);
    assert_eq!(reader.metadata().file_metadata().num_rows(), 0);
    assert_eq!(reader.metadata().file_metadata().schema_descr().num_columns(), 2);
}
