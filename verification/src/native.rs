//! Declarations of the native schema library's types, and the trusted call
//! that turns a schema message text into the library's schema object.

use vstd::prelude::*;

verus! {

/// Declaration of the native schema node type; the library carries such
/// values through to the writer without looking inside them.
#[verifier::external_type_specification]
#[verifier::external_body]
pub struct ExParquetType(parquet::schema::types::Type);

/// Declaration of the native library's error type; verified code only maps
/// it to the library's own error kinds.
#[verifier::external_type_specification]
#[verifier::external_body]
pub struct ExParquetError(parquet::errors::ParquetError);

/// Whether a schema message text is accepted by the native schema grammar.
/// Never given a body: acceptance is fixed by the native parser, and the
/// library's contracts only rely on it being a function of the text alone.
pub uninterp spec fn message_parse_ok(s: Seq<char>) -> bool;

/// Parses a schema message text into the native schema object.
/// Relies on `parquet::schema::parser::parse_message_type`: whether the text
/// parses, and what it parses to, depend on the text alone.
#[verifier::external_body]
pub fn parse_schema_text(s: &str) -> (r: Result<
    parquet::schema::types::Type,
    parquet::errors::ParquetError,
>)
    ensures
        (r is Ok) == message_parse_ok(s@),
{
    parquet::schema::parser::parse_message_type(s)
}

} // verus!
