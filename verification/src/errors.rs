//! The error kinds of one generation call. All are terminal for the call:
//! nothing is retried and no partial output is returned.

use vstd::prelude::*;

verus! {

/// The phase of the writer protocol at which a failure surfaced.
#[derive(Clone, Copy, Debug, PartialEq, Eq, Structural)]
pub enum WriterPhase {
    /// Opening the file-level writer over the native schema.
    FileOpen,
    /// Opening the single row group.
    RowGroupOpen,
    /// Acquiring the next column writer.
    ColumnAcquire,
    /// Writing a column's value batch.
    ColumnWrite,
    /// Closing a column writer.
    ColumnClose,
    /// Closing the row group.
    RowGroupClose,
    /// Finalizing the file and recovering the byte buffer.
    Finalize,
}

/// What went wrong in one generation call.
#[derive(Clone, Copy, Debug, PartialEq, Eq, Structural)]
pub enum GenerateError {
    /// The schema text is not valid JSON or does not match the expected
    /// shape (missing `name` or `type`, wrong value kind for a known key,
    /// unrecognized enum spelling).
    MalformedSchemaJson,
    /// The compiled field set is rejected when the native schema is built
    /// (an empty or duplicated field name, or a name the native grammar
    /// cannot carry).
    SchemaBuildError,
    /// A record string is not valid JSON; the whole batch is abandoned.
    MalformedRecordJson,
    /// A failure in the open/acquire/write/close state machine.
    WriterProtocol(WriterPhase),
}

/// The description `message` returns for each error kind.
pub open spec fn message_of(e: GenerateError) -> Seq<char> {
    match e {
        GenerateError::MalformedSchemaJson => "error parsing schema JSON"@,
        GenerateError::SchemaBuildError => "error building schema"@,
        GenerateError::MalformedRecordJson => "error parsing JSON record"@,
        GenerateError::WriterProtocol(p) => match p {
            WriterPhase::FileOpen => "error creating writer"@,
            WriterPhase::RowGroupOpen => "error creating row group writer"@,
            WriterPhase::ColumnAcquire => "error getting column writer"@,
            WriterPhase::ColumnWrite => "error writing column"@,
            WriterPhase::ColumnClose => "error closing column writer"@,
            WriterPhase::RowGroupClose => "error closing row group writer"@,
            WriterPhase::Finalize => "error closing writer"@,
        },
    }
}

impl GenerateError {
    /// A short description of the error, for callers that surface text.
    pub fn message(&self) -> (r: &'static str)
        ensures
            r@ == message_of(*self),
            r@.len() > 0,
    {
        match self {
            GenerateError::MalformedSchemaJson => {
                proof { reveal_strlit("error parsing schema JSON"); }
                "error parsing schema JSON"
            },
            GenerateError::SchemaBuildError => {
                proof { reveal_strlit("error building schema"); }
                "error building schema"
            },
            GenerateError::MalformedRecordJson => {
                proof { reveal_strlit("error parsing JSON record"); }
                "error parsing JSON record"
            },
            GenerateError::WriterProtocol(p) => {
                match p {
                    WriterPhase::FileOpen => {
                        proof { reveal_strlit("error creating writer"); }
                        "error creating writer"
                    },
                    WriterPhase::RowGroupOpen => {
                        proof { reveal_strlit("error creating row group writer"); }
                        "error creating row group writer"
                    },
                    WriterPhase::ColumnAcquire => {
                        proof { reveal_strlit("error getting column writer"); }
                        "error getting column writer"
                    },
                    WriterPhase::ColumnWrite => {
                        proof { reveal_strlit("error writing column"); }
                        "error writing column"
                    },
                    WriterPhase::ColumnClose => {
                        proof { reveal_strlit("error closing column writer"); }
                        "error closing column writer"
                    },
                    WriterPhase::RowGroupClose => {
                        proof { reveal_strlit("error closing row group writer"); }
                        "error closing row group writer"
                    },
                    WriterPhase::Finalize => {
                        proof { reveal_strlit("error closing writer"); }
                        "error closing writer"
                    },
                }
            },
        }
    }
}

} // verus!
