//! Persistence model: ids, records and their encodings, the schema's
//! migration list, and the writer's batching rules.

pub mod ids;
pub mod migrations;
pub mod records;
pub mod writer;

use vstd::prelude::*;

pub use records::{
    BatchStatus, EdgeRecord, FaceEventRecord, GameMode, GameRecord, PositionRecord, SampleKind,
};
pub use writer::{Backpressure, SendOutcome, WriteOp, WriterHandle, WriterStats};

verus! {

#[verifier::external_type_specification]
#[verifier::external_body]
pub struct ExSqliteError(rusqlite::Error);

#[derive(Debug)]
pub enum DbError {
    Sqlite(rusqlite::Error),
    Migration { version: u32, source: rusqlite::Error },
    /// A stored row carries a `format_version` this build cannot decode.
    UnsupportedFormatVersion { found: u32 },
    /// The database's schema is newer than any migration this build knows.
    SchemaTooNew { found: u32, known: u32 },
    /// A BLOB whose length or shape does not match its encoding.
    CorruptEncoding(String),
    /// The disk is full or the database is unwritable.
    Degraded(String),
    WriterGone,
}

pub type DbResult<T> = Result<T, DbError>;

} // verus!
