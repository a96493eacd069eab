//! Draughts: a draughts engine core and self-play training lab library.
//!
//! The verified library holds the rules representation, the Zobrist hashing
//! scheme, the persisted encodings, the transposition-table lookup logic, the
//! configuration model and its startup validation, and the commentary layer's
//! decision logic (circuit breaker, canned lines, prompt rendering and output
//! sanitization).

pub mod api;
pub mod config;
pub mod db;
pub mod decimal;
pub mod engine;
pub mod error;
pub mod face;
pub mod lab;
pub mod rules;

use vstd::prelude::*;

verus! {

/// The `format_version` written to every new row.
///
/// Bump this whenever a persisted BLOB encoding changes, including a
/// regenerated Zobrist key table.
pub const CURRENT_FORMAT_VERSION: u32 = 1;

} // verus!
