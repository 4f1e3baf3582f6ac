//! Errors of the library.

use vstd::prelude::*;

verus! {

/// The SQLite error type, carried through unchanged.
#[verifier::external_type_specification]
#[verifier::external_body]
pub struct ExSqliteError(rusqlite::Error);

/// Errors raised by the library's own operations.
#[derive(Debug)]
pub enum BridgeError {
    /// An SQLite call failed.
    Sqlite(rusqlite::Error),
    /// A topic could not be mapped with a rule's prefix.
    TopicMapping(String),
    /// The cache is full and its policy refuses new messages.
    CacheFull(String),
}

/// Result of the library's operations.
pub type Result<T> = core::result::Result<T, BridgeError>;

} // verus!
