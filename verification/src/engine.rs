//! The engine's entry points, as values.

use vstd::prelude::*;

verus! {

/// Column type tag: a 64-bit signed integer.
pub const SQLITE_INTEGER: i32 = 1;

/// Column type tag: a blob.
pub const SQLITE_BLOB: i32 = 4;

/// Column type tag: SQL `NULL`.
pub const SQLITE_NULL: i32 = 5;

/// Open flag: the database is opened for reading and writing.
pub const SQLITE_OPEN_READWRITE: i32 = 0x2;

/// Open flag: the database is created if it does not exist.
pub const SQLITE_OPEN_CREATE: i32 = 0x4;

/// Open flag: the connection takes no mutex of its own, so its user keeps it
/// to one thread at a time.
pub const SQLITE_OPEN_NOMUTEX: i32 = 0x8000;

/// The flags every connection is opened with: read and write, create if
/// missing, no mutex.
pub const OPEN_FLAGS: i32 = 0x8006;

/// One call into the engine.
///
/// `db` and `stmt` are the addresses the engine gave out for a database
/// connection and for a prepared statement. A text or a blob is not part of
/// the value: the caller who makes the call holds it, and `nbytes` says how
/// much of it the engine is to read.
#[derive(Debug, Clone, Copy, PartialEq, Eq, Structural)]
pub enum Call {
    /// `sqlite3_open_v2` on the path, with `flags` and the default VFS.
    Open { flags: i32 },
    /// `sqlite3_close`.
    Close { db: usize },
    /// `sqlite3_prepare_v2` on the first `nbytes` bytes of the SQL text.
    Prepare { db: usize, nbytes: i32 },
    /// `sqlite3_finalize`.
    Finalize { stmt: usize },
    /// `sqlite3_step`.
    Step { stmt: usize },
    /// `sqlite3_reset`.
    Reset { stmt: usize },
    /// `sqlite3_clear_bindings`.
    ClearBindings { stmt: usize },
    /// `sqlite3_bind_int64` of `value` to the parameter `index`, counted from 1.
    BindInt64 { stmt: usize, index: i32, value: i64 },
    /// `sqlite3_bind_blob` of the first `nbytes` bytes of the blob to the
    /// parameter `index`, counted from 1, with no destructor: the engine
    /// borrows the bytes.
    BindBlob { stmt: usize, index: i32, nbytes: i32 },
    /// `sqlite3_bind_null` to the parameter `index`, counted from 1.
    BindNull { stmt: usize, index: i32 },
    /// `sqlite3_column_type` of the column `column`, counted from 0.
    ColumnType { stmt: usize, column: i32 },
    /// `sqlite3_column_int64` of the column `column`, counted from 0.
    ColumnInt64 { stmt: usize, column: i32 },
    /// `sqlite3_column_blob` of the column `column`, counted from 0.
    ColumnBlob { stmt: usize, column: i32 },
    /// `sqlite3_column_bytes` of the column `column`, counted from 0.
    ColumnBytes { stmt: usize, column: i32 },
}

/// [`OPEN_FLAGS`] is the three open flags together and nothing else.
pub proof fn lemma_open_flags()
    ensures
        OPEN_FLAGS == SQLITE_OPEN_READWRITE | SQLITE_OPEN_CREATE | SQLITE_OPEN_NOMUTEX,
{
    assert(0x8006i32 == 0x2i32 | 0x4i32 | 0x8000i32) by (bit_vector);
}

} // verus!
