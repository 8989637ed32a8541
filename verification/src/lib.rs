//! The decisions of a thin layer over the SQLite C API, without the calls.
//!
//! The engine is reached through `unsafe` foreign functions on raw handles, so
//! nothing here calls it. Each operation on a [`Connection`] or a [`Stmt`] is
//! cut where the engine is entered: one function says which [`Call`]s are to
//! be made, and one takes what the engine answered and gives the result and
//! the next state. Whoever links the engine makes the calls in between.

pub mod connection;
pub mod engine;
pub mod error;
pub mod stmt;

pub use crate::connection::{Acquire, Connection};
pub use crate::engine::Call;
pub use crate::error::Error;
pub use crate::stmt::{Bind, Stepped, Stmt};
