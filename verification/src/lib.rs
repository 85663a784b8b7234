//! Verified core of a Delta-table writing layer.
//!
//! The library contains the logic that runs before any table commit:
//! mapping the source (Arrow-style) column types onto the table's own
//! (kernel-style) types, compiling ordered merge clause lists into a single
//! upsert plan, validating write requests, and driving the streaming write
//! and merge operations as explicit state machines.  The table engine that
//! owns the transaction log is called from outside this crate; the machines
//! here only decide what is asked of it and in which order.

pub mod clauses;
pub mod errors;
pub mod location;
pub mod mergeop;
pub mod stream;
pub mod table;
pub mod types;
pub mod writeop;

pub use types::TypeConversionError;
