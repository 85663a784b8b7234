//! The error taxonomy of the library.
//!
//! Every operation returns a typed result; nothing is retried internally and
//! no partial commit is ever produced.  Validation errors carry the offending
//! value, engine failures carry the engine's message verbatim together with
//! the operation it came from.

use vstd::prelude::*;

use crate::clauses::ClauseError;
use crate::types::TypeConversionError;

verus! {

/// Which table operation an engine failure came from; callers prefix the
/// engine's message with this context.
#[derive(Clone, Copy, Debug, PartialEq, Eq, Structural)]
pub enum OperationKind {
    Open,
    Load,
    Write,
    Merge,
    Create,
}

/// The name of an operation, for message prefixes.
pub open spec fn operation_text_spec(op: OperationKind) -> Seq<char> {
    match op {
        OperationKind::Open => "open failed: "@,
        OperationKind::Load => "load failed: "@,
        OperationKind::Write => "write failed: "@,
        OperationKind::Merge => "merge failed: "@,
        OperationKind::Create => "create failed: "@,
    }
}

/// Why a table operation failed, before or at the single engine call.
#[derive(Debug)]
pub enum TableError {
    /// A source type has no safe target representation.
    TypeConversion(TypeConversionError),
    /// A malformed or unsupported merge clause.
    Clause(ClauseError),
    /// The batch source failed mid-iteration; the operation aborts without a
    /// commit.
    StreamRead { message: String },
    /// The operation needs an existing, loaded table (or, for a write in
    /// fail-if-present mode, found one it must not touch).
    TableState { message: String },
    /// The engine rejected the operation; its message is kept verbatim.
    Engine { operation: OperationKind, message: String },
    /// The save mode string is not one of append, overwrite, error, ignore.
    InvalidSaveMode { given: String },
    /// The schema evolution mode string is not overwrite or merge.
    InvalidSchemaMode { given: String },
    /// The timestamp string is not a valid RFC 3339 date-and-time.
    InvalidTimestamp { given: String },
    /// The location string is neither a URL nor a usable local path.
    InvalidLocation { given: String },
}

impl TableError {
    /// The context prefix under which an engine failure is reported.
    pub fn operation_prefix(op: OperationKind) -> (r: &'static str)
        ensures
            r@ == operation_text_spec(op),
    {
        match op {
            OperationKind::Open => "open failed: ",
            OperationKind::Load => "load failed: ",
            OperationKind::Write => "write failed: ",
            OperationKind::Merge => "merge failed: ",
            OperationKind::Create => "create failed: ",
        }
    }
}

} // verus!
