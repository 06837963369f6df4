//! The fatal conditions of a scenario. None is recoverable: a scenario either
//! completes or stops at the first of these.

use crate::decimal::{decimal, push_decimal};
use crate::scenario::{QueryShape, Statement};
use vstd::prelude::*;
use vstd::string::StringExecFns;

verus! {

/// Why a scenario stopped.
#[derive(Clone, Copy, Debug, PartialEq, Eq, Structural)]
pub enum BenchError {
    /// The connection to storage could not be established or was lost.
    Connection,
    /// Storage rejected the named statement.
    Storage { statement: Statement },
    /// Storage reported another number of inserted rows than the batch holds.
    SeedMismatch { requested: usize, inserted: usize },
    /// A timed query returned another shape or number of rows than predicted.
    Assertion {
        expected_shape: QueryShape,
        expected: usize,
        observed_shape: QueryShape,
        observed: usize,
    },
    /// The driver reported an outcome that does not answer the pending action.
    Protocol,
}

/// The word for a query shape.
pub open spec fn shape_word(shape: QueryShape) -> Seq<char> {
    match shape {
        QueryShape::Simple => "simple"@,
        QueryShape::Complex => "complex"@,
    }
}

/// The words for a statement.
pub open spec fn statement_words(statement: Statement) -> Seq<char> {
    match statement {
        Statement::Reset => "reset"@,
        Statement::InsertUsers => "insert users"@,
        Statement::InsertPosts => "insert posts"@,
        Statement::Query(shape) => shape_word(shape) + " query"@,
    }
}

/// The message that describes an error.
pub open spec fn error_text(error: BenchError) -> Seq<char> {
    match error {
        BenchError::Connection => "connection error: storage cannot be reached"@,
        BenchError::Storage { statement } => "storage error: rejected statement: "@
            + statement_words(statement),
        BenchError::SeedMismatch { requested, inserted } => "seed mismatch: requested "@ + decimal(
            requested as nat,
        ) + " rows, inserted "@ + decimal(inserted as nat),
        BenchError::Assertion { expected_shape, expected, observed_shape, observed } =>
            "assertion failed: expected "@ + decimal(expected as nat) + " rows of the "@
                + shape_word(expected_shape) + " query, observed "@ + decimal(observed as nat)
                + " rows of the "@ + shape_word(observed_shape) + " query"@,
        BenchError::Protocol => "protocol error: outcome does not answer the pending action"@,
    }
}

/// The word for a query shape, as text.
pub fn shape_text(shape: QueryShape) -> (word: &'static str)
    ensures
        word@ == shape_word(shape),
{
    match shape {
        QueryShape::Simple => "simple",
        QueryShape::Complex => "complex",
    }
}

/// Appends the words for a statement to `out`.
fn push_statement_words(out: &mut String, statement: Statement)
    ensures
        final(out)@ == old(out)@ + statement_words(statement),
{
    match statement {
        Statement::Reset => out.append("reset"),
        Statement::InsertUsers => out.append("insert users"),
        Statement::InsertPosts => out.append("insert posts"),
        Statement::Query(shape) => {
            out.append(shape_text(shape));
            out.append(" query");
            assert(out@ =~= old(out)@ + (shape_word(shape) + " query"@));
        },
    }
}

impl BenchError {
    /// Describes the error in one line.
    pub fn message(&self) -> (text: String)
        ensures
            text@ == error_text(*self),
    {
        match *self {
            BenchError::Connection => String::from_str(
                "connection error: storage cannot be reached",
            ),
            BenchError::Storage { statement } => {
                let mut text = String::from_str("storage error: rejected statement: ");
                push_statement_words(&mut text, statement);
                text
            },
            BenchError::SeedMismatch { requested, inserted } => {
                let mut text = String::from_str("seed mismatch: requested ");
                push_decimal(&mut text, requested as u64);
                text.append(" rows, inserted ");
                push_decimal(&mut text, inserted as u64);
                text
            },
            BenchError::Assertion { expected_shape, expected, observed_shape, observed } => {
                let mut text = String::from_str("assertion failed: expected ");
                push_decimal(&mut text, expected as u64);
                text.append(" rows of the ");
                text.append(shape_text(expected_shape));
                text.append(" query, observed ");
                push_decimal(&mut text, observed as u64);
                text.append(" rows of the ");
                text.append(shape_text(observed_shape));
                text.append(" query");
                text
            },
            BenchError::Protocol => String::from_str(
                "protocol error: outcome does not answer the pending action",
            ),
        }
    }
}

} // verus!
