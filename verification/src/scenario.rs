//! What a scenario is: a query shape, a row count and a backend.

use vstd::prelude::*;

verus! {

/// Largest number of users a scenario may seed: identities are 32-bit and start at 1.
pub const MAX_ROWS: usize = 2147483647;

/// The two query shapes under measurement.
#[derive(Clone, Copy, Debug, PartialEq, Eq, Structural)]
pub enum QueryShape {
    /// Unfiltered scan of all users.
    Simple,
    /// Users joined to their posts, filtered to black hair, ordered by name descending.
    Complex,
}

/// The two data-access strategies under comparison.
#[derive(Clone, Copy, Debug, PartialEq, Eq, Structural)]
pub enum Backend {
    /// Queries built and results mapped by the object-relational layer.
    Orm,
    /// Hand-written statements sent through the plain driver.
    RawDriver,
}

/// The statements a scenario sends to storage.
#[derive(Clone, Copy, Debug, PartialEq, Eq, Structural)]
pub enum Statement {
    /// Truncate both tables and restart their identities.
    Reset,
    /// The one bulk insert of the generated users.
    InsertUsers,
    /// The one bulk insert of the generated posts.
    InsertPosts,
    /// The timed query of the given shape.
    Query(QueryShape),
}

/// One cell of the sweep, run end to end on its own.
#[derive(Clone, Copy, Debug, PartialEq, Eq, Structural)]
pub struct Scenario {
    pub shape: QueryShape,
    pub num_rows: usize,
    pub backend: Backend,
}

impl Scenario {
    /// The row count fits the 32-bit identities that storage assigns.
    pub open spec fn wf(&self) -> bool {
        self.num_rows <= MAX_ROWS
    }

    /// Makes a scenario, or nothing where the row count exceeds what identities can number.
    pub fn new(shape: QueryShape, num_rows: usize, backend: Backend) -> (made: Option<Scenario>)
        ensures
            num_rows <= MAX_ROWS ==> made == Some(Scenario { shape, num_rows, backend }),
            num_rows > MAX_ROWS ==> made is None,
    {
        if num_rows <= MAX_ROWS {
            Some(Scenario { shape, num_rows, backend })
        } else {
            None
        }
    }
}

} // verus!
