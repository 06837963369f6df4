//! The correctness gate: every timed sample must return the shape and the
//! number of rows that the seed data predicts.

use crate::dataset::{
    count_black, lemma_black_total, seed_batch, views, Post, PostView, SeedRowView, User, UserView,
};
use crate::error::BenchError;
use crate::scenario::QueryShape;
use vstd::prelude::*;

verus! {

/// The materialised rows of one query execution.
#[derive(Clone, Debug, PartialEq, Eq)]
pub enum QueryResult {
    /// Flat user rows, as the simple query returns them.
    Users(Vec<User>),
    /// Users paired with a post, or with none where no post matches.
    Joined(Vec<(User, Option<Post>)>),
}

/// The view of an optional post.
pub open spec fn post_view(post: Option<Post>) -> Option<PostView> {
    match post {
        Some(p) => Some(p@),
        None => None,
    }
}

/// The views of joined rows, pair by pair.
pub open spec fn joined_views(rows: Seq<(User, Option<Post>)>) -> Seq<(UserView, Option<PostView>)> {
    Seq::new(rows.len(), |i: int| (rows[i].0@, post_view(rows[i].1)))
}

/// What a query result is: flat user rows, or users paired with an optional post.
#[verifier::ext_equal]
pub enum QueryResultView {
    Users(Seq<UserView>),
    Joined(Seq<(UserView, Option<PostView>)>),
}

impl QueryResultView {
    /// The query shape that returns rows of this form.
    pub open spec fn shape(self) -> QueryShape {
        match self {
            QueryResultView::Users(_) => QueryShape::Simple,
            QueryResultView::Joined(_) => QueryShape::Complex,
        }
    }

    /// Number of rows.
    pub open spec fn len(self) -> nat {
        match self {
            QueryResultView::Users(rows) => rows.len(),
            QueryResultView::Joined(rows) => rows.len(),
        }
    }
}

impl View for QueryResult {
    type V = QueryResultView;

    open spec fn view(&self) -> QueryResultView {
        match self {
            QueryResult::Users(rows) => QueryResultView::Users(views(rows@)),
            QueryResult::Joined(rows) => QueryResultView::Joined(joined_views(rows@)),
        }
    }
}

impl QueryResult {
    /// The query shape that returns rows of this form.
    pub fn shape(&self) -> (shape: QueryShape)
        ensures
            shape == self@.shape(),
    {
        match self {
            QueryResult::Users(_) => QueryShape::Simple,
            QueryResult::Joined(_) => QueryShape::Complex,
        }
    }

    /// Number of rows.
    pub fn row_count(&self) -> (count: usize)
        ensures
            count == self@.len(),
    {
        match self {
            QueryResult::Users(rows) => rows.len(),
            QueryResult::Joined(rows) => rows.len(),
        }
    }
}

/// Number of rows the query of the given shape returns once `num_rows` users
/// are seeded: all of them for the simple query, `ceil(num_rows / 2)` for the
/// complex one.
pub open spec fn expected_rows(shape: QueryShape, num_rows: nat) -> nat {
    match shape {
        QueryShape::Simple => num_rows,
        QueryShape::Complex => (num_rows + 1) / 2,
    }
}

/// The verdict on a result of `observed` rows of shape `observed_shape`, for a
/// scenario of `num_rows` users and the given shape: accepted exactly when
/// shape and cardinality are as predicted.
pub open spec fn verdict(
    shape: QueryShape,
    num_rows: usize,
    observed_shape: QueryShape,
    observed: usize,
) -> Result<(), BenchError> {
    if observed_shape == shape && observed == expected_rows(shape, num_rows as nat) {
        Ok(())
    } else {
        Err(
            BenchError::Assertion {
                expected_shape: shape,
                expected: expected_rows(shape, num_rows as nat) as usize,
                observed_shape,
                observed,
            },
        )
    }
}

/// Number of seeded users that the query of the given shape selects: every
/// user for the simple query, those with black hair for the complex one.
pub open spec fn selected_users(shape: QueryShape, rows: Seq<SeedRowView>) -> nat {
    match shape {
        QueryShape::Simple => rows.len(),
        QueryShape::Complex => count_black(rows),
    }
}

/// The prediction is the number of seeded users that the query selects. No
/// user has more than one post, so the join returns one row for each of them.
pub proof fn lemma_prediction_counts_selected_users(shape: QueryShape, num_rows: nat)
    ensures
        expected_rows(shape, num_rows) == selected_users(shape, seed_batch(shape, num_rows)),
{
    lemma_black_total(num_rows);
}

/// The prediction never exceeds the number of seeded users.
pub proof fn lemma_prediction_is_bounded(shape: QueryShape, num_rows: nat)
    ensures
        expected_rows(shape, num_rows) <= num_rows,
{
}

/// Computes the predicted cardinality for one scenario.
pub fn expected_row_count(shape: QueryShape, num_rows: usize) -> (count: usize)
    ensures
        count == expected_rows(shape, num_rows as nat),
{
    match shape {
        QueryShape::Simple => num_rows,
        QueryShape::Complex => num_rows / 2 + num_rows % 2,
    }
}

/// Checks one query result against the prediction for its scenario.
pub fn validate(shape: QueryShape, num_rows: usize, result: &QueryResult) -> (checked: Result<
    (),
    BenchError,
>)
    ensures
        checked == verdict(shape, num_rows, result@.shape(), result@.len() as usize),
{
    let expected: usize = expected_row_count(shape, num_rows);
    let observed_shape = result.shape();
    let observed: usize = result.row_count();
    if observed_shape == shape && observed == expected {
        Ok(())
    } else {
        Err(BenchError::Assertion { expected_shape: shape, expected, observed_shape, observed })
    }
}

} // verus!
