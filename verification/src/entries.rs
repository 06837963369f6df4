//! One entry point for each cell of the sweep. Each starts its scenario and
//! hands back the runner with the first action; the driver takes it from there.

#![allow(non_snake_case)]

use crate::runner::{start, Action, ActionView, Runner};
use crate::scenario::{Backend, QueryShape, Scenario};
use crate::sweep::{benchmark_complex_query, benchmark_simple_query, sweep_cells};
use vstd::prelude::*;

verus! {

/// The simple query over ten thousand rows, through the object-relational layer.
pub fn bench_simple_query_10_000_rows_diesel(samples: usize) -> (out: (Runner, Action))
    ensures
        out.0@ == start(
            Scenario { shape: QueryShape::Simple, num_rows: 10000, backend: Backend::Orm },
            samples as nat,
        ),
        out.1@ == ActionView::Reset,
        out.0@.scenario == sweep_cells()[5],
{
    benchmark_simple_query(10_000, Backend::Orm, samples)
}

/// The simple query over a thousand rows, through the object-relational layer.
pub fn bench_simple_query__1_000_rows_diesel(samples: usize) -> (out: (Runner, Action))
    ensures
        out.0@ == start(
            Scenario { shape: QueryShape::Simple, num_rows: 1000, backend: Backend::Orm },
            samples as nat,
        ),
        out.1@ == ActionView::Reset,
        out.0@.scenario == sweep_cells()[4],
{
    benchmark_simple_query(1_000, Backend::Orm, samples)
}

/// The simple query over a hundred rows, through the object-relational layer.
pub fn bench_simple_query____100_rows_diesel(samples: usize) -> (out: (Runner, Action))
    ensures
        out.0@ == start(
            Scenario { shape: QueryShape::Simple, num_rows: 100, backend: Backend::Orm },
            samples as nat,
        ),
        out.1@ == ActionView::Reset,
        out.0@.scenario == sweep_cells()[3],
{
    benchmark_simple_query(100, Backend::Orm, samples)
}

/// The simple query over ten rows, through the object-relational layer.
pub fn bench_simple_query_____10_rows_diesel(samples: usize) -> (out: (Runner, Action))
    ensures
        out.0@ == start(
            Scenario { shape: QueryShape::Simple, num_rows: 10, backend: Backend::Orm },
            samples as nat,
        ),
        out.1@ == ActionView::Reset,
        out.0@.scenario == sweep_cells()[2],
{
    benchmark_simple_query(10, Backend::Orm, samples)
}

/// The simple query over one row, through the object-relational layer.
pub fn bench_simple_query______1_rows_diesel(samples: usize) -> (out: (Runner, Action))
    ensures
        out.0@ == start(
            Scenario { shape: QueryShape::Simple, num_rows: 1, backend: Backend::Orm },
            samples as nat,
        ),
        out.1@ == ActionView::Reset,
        out.0@.scenario == sweep_cells()[1],
{
    benchmark_simple_query(1, Backend::Orm, samples)
}

/// The simple query over no rows, through the object-relational layer.
pub fn bench_simple_query______0_rows_diesel(samples: usize) -> (out: (Runner, Action))
    ensures
        out.0@ == start(
            Scenario { shape: QueryShape::Simple, num_rows: 0, backend: Backend::Orm },
            samples as nat,
        ),
        out.1@ == ActionView::Reset,
        out.0@.scenario == sweep_cells()[0],
{
    benchmark_simple_query(0, Backend::Orm, samples)
}

/// The complex query over a thousand rows, through the object-relational layer.
pub fn bench_complex_query__1_000_rows_diesel(samples: usize) -> (out: (Runner, Action))
    ensures
        out.0@ == start(
            Scenario { shape: QueryShape::Complex, num_rows: 1000, backend: Backend::Orm },
            samples as nat,
        ),
        out.1@ == ActionView::Reset,
        out.0@.scenario == sweep_cells()[10],
{
    benchmark_complex_query(1_000, Backend::Orm, samples)
}

/// The complex query over a hundred rows, through the object-relational layer.
pub fn bench_complex_query____100_rows_diesel(samples: usize) -> (out: (Runner, Action))
    ensures
        out.0@ == start(
            Scenario { shape: QueryShape::Complex, num_rows: 100, backend: Backend::Orm },
            samples as nat,
        ),
        out.1@ == ActionView::Reset,
        out.0@.scenario == sweep_cells()[9],
{
    benchmark_complex_query(100, Backend::Orm, samples)
}

/// The complex query over ten rows, through the object-relational layer.
pub fn bench_complex_query_____10_rows_diesel(samples: usize) -> (out: (Runner, Action))
    ensures
        out.0@ == start(
            Scenario { shape: QueryShape::Complex, num_rows: 10, backend: Backend::Orm },
            samples as nat,
        ),
        out.1@ == ActionView::Reset,
        out.0@.scenario == sweep_cells()[8],
{
    benchmark_complex_query(10, Backend::Orm, samples)
}

/// The complex query over one row, through the object-relational layer.
pub fn bench_complex_query______1_rows_diesel(samples: usize) -> (out: (Runner, Action))
    ensures
        out.0@ == start(
            Scenario { shape: QueryShape::Complex, num_rows: 1, backend: Backend::Orm },
            samples as nat,
        ),
        out.1@ == ActionView::Reset,
        out.0@.scenario == sweep_cells()[7],
{
    benchmark_complex_query(1, Backend::Orm, samples)
}

/// The complex query over no rows, through the object-relational layer.
pub fn bench_complex_query______0_rows_diesel(samples: usize) -> (out: (Runner, Action))
    ensures
        out.0@ == start(
            Scenario { shape: QueryShape::Complex, num_rows: 0, backend: Backend::Orm },
            samples as nat,
        ),
        out.1@ == ActionView::Reset,
        out.0@.scenario == sweep_cells()[6],
{
    benchmark_complex_query(0, Backend::Orm, samples)
}

/// The simple query over ten thousand rows, through the plain driver.
pub fn bench_simple_query_10_000_rows_postgres(samples: usize) -> (out: (Runner, Action))
    ensures
        out.0@ == start(
            Scenario { shape: QueryShape::Simple, num_rows: 10000, backend: Backend::RawDriver },
            samples as nat,
        ),
        out.1@ == ActionView::Reset,
        out.0@.scenario == sweep_cells()[16],
{
    benchmark_simple_query(10_000, Backend::RawDriver, samples)
}

/// The simple query over a thousand rows, through the plain driver.
pub fn bench_simple_query__1_000_rows_postgres(samples: usize) -> (out: (Runner, Action))
    ensures
        out.0@ == start(
            Scenario { shape: QueryShape::Simple, num_rows: 1000, backend: Backend::RawDriver },
            samples as nat,
        ),
        out.1@ == ActionView::Reset,
        out.0@.scenario == sweep_cells()[15],
{
    benchmark_simple_query(1_000, Backend::RawDriver, samples)
}

/// The simple query over a hundred rows, through the plain driver.
pub fn bench_simple_query____100_rows_postgres(samples: usize) -> (out: (Runner, Action))
    ensures
        out.0@ == start(
            Scenario { shape: QueryShape::Simple, num_rows: 100, backend: Backend::RawDriver },
            samples as nat,
        ),
        out.1@ == ActionView::Reset,
        out.0@.scenario == sweep_cells()[14],
{
    benchmark_simple_query(100, Backend::RawDriver, samples)
}

/// The simple query over ten rows, through the plain driver.
pub fn bench_simple_query_____10_rows_postgres(samples: usize) -> (out: (Runner, Action))
    ensures
        out.0@ == start(
            Scenario { shape: QueryShape::Simple, num_rows: 10, backend: Backend::RawDriver },
            samples as nat,
        ),
        out.1@ == ActionView::Reset,
        out.0@.scenario == sweep_cells()[13],
{
    benchmark_simple_query(10, Backend::RawDriver, samples)
}

/// The simple query over one row, through the plain driver.
pub fn bench_simple_query______1_rows_postgres(samples: usize) -> (out: (Runner, Action))
    ensures
        out.0@ == start(
            Scenario { shape: QueryShape::Simple, num_rows: 1, backend: Backend::RawDriver },
            samples as nat,
        ),
        out.1@ == ActionView::Reset,
        out.0@.scenario == sweep_cells()[12],
{
    benchmark_simple_query(1, Backend::RawDriver, samples)
}

/// The simple query over no rows, through the plain driver.
pub fn bench_simple_query______0_rows_postgres(samples: usize) -> (out: (Runner, Action))
    ensures
        out.0@ == start(
            Scenario { shape: QueryShape::Simple, num_rows: 0, backend: Backend::RawDriver },
            samples as nat,
        ),
        out.1@ == ActionView::Reset,
        out.0@.scenario == sweep_cells()[11],
{
    benchmark_simple_query(0, Backend::RawDriver, samples)
}

/// The complex query over a thousand rows, through the plain driver.
pub fn bench_complex_query__1_000_rows_postgres(samples: usize) -> (out: (Runner, Action))
    ensures
        out.0@ == start(
            Scenario { shape: QueryShape::Complex, num_rows: 1000, backend: Backend::RawDriver },
            samples as nat,
        ),
        out.1@ == ActionView::Reset,
        out.0@.scenario == sweep_cells()[21],
{
    benchmark_complex_query(1_000, Backend::RawDriver, samples)
}

/// The complex query over a hundred rows, through the plain driver.
pub fn bench_complex_query____100_rows_postgres(samples: usize) -> (out: (Runner, Action))
    ensures
        out.0@ == start(
            Scenario { shape: QueryShape::Complex, num_rows: 100, backend: Backend::RawDriver },
            samples as nat,
        ),
        out.1@ == ActionView::Reset,
        out.0@.scenario == sweep_cells()[20],
{
    benchmark_complex_query(100, Backend::RawDriver, samples)
}

/// The complex query over ten rows, through the plain driver.
pub fn bench_complex_query_____10_rows_postgres(samples: usize) -> (out: (Runner, Action))
    ensures
        out.0@ == start(
            Scenario { shape: QueryShape::Complex, num_rows: 10, backend: Backend::RawDriver },
            samples as nat,
        ),
        out.1@ == ActionView::Reset,
        out.0@.scenario == sweep_cells()[19],
{
    benchmark_complex_query(10, Backend::RawDriver, samples)
}

/// The complex query over one row, through the plain driver.
pub fn bench_complex_query______1_rows_postgres(samples: usize) -> (out: (Runner, Action))
    ensures
        out.0@ == start(
            Scenario { shape: QueryShape::Complex, num_rows: 1, backend: Backend::RawDriver },
            samples as nat,
        ),
        out.1@ == ActionView::Reset,
        out.0@.scenario == sweep_cells()[18],
{
    benchmark_complex_query(1, Backend::RawDriver, samples)
}

/// The complex query over no rows, through the plain driver.
pub fn bench_complex_query______0_rows_postgres(samples: usize) -> (out: (Runner, Action))
    ensures
        out.0@ == start(
            Scenario { shape: QueryShape::Complex, num_rows: 0, backend: Backend::RawDriver },
            samples as nat,
        ),
        out.1@ == ActionView::Reset,
        out.0@.scenario == sweep_cells()[17],
{
    benchmark_complex_query(0, Backend::RawDriver, samples)
}

} // verus!
