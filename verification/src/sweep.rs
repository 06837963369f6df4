//! The fixed table of scenarios, their names, and one entry point for each.

use crate::decimal::{decimal, lemma_decimal_injective, push_decimal};
use crate::error::{shape_text, shape_word};
use crate::runner::{start, Action, ActionView, Runner};
use crate::scenario::{Backend, QueryShape, Scenario, MAX_ROWS};
use vstd::prelude::*;
use vstd::string::StringExecFns;

verus! {

/// The row counts at which a query shape is measured. The complex query
/// stops at a thousand rows.
pub open spec fn row_counts_of(shape: QueryShape) -> Seq<usize> {
    match shape {
        QueryShape::Simple => seq![0usize, 1usize, 10usize, 100usize, 1000usize, 10000usize],
        QueryShape::Complex => seq![0usize, 1usize, 10usize, 100usize, 1000usize],
    }
}

/// The scenarios of one shape on one backend, by rising row count.
pub open spec fn cells_of(shape: QueryShape, backend: Backend) -> Seq<Scenario> {
    Seq::new(
        row_counts_of(shape).len(),
        |i: int| Scenario { shape, num_rows: row_counts_of(shape)[i], backend },
    )
}

/// The whole sweep: for each backend, the simple scenarios and then the complex ones.
pub open spec fn sweep_cells() -> Seq<Scenario> {
    cells_of(QueryShape::Simple, Backend::Orm) + cells_of(QueryShape::Complex, Backend::Orm)
        + cells_of(QueryShape::Simple, Backend::RawDriver) + cells_of(
        QueryShape::Complex,
        Backend::RawDriver,
    )
}

/// Whether a scenario is a cell of the sweep: its row count is one of those
/// measured for its shape.
pub open spec fn in_sweep(scenario: Scenario) -> bool {
    row_counts_of(scenario.shape).contains(scenario.num_rows)
}

/// The word for a backend.
pub open spec fn backend_word(backend: Backend) -> Seq<char> {
    match backend {
        Backend::Orm => "orm"@,
        Backend::RawDriver => "raw"@,
    }
}

/// The name of a scenario: shape, row count and backend, joined by underscores.
pub open spec fn cell_name(scenario: Scenario) -> Seq<char> {
    shape_word(scenario.shape) + "_"@ + decimal(scenario.num_rows as nat) + "_"@ + backend_word(
        scenario.backend,
    )
}

/// The row counts at which a query shape is measured.
pub fn row_counts(shape: QueryShape) -> (counts: Vec<usize>)
    ensures
        counts@ == row_counts_of(shape),
{
    let mut counts: Vec<usize> = Vec::new();
    counts.push(0);
    counts.push(1);
    counts.push(10);
    counts.push(100);
    counts.push(1000);
    match shape {
        QueryShape::Simple => {
            counts.push(10000);
        },
        QueryShape::Complex => {},
    }
    assert(counts@ =~= row_counts_of(shape));
    counts
}

/// Appends the scenarios of one shape on one backend.
fn push_cells(cells: &mut Vec<Scenario>, shape: QueryShape, backend: Backend)
    ensures
        final(cells)@ == old(cells)@ + cells_of(shape, backend),
{
    let counts = row_counts(shape);
    let mut i: usize = 0;
    while i < counts.len()
        invariant
            i <= counts@.len(),
            counts@ == row_counts_of(shape),
            cells@ == old(cells)@ + cells_of(shape, backend).take(i as int),
        decreases counts@.len() - i,
    {
        cells.push(Scenario { shape, num_rows: counts[i], backend });
        i = i + 1;
        assert(cells@ =~= old(cells)@ + cells_of(shape, backend).take(i as int));
    }
    assert(cells_of(shape, backend).take(i as int) =~= cells_of(shape, backend));
}

/// The whole sweep, in its fixed order.
pub fn sweep() -> (cells: Vec<Scenario>)
    ensures
        cells@ == sweep_cells(),
{
    let mut cells: Vec<Scenario> = Vec::new();
    push_cells(&mut cells, QueryShape::Simple, Backend::Orm);
    push_cells(&mut cells, QueryShape::Complex, Backend::Orm);
    push_cells(&mut cells, QueryShape::Simple, Backend::RawDriver);
    push_cells(&mut cells, QueryShape::Complex, Backend::RawDriver);
    assert(cells@ =~= sweep_cells());
    cells
}

/// The sweep has twenty-two cells: six simple and five complex scenarios for
/// each of the two backends.
pub proof fn lemma_sweep_len()
    ensures
        sweep_cells().len() == 22,
{
}

/// The sweep is the full cross product: a scenario is one of its cells exactly
/// when its row count is one of those measured for its shape.
pub proof fn lemma_sweep_is_cross_product(scenario: Scenario)
    ensures
        sweep_cells().contains(scenario) <==> in_sweep(scenario),
{
    let cells = sweep_cells();
    let counts = row_counts_of(scenario.shape);
    if in_sweep(scenario) {
        let i = choose|i: int| 0 <= i < counts.len() && counts[i] == scenario.num_rows;
        let offset: int = match (scenario.backend, scenario.shape) {
            (Backend::Orm, QueryShape::Simple) => 0,
            (Backend::Orm, QueryShape::Complex) => 6,
            (Backend::RawDriver, QueryShape::Simple) => 11,
            (Backend::RawDriver, QueryShape::Complex) => 17,
        };
        assert(cells[offset + i] == scenario);
    }
    if cells.contains(scenario) {
        let k = choose|k: int| 0 <= k < cells.len() && cells[k] == scenario;
        let i: int = if k < 6 {
            k
        } else if k < 11 {
            k - 6
        } else if k < 17 {
            k - 11
        } else {
            k - 17
        };
        assert(counts[i] == scenario.num_rows);
    }
}

/// No cell occurs twice in the sweep.
pub proof fn lemma_sweep_has_no_duplicates()
    ensures
        sweep_cells().no_duplicates(),
{
    let cells = sweep_cells();
    assert forall|i: int, j: int| 0 <= i < cells.len() && 0 <= j < cells.len() && i != j implies cells[i]
        != cells[j] by {
        lemma_cell_at(i);
        lemma_cell_at(j);
    }
}

/// Where the block of a position's backend and shape begins in the sweep.
pub open spec fn block_start(k: int) -> int {
    if k < 6 {
        0
    } else if k < 11 {
        6
    } else if k < 17 {
        11
    } else {
        17
    }
}

/// The cell at each position of the sweep.
proof fn lemma_cell_at(k: int)
    requires
        0 <= k < 22,
    ensures
        k < 11 ==> sweep_cells()[k].backend == Backend::Orm,
        k >= 11 ==> sweep_cells()[k].backend == Backend::RawDriver,
        block_start(k) == 0 || block_start(k) == 11 ==> sweep_cells()[k].shape
            == QueryShape::Simple,
        block_start(k) == 6 || block_start(k) == 17 ==> sweep_cells()[k].shape
            == QueryShape::Complex,
        sweep_cells()[k].num_rows == row_counts_of(sweep_cells()[k].shape)[k - block_start(k)],
{
}

/// Every cell of the sweep is a scenario that can be run.
pub proof fn lemma_sweep_cells_wf(k: int)
    requires
        0 <= k < sweep_cells().len(),
    ensures
        sweep_cells()[k].wf(),
        in_sweep(sweep_cells()[k]),
{
    lemma_cell_at(k);
    lemma_sweep_is_cross_product(sweep_cells()[k]);
}

/// The word for a backend, as text.
pub fn backend_text(backend: Backend) -> (word: &'static str)
    ensures
        word@ == backend_word(backend),
{
    match backend {
        Backend::Orm => "orm",
        Backend::RawDriver => "raw",
    }
}

impl Scenario {
    /// The name of the scenario's entry point, such as `simple_10000_orm`.
    pub fn name(&self) -> (name: String)
        ensures
            name@ == cell_name(*self),
    {
        let mut name = String::from_str(shape_text(self.shape));
        name.append("_");
        push_decimal(&mut name, self.num_rows as u64);
        name.append("_");
        name.append(backend_text(self.backend));
        name
    }
}

/// Different scenarios have different names.
pub proof fn lemma_cell_names_distinct(a: Scenario, b: Scenario)
    requires
        cell_name(a) == cell_name(b),
    ensures
        a == b,
{
    reveal_strlit("simple");
    reveal_strlit("complex");
    reveal_strlit("orm");
    reveal_strlit("raw");
    reveal_strlit("_");
    let name = cell_name(a);
    let head_a = shape_word(a.shape) + "_"@;
    let head_b = shape_word(b.shape) + "_"@;
    let tail_a = "_"@ + backend_word(a.backend);
    let tail_b = "_"@ + backend_word(b.backend);
    assert(name =~= head_a + decimal(a.num_rows as nat) + tail_a);
    assert(name =~= head_b + decimal(b.num_rows as nat) + tail_b);
    assert(name[0] == shape_word(a.shape)[0]);
    assert(name[0] == shape_word(b.shape)[0]);
    assert(a.shape == b.shape);
    assert(name.last() == backend_word(a.backend).last());
    assert(name.last() == backend_word(b.backend).last());
    assert(a.backend == b.backend);
    let from = head_a.len() as int;
    let to = name.len() - tail_a.len();
    assert(name.subrange(from, to) =~= decimal(a.num_rows as nat));
    assert(name.subrange(from, to) =~= decimal(b.num_rows as nat));
    lemma_decimal_injective(a.num_rows as nat, b.num_rows as nat);
}

/// Starts the simple-query scenario with `num_rows` users on `backend`.
pub fn benchmark_simple_query(num_rows: usize, backend: Backend, samples: usize) -> (out: (
    Runner,
    Action,
))
    requires
        num_rows <= MAX_ROWS,
    ensures
        out.0@ == start(
            Scenario { shape: QueryShape::Simple, num_rows, backend },
            samples as nat,
        ),
        out.1@ == ActionView::Reset,
{
    Runner::begin(Scenario { shape: QueryShape::Simple, num_rows, backend }, samples)
}

/// Starts the complex-query scenario with `num_rows` users on `backend`.
pub fn benchmark_complex_query(num_rows: usize, backend: Backend, samples: usize) -> (out: (
    Runner,
    Action,
))
    requires
        num_rows <= MAX_ROWS,
    ensures
        out.0@ == start(
            Scenario { shape: QueryShape::Complex, num_rows, backend },
            samples as nat,
        ),
        out.1@ == ActionView::Reset,
{
    Runner::begin(Scenario { shape: QueryShape::Complex, num_rows, backend }, samples)
}

} // verus!
