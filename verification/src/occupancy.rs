use vstd::prelude::*;

use crate::grid::{has_value, in_grid, valid_setup, Setup};
use vstd::set_lib::{lemma_int_range, lemma_map_size, set_int_range};

verus! {

broadcast use vstd::array::group_array_axioms, vstd::set::group_set_axioms, vstd::set_lib::group_set_lib_default;

/// Number of occupied cells among the first n cells of row i.
pub open spec fn row_count_upto(s: Setup, i: int, n: int) -> int
    decreases n,
{
    if n <= 0 {
        0
    } else {
        row_count_upto(s, i, n - 1) + if s[i][n - 1] > 0 {
            1int
        } else {
            0int
        }
    }
}

/// Number of occupied cells in row i.
pub open spec fn row_count(s: Setup, i: int) -> int {
    row_count_upto(s, i, 10)
}

/// Number of occupied cells among the first n cells of column j.
pub open spec fn col_count_upto(s: Setup, j: int, n: int) -> int
    decreases n,
{
    if n <= 0 {
        0
    } else {
        col_count_upto(s, j, n - 1) + if s[n - 1][j] > 0 {
            1int
        } else {
            0int
        }
    }
}

/// Number of occupied cells in column j.
pub open spec fn col_count(s: Setup, j: int) -> int {
    col_count_upto(s, j, 10)
}

proof fn lemma_row_count_upto_bounds(s: Setup, i: int, n: int)
    requires
        0 <= n,
    ensures
        0 <= row_count_upto(s, i, n) <= n,
    decreases n,
{
    if n > 0 {
        lemma_row_count_upto_bounds(s, i, n - 1);
    }
}

proof fn lemma_col_count_upto_bounds(s: Setup, j: int, n: int)
    requires
        0 <= n,
    ensures
        0 <= col_count_upto(s, j, n) <= n,
    decreases n,
{
    if n > 0 {
        lemma_col_count_upto_bounds(s, j, n - 1);
    }
}

/// Count the occupied cells of each row, or, when `by_columns` is set, of
/// each column.
pub fn occ(setup: &Setup, by_columns: bool) -> (r: [u8; 10])
    ensures
        forall|i: int|
            0 <= i < 10 ==> #[trigger] r[i] as int == if by_columns {
                col_count(*setup, i)
            } else {
                row_count(*setup, i)
            },
{
    let mut result: [u8; 10] = [0; 10];
    for i in 0..10
        invariant
            forall|a: int|
                0 <= a < i ==> #[trigger] result[a] as int == if by_columns {
                    col_count(*setup, a)
                } else {
                    row_count(*setup, a)
                },
    {
        let mut count: u8 = 0;
        for j in 0..10
            invariant
                0 <= i < 10,
                count as int == if by_columns {
                    col_count_upto(*setup, i as int, j as int)
                } else {
                    row_count_upto(*setup, i as int, j as int)
                },
                count as int <= j,
        {
            proof {
                lemma_row_count_upto_bounds(*setup, i as int, j as int);
                lemma_col_count_upto_bounds(*setup, i as int, j as int);
            }
            let v = if by_columns {
                setup[j][i]
            } else {
                setup[i][j]
            };
            if v > 0 {
                count = count + 1;
            }
        }
        result[i] = count;
    }
    result
}

/// Per-row and per-column occupancy summaries of a board.
pub trait OccupiedCells {
    /// The intended count for entry j of `occupied_cols`.
    spec fn col_count_spec(&self, j: int) -> int;

    /// The intended count for entry i of `occupied_rows`.
    spec fn row_count_spec(&self, i: int) -> int;

    /// For each column, the number of occupied cells in it.
    fn occupied_cols(&self) -> (r: [u8; 10])
        ensures
            forall|j: int| 0 <= j < 10 ==> #[trigger] r[j] as int == self.col_count_spec(j),
    ;

    /// For each row, the number of occupied cells in it.
    fn occupied_rows(&self) -> (r: [u8; 10])
        ensures
            forall|i: int| 0 <= i < 10 ==> #[trigger] r[i] as int == self.row_count_spec(i),
    ;
}

impl OccupiedCells for Setup {
    open spec fn col_count_spec(&self, j: int) -> int {
        col_count(*self, j)
    }

    open spec fn row_count_spec(&self, i: int) -> int {
        row_count(*self, i)
    }

    fn occupied_cols(&self) -> (r: [u8; 10]) {
        occ(self, true)
    }

    fn occupied_rows(&self) -> (r: [u8; 10]) {
        occ(self, false)
    }
}

/// The sum of the first n row counts.
pub open spec fn sum_rows_upto(s: Setup, n: int) -> int
    decreases n,
{
    if n <= 0 {
        0
    } else {
        sum_rows_upto(s, n - 1) + row_count(s, n - 1)
    }
}

/// The sum of the first n column counts.
pub open spec fn sum_cols_upto(s: Setup, n: int) -> int
    decreases n,
{
    if n <= 0 {
        0
    } else {
        sum_cols_upto(s, n - 1) + col_count(s, n - 1)
    }
}

spec fn row_cells_upto(s: Setup, i: int, n: int) -> Set<(int, int)> {
    Set::new(|p: (int, int)| p.0 == i && 0 <= p.1 < n && s[p.0][p.1] > 0)
}

spec fn col_cells_upto(s: Setup, j: int, n: int) -> Set<(int, int)> {
    Set::new(|p: (int, int)| p.1 == j && 0 <= p.0 < n && s[p.0][p.1] > 0)
}

spec fn cells_in_first_rows(s: Setup, n: int) -> Set<(int, int)> {
    Set::new(|p: (int, int)| 0 <= p.0 < n && 0 <= p.1 < 10 && s[p.0][p.1] > 0)
}

spec fn cells_in_first_cols(s: Setup, n: int) -> Set<(int, int)> {
    Set::new(|p: (int, int)| 0 <= p.0 < 10 && 0 <= p.1 < n && s[p.0][p.1] > 0)
}

proof fn lemma_row_cells_count(s: Setup, i: int, n: int)
    requires
        0 <= n <= 10,
    ensures
        row_cells_upto(s, i, n).finite(),
        row_cells_upto(s, i, n).len() == row_count_upto(s, i, n),
    decreases n,
{
    if n == 0 {
        assert(row_cells_upto(s, i, 0) =~= Set::empty());
    } else {
        lemma_row_cells_count(s, i, n - 1);
        if s[i][n - 1] > 0 {
            assert(row_cells_upto(s, i, n) =~= row_cells_upto(s, i, n - 1).insert((i, n - 1)));
            assert(!row_cells_upto(s, i, n - 1).contains((i, n - 1)));
        } else {
            assert(row_cells_upto(s, i, n) =~= row_cells_upto(s, i, n - 1));
        }
    }
}

proof fn lemma_col_cells_count(s: Setup, j: int, n: int)
    requires
        0 <= n <= 10,
    ensures
        col_cells_upto(s, j, n).finite(),
        col_cells_upto(s, j, n).len() == col_count_upto(s, j, n),
    decreases n,
{
    if n == 0 {
        assert(col_cells_upto(s, j, 0) =~= Set::empty());
    } else {
        lemma_col_cells_count(s, j, n - 1);
        if s[n - 1][j] > 0 {
            assert(col_cells_upto(s, j, n) =~= col_cells_upto(s, j, n - 1).insert((n - 1, j)));
            assert(!col_cells_upto(s, j, n - 1).contains((n - 1, j)));
        } else {
            assert(col_cells_upto(s, j, n) =~= col_cells_upto(s, j, n - 1));
        }
    }
}

proof fn lemma_cells_in_first_rows_sum(s: Setup, n: int)
    requires
        0 <= n <= 10,
    ensures
        cells_in_first_rows(s, n).finite(),
        cells_in_first_rows(s, n).len() == sum_rows_upto(s, n),
    decreases n,
{
    if n == 0 {
        assert(cells_in_first_rows(s, 0) =~= Set::empty());
    } else {
        lemma_cells_in_first_rows_sum(s, n - 1);
        lemma_row_cells_count(s, n - 1, 10);
        let prev = cells_in_first_rows(s, n - 1);
        let row = row_cells_upto(s, n - 1, 10);
        assert(cells_in_first_rows(s, n) =~= prev + row);
        assert(prev.disjoint(row));
        vstd::set_lib::lemma_set_disjoint_lens(prev, row);
    }
}

proof fn lemma_cells_in_first_cols_sum(s: Setup, n: int)
    requires
        0 <= n <= 10,
    ensures
        cells_in_first_cols(s, n).finite(),
        cells_in_first_cols(s, n).len() == sum_cols_upto(s, n),
    decreases n,
{
    if n == 0 {
        assert(cells_in_first_cols(s, 0) =~= Set::empty());
    } else {
        lemma_cells_in_first_cols_sum(s, n - 1);
        lemma_col_cells_count(s, n - 1, 10);
        let prev = cells_in_first_cols(s, n - 1);
        let col = col_cells_upto(s, n - 1, 10);
        assert(cells_in_first_cols(s, n) =~= prev + col);
        assert(prev.disjoint(col));
        vstd::set_lib::lemma_set_disjoint_lens(prev, col);
    }
}

proof fn lemma_occupied_cells_card(s: Setup)
    requires
        valid_setup(s),
    ensures
        cells_in_first_rows(s, 10).len() == 20,
{
    let vals = set_int_range(1, 21);
    lemma_int_range(1, 21);
    let f = |v: int| choose|p: (int, int)| in_grid(p.0, p.1) && s[p.0][p.1] == v;
    assert forall|v: int| vals.contains(v) implies in_grid(#[trigger] f(v).0, f(v).1) && s[f(
        v,
    ).0][f(v).1] == v by {
        assert(has_value(s, v));
        let (wi, wj) = choose|i: int, j: int| in_grid(i, j) && #[trigger] s[i][j] == v;
        assert(in_grid(wi, wj) && s[wi][wj] == v);
        assert(exists|p: (int, int)| in_grid(p.0, p.1) && #[trigger] s[p.0][p.1] == v) by {
            let w = (wi, wj);
            assert(in_grid(w.0, w.1) && s[w.0][w.1] == v);
        }
    }
    assert(vstd::relations::injective_on(f, vals)) by {
        assert forall|v1: int, v2: int|
            #![trigger f(v1), f(v2)]
            vals.contains(v1) && vals.contains(v2) && f(v1) == f(v2) implies v1 == v2 by {
            assert(s[f(v1).0][f(v1).1] == v1);
            assert(s[f(v2).0][f(v2).1] == v2);
        }
    }
    let occ_set = cells_in_first_rows(s, 10);
    assert(vals.map(f) =~= occ_set) by {
        assert forall|p: (int, int)| vals.map(f).contains(p) implies occ_set.contains(p) by {
            let v = choose|v: int| vals.contains(v) && #[trigger] f(v) == p;
            assert(in_grid(f(v).0, f(v).1) && s[f(v).0][f(v).1] == v);
        }
        assert forall|p: (int, int)| occ_set.contains(p) implies vals.map(f).contains(p) by {
            let v = s[p.0][p.1] as int;
            assert(in_grid(p.0, p.1));
            assert(s[p.0][p.1] <= 20);
            assert(vals.contains(v));
            assert(in_grid(f(v).0, f(v).1) && s[f(v).0][f(v).1] == v);
            assert(f(v) == p);
            assert(vals.map(f).contains(p));
        }
    }
    lemma_map_size(vals, occ_set, f);
}

/// On a valid board the per-row occupancy counts sum to 20, and so do the
/// per-column occupancy counts: one for each of the twenty ship segments.
pub proof fn lemma_occupied_counts_sum(s: Setup)
    requires
        valid_setup(s),
    ensures
        sum_rows_upto(s, 10) == 20,
        sum_cols_upto(s, 10) == 20,
{
    lemma_cells_in_first_rows_sum(s, 10);
    lemma_cells_in_first_cols_sum(s, 10);
    lemma_occupied_cells_card(s);
    assert(cells_in_first_cols(s, 10) =~= cells_in_first_rows(s, 10));
}

} // verus!
