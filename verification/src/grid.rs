use vstd::prelude::*;

verus! {

broadcast use vstd::array::group_array_axioms;

/// A board: a fixed 10 by 10 matrix of cell values. A value of 0 marks an
/// empty cell; values 1 through 20 mark the twenty segments of the ship path.
pub type Setup = [[u8; 10]; 10];

pub const MIN_INDEX: usize = 0;

pub const MAX_INDEX: usize = 9;

/// A cell position, named by its column and row on the grid.
#[derive(Clone, Copy, PartialEq, Eq, Structural, Debug)]
pub struct Coord {
    pub col: usize,
    pub row: usize,
}

/// True when (i, j) addresses a cell of the 10 by 10 grid.
pub open spec fn in_grid(i: int, j: int) -> bool {
    0 <= i <= 9 && 0 <= j <= 9
}

/// The cell at row i, column j holds a ship segment.
pub open spec fn occupied(s: Setup, i: int, j: int) -> bool {
    in_grid(i, j) && s[i][j] > 0
}

/// Every cell value stays within the 0..=20 range of segment numbers.
pub open spec fn values_bounded(s: Setup) -> bool {
    forall|i: int, j: int| in_grid(i, j) ==> #[trigger] s[i][j] <= 20
}

/// Some cell of the board holds the value v.
pub open spec fn has_value(s: Setup, v: int) -> bool {
    exists|i: int, j: int| in_grid(i, j) && #[trigger] s[i][j] == v
}

/// Every segment number 1..=20 appears somewhere on the board.
pub open spec fn values_complete(s: Setup) -> bool {
    forall|v: int| 1 <= v <= 20 ==> #[trigger] has_value(s, v)
}

/// No segment number occupies two different cells.
pub open spec fn values_unique(s: Setup) -> bool {
    forall|i1: int, j1: int, i2: int, j2: int|
        in_grid(i1, j1) && in_grid(i2, j2) && #[trigger] s[i1][j1] == #[trigger] s[i2][j2]
            && s[i1][j1] > 0 ==> i1 == i2 && j1 == j2
}

/// No occupied interior cell has an occupied diagonal neighbour.
pub open spec fn corners_free(s: Setup) -> bool {
    forall|i: int, j: int|
        1 <= i <= 8 && 1 <= j <= 8 && #[trigger] s[i][j] > 0 ==> s[i - 1][j - 1] == 0 && s[i
            - 1][j + 1] == 0 && s[i + 1][j - 1] == 0 && s[i + 1][j + 1] == 0
}

/// The full board invariant: one cell per segment number, nothing else
/// occupied, and no two occupied cells touching at an inner corner.
pub open spec fn valid_setup(s: Setup) -> bool {
    values_bounded(s) && values_complete(s) && values_unique(s) && corners_free(s)
}

/// `t` is the transpose of `s`: rows and columns are swapped.
pub open spec fn is_transpose(t: Setup, s: Setup) -> bool {
    forall|i: int, j: int| in_grid(i, j) ==> #[trigger] t[i][j] == s[j][i]
}

/// `t` is `s` mirrored top to bottom.
pub open spec fn is_row_mirror(t: Setup, s: Setup) -> bool {
    forall|i: int, j: int| in_grid(i, j) ==> #[trigger] t[i][j] == s[9 - i][j]
}

/// `t` is `s` mirrored left to right.
pub open spec fn is_col_mirror(t: Setup, s: Setup) -> bool {
    forall|i: int, j: int| in_grid(i, j) ==> #[trigger] t[i][j] == s[i][9 - j]
}

/// `t` is the transpose of the top-to-bottom mirror of `s`.
pub open spec fn is_transpose_row_mirror(t: Setup, s: Setup) -> bool {
    forall|i: int, j: int| in_grid(i, j) ==> #[trigger] t[i][j] == s[9 - j][i]
}

/// `t` is the transpose of the left-to-right mirror of `s`.
pub open spec fn is_transpose_col_mirror(t: Setup, s: Setup) -> bool {
    forall|i: int, j: int| in_grid(i, j) ==> #[trigger] t[i][j] == s[j][9 - i]
}

/// Two boards that agree on every cell are the same board.
pub proof fn lemma_grid_ext(a: Setup, b: Setup)
    requires
        forall|i: int, j: int| in_grid(i, j) ==> #[trigger] a[i][j] == b[i][j],
    ensures
        a == b,
{
    assert forall|i: int| 0 <= i < 10 implies #[trigger] a[i] == b[i] by {
        assert forall|j: int| 0 <= j < 10 implies #[trigger] a[i][j] == b[i][j] by {
            assert(in_grid(i, j));
        }
        assert(a[i] =~= b[i]);
    }
    assert(a =~= b);
}

/// Transposing twice yields the original board.
pub proof fn lemma_transpose_involutive(s: Setup, t: Setup, u: Setup)
    requires
        is_transpose(t, s),
        is_transpose(u, t),
    ensures
        u == s,
{
    assert forall|i: int, j: int| in_grid(i, j) implies #[trigger] u[i][j] == s[i][j] by {
        assert(in_grid(j, i));
    }
    lemma_grid_ext(u, s);
}

/// Mirroring top to bottom twice yields the original board.
pub proof fn lemma_row_mirror_involutive(s: Setup, t: Setup, u: Setup)
    requires
        is_row_mirror(t, s),
        is_row_mirror(u, t),
    ensures
        u == s,
{
    assert forall|i: int, j: int| in_grid(i, j) implies #[trigger] u[i][j] == s[i][j] by {
        assert(in_grid(9 - i, j));
    }
    lemma_grid_ext(u, s);
}

/// Mirroring left to right twice yields the original board.
pub proof fn lemma_col_mirror_involutive(s: Setup, t: Setup, u: Setup)
    requires
        is_col_mirror(t, s),
        is_col_mirror(u, t),
    ensures
        u == s,
{
    assert forall|i: int, j: int| in_grid(i, j) implies #[trigger] u[i][j] == s[i][j] by {
        assert(in_grid(i, 9 - j));
    }
    lemma_grid_ext(u, s);
}

/// Transposing a top-to-bottom mirror gives the combined transform.
pub proof fn lemma_transpose_of_row_mirror(s: Setup, m: Setup, t: Setup)
    requires
        is_row_mirror(m, s),
        is_transpose(t, m),
    ensures
        is_transpose_row_mirror(t, s),
{
    assert forall|i: int, j: int| in_grid(i, j) implies #[trigger] t[i][j] == s[9 - j][i] by {
        assert(in_grid(j, i));
    }
}

/// Transposing a left-to-right mirror gives the combined transform.
pub proof fn lemma_transpose_of_col_mirror(s: Setup, m: Setup, t: Setup)
    requires
        is_col_mirror(m, s),
        is_transpose(t, m),
    ensures
        is_transpose_col_mirror(t, s),
{
    assert forall|i: int, j: int| in_grid(i, j) implies #[trigger] t[i][j] == s[j][9 - i] by {
        assert(in_grid(j, i));
    }
}

/// Transposing a valid board yields a valid board.
pub proof fn lemma_transpose_preserves_valid(s: Setup, t: Setup)
    requires
        valid_setup(s),
        is_transpose(t, s),
    ensures
        valid_setup(t),
{
    assert forall|i: int, j: int| in_grid(i, j) implies #[trigger] t[i][j] <= 20 by {
        assert(s[j][i] <= 20);
    }
    assert forall|v: int| 1 <= v <= 20 implies #[trigger] has_value(t, v) by {
        assert(has_value(s, v));
        let (i, j) = choose|i: int, j: int| in_grid(i, j) && #[trigger] s[i][j] == v;
        assert(in_grid(j, i));
        assert(t[j][i] == v);
    }
    assert forall|i1: int, j1: int, i2: int, j2: int|
        in_grid(i1, j1) && in_grid(i2, j2) && #[trigger] t[i1][j1] == #[trigger] t[i2][j2]
            && t[i1][j1] > 0 implies i1 == i2 && j1 == j2 by {
        let a1 = j1;
        let b1 = i1;
        let a2 = j2;
        let b2 = i2;
        assert(t[i1][j1] == s[a1][b1]);
        assert(t[i2][j2] == s[a2][b2]);
    }
    assert forall|i: int, j: int| 1 <= i <= 8 && 1 <= j <= 8 && #[trigger] t[i][j] > 0 implies t[i
        - 1][j - 1] == 0 && t[i - 1][j + 1] == 0 && t[i + 1][j - 1] == 0 && t[i + 1][j + 1]
        == 0 by {
        assert(t[i][j] == s[j][i]);
        assert(s[j][i] > 0);
        assert(t[i - 1][j - 1] == s[j - 1][i - 1]);
        assert(t[i - 1][j + 1] == s[j + 1][i - 1]);
        assert(t[i + 1][j - 1] == s[j - 1][i + 1]);
        assert(t[i + 1][j + 1] == s[j + 1][i + 1]);
    }
}

/// Mirroring top to bottom a valid board yields a valid board.
pub proof fn lemma_row_mirror_preserves_valid(s: Setup, t: Setup)
    requires
        valid_setup(s),
        is_row_mirror(t, s),
    ensures
        valid_setup(t),
{
    assert forall|i: int, j: int| in_grid(i, j) implies #[trigger] t[i][j] <= 20 by {
        assert(s[9 - i][j] <= 20);
    }
    assert forall|v: int| 1 <= v <= 20 implies #[trigger] has_value(t, v) by {
        assert(has_value(s, v));
        let (i, j) = choose|i: int, j: int| in_grid(i, j) && #[trigger] s[i][j] == v;
        assert(in_grid(9 - i, j));
        assert(t[9 - i][j] == v);
    }
    assert forall|i1: int, j1: int, i2: int, j2: int|
        in_grid(i1, j1) && in_grid(i2, j2) && #[trigger] t[i1][j1] == #[trigger] t[i2][j2]
            && t[i1][j1] > 0 implies i1 == i2 && j1 == j2 by {
        let a1 = 9 - i1;
        let b1 = j1;
        let a2 = 9 - i2;
        let b2 = j2;
        assert(t[i1][j1] == s[a1][b1]);
        assert(t[i2][j2] == s[a2][b2]);
    }
    assert forall|i: int, j: int| 1 <= i <= 8 && 1 <= j <= 8 && #[trigger] t[i][j] > 0 implies t[i
        - 1][j - 1] == 0 && t[i - 1][j + 1] == 0 && t[i + 1][j - 1] == 0 && t[i + 1][j + 1]
        == 0 by {
        assert(t[i][j] == s[9 - i][j]);
        assert(s[9 - i][j] > 0);
        assert(t[i - 1][j - 1] == s[9 - i + 1][j - 1]);
        assert(t[i - 1][j + 1] == s[9 - i + 1][j + 1]);
        assert(t[i + 1][j - 1] == s[9 - i - 1][j - 1]);
        assert(t[i + 1][j + 1] == s[9 - i - 1][j + 1]);
    }
}

/// Mirroring left to right a valid board yields a valid board.
pub proof fn lemma_col_mirror_preserves_valid(s: Setup, t: Setup)
    requires
        valid_setup(s),
        is_col_mirror(t, s),
    ensures
        valid_setup(t),
{
    assert forall|i: int, j: int| in_grid(i, j) implies #[trigger] t[i][j] <= 20 by {
        assert(s[i][9 - j] <= 20);
    }
    assert forall|v: int| 1 <= v <= 20 implies #[trigger] has_value(t, v) by {
        assert(has_value(s, v));
        let (i, j) = choose|i: int, j: int| in_grid(i, j) && #[trigger] s[i][j] == v;
        assert(in_grid(i, 9 - j));
        assert(t[i][9 - j] == v);
    }
    assert forall|i1: int, j1: int, i2: int, j2: int|
        in_grid(i1, j1) && in_grid(i2, j2) && #[trigger] t[i1][j1] == #[trigger] t[i2][j2]
            && t[i1][j1] > 0 implies i1 == i2 && j1 == j2 by {
        let a1 = i1;
        let b1 = 9 - j1;
        let a2 = i2;
        let b2 = 9 - j2;
        assert(t[i1][j1] == s[a1][b1]);
        assert(t[i2][j2] == s[a2][b2]);
    }
    assert forall|i: int, j: int| 1 <= i <= 8 && 1 <= j <= 8 && #[trigger] t[i][j] > 0 implies t[i
        - 1][j - 1] == 0 && t[i - 1][j + 1] == 0 && t[i + 1][j - 1] == 0 && t[i + 1][j + 1]
        == 0 by {
        assert(t[i][j] == s[i][9 - j]);
        assert(s[i][9 - j] > 0);
        assert(t[i - 1][j - 1] == s[i - 1][9 - j + 1]);
        assert(t[i - 1][j + 1] == s[i - 1][9 - j - 1]);
        assert(t[i + 1][j - 1] == s[i + 1][9 - j + 1]);
        assert(t[i + 1][j + 1] == s[i + 1][9 - j - 1]);
    }
}

/// The transpose of the top-to-bottom mirror of a valid board is valid.
pub proof fn lemma_transpose_row_mirror_preserves_valid(s: Setup, t: Setup)
    requires
        valid_setup(s),
        is_transpose_row_mirror(t, s),
    ensures
        valid_setup(t),
{
    assert forall|i: int, j: int| in_grid(i, j) implies #[trigger] t[i][j] <= 20 by {
        assert(s[9 - j][i] <= 20);
    }
    assert forall|v: int| 1 <= v <= 20 implies #[trigger] has_value(t, v) by {
        assert(has_value(s, v));
        let (i, j) = choose|i: int, j: int| in_grid(i, j) && #[trigger] s[i][j] == v;
        assert(in_grid(j, 9 - i));
        assert(t[j][9 - i] == v);
    }
    assert forall|i1: int, j1: int, i2: int, j2: int|
        in_grid(i1, j1) && in_grid(i2, j2) && #[trigger] t[i1][j1] == #[trigger] t[i2][j2]
            && t[i1][j1] > 0 implies i1 == i2 && j1 == j2 by {
        let a1 = 9 - j1;
        let b1 = i1;
        let a2 = 9 - j2;
        let b2 = i2;
        assert(t[i1][j1] == s[a1][b1]);
        assert(t[i2][j2] == s[a2][b2]);
    }
    assert forall|i: int, j: int| 1 <= i <= 8 && 1 <= j <= 8 && #[trigger] t[i][j] > 0 implies t[i
        - 1][j - 1] == 0 && t[i - 1][j + 1] == 0 && t[i + 1][j - 1] == 0 && t[i + 1][j + 1]
        == 0 by {
        assert(t[i][j] == s[9 - j][i]);
        assert(s[9 - j][i] > 0);
        assert(t[i - 1][j - 1] == s[9 - j + 1][i - 1]);
        assert(t[i - 1][j + 1] == s[9 - j - 1][i - 1]);
        assert(t[i + 1][j - 1] == s[9 - j + 1][i + 1]);
        assert(t[i + 1][j + 1] == s[9 - j - 1][i + 1]);
    }
}

/// The transpose of the left-to-right mirror of a valid board is valid.
pub proof fn lemma_transpose_col_mirror_preserves_valid(s: Setup, t: Setup)
    requires
        valid_setup(s),
        is_transpose_col_mirror(t, s),
    ensures
        valid_setup(t),
{
    assert forall|i: int, j: int| in_grid(i, j) implies #[trigger] t[i][j] <= 20 by {
        assert(s[j][9 - i] <= 20);
    }
    assert forall|v: int| 1 <= v <= 20 implies #[trigger] has_value(t, v) by {
        assert(has_value(s, v));
        let (i, j) = choose|i: int, j: int| in_grid(i, j) && #[trigger] s[i][j] == v;
        assert(in_grid(9 - j, i));
        assert(t[9 - j][i] == v);
    }
    assert forall|i1: int, j1: int, i2: int, j2: int|
        in_grid(i1, j1) && in_grid(i2, j2) && #[trigger] t[i1][j1] == #[trigger] t[i2][j2]
            && t[i1][j1] > 0 implies i1 == i2 && j1 == j2 by {
        let a1 = j1;
        let b1 = 9 - i1;
        let a2 = j2;
        let b2 = 9 - i2;
        assert(t[i1][j1] == s[a1][b1]);
        assert(t[i2][j2] == s[a2][b2]);
    }
    assert forall|i: int, j: int| 1 <= i <= 8 && 1 <= j <= 8 && #[trigger] t[i][j] > 0 implies t[i
        - 1][j - 1] == 0 && t[i - 1][j + 1] == 0 && t[i + 1][j - 1] == 0 && t[i + 1][j + 1]
        == 0 by {
        assert(t[i][j] == s[j][9 - i]);
        assert(s[j][9 - i] > 0);
        assert(t[i - 1][j - 1] == s[j - 1][9 - i + 1]);
        assert(t[i - 1][j + 1] == s[j + 1][9 - i + 1]);
        assert(t[i + 1][j - 1] == s[j - 1][9 - i - 1]);
        assert(t[i + 1][j + 1] == s[j + 1][9 - i - 1]);
    }
}

/// Swap rows and columns: the result holds `setup[i][j]` at position (j, i).
pub fn transpose(setup: Setup) -> (r: Setup)
    ensures
        is_transpose(r, setup),
{
    let mut result: Setup = [[0u8; 10]; 10];
    for i in 0..10
        invariant
            forall|a: int, b: int|
                in_grid(a, b) && b < i ==> #[trigger] result[a][b] == setup[b][a],
    {
        for j in 0..10
            invariant
                0 <= i < 10,
                forall|a: int, b: int|
                    in_grid(a, b) && b < i ==> #[trigger] result[a][b] == setup[b][a],
                forall|a: int| 0 <= a < j ==> #[trigger] result[a][i as int] == setup[i as int][a],
        {
            result[j][i] = setup[i][j];
        }
    }
    result
}

/// Mirror the board top to bottom: row i of the result is row 9 - i of the input.
pub fn reverse_rows(setup: Setup) -> (r: Setup)
    ensures
        is_row_mirror(r, setup),
{
    let mut result: Setup = [[0u8; 10]; 10];
    for i in 0..10
        invariant
            forall|a: int, b: int|
                in_grid(a, b) && a < i ==> #[trigger] result[a][b] == setup[9 - a][b],
    {
        for j in 0..10
            invariant
                0 <= i < 10,
                forall|a: int, b: int|
                    in_grid(a, b) && a < i ==> #[trigger] result[a][b] == setup[9 - a][b],
                forall|b: int| 0 <= b < j ==> #[trigger] result[i as int][b] == setup[9 - i][b],
        {
            result[i][j] = setup[9 - i][j];
        }
    }
    result
}

/// Mirror the board left to right: column j of the result is column 9 - j of the input.
pub fn reverse_cols(setup: Setup) -> (r: Setup)
    ensures
        is_col_mirror(r, setup),
{
    let mut result: Setup = [[0u8; 10]; 10];
    for i in 0..10
        invariant
            forall|a: int, b: int|
                in_grid(a, b) && a < i ==> #[trigger] result[a][b] == setup[a][9 - b],
    {
        for j in 0..10
            invariant
                0 <= i < 10,
                forall|a: int, b: int|
                    in_grid(a, b) && a < i ==> #[trigger] result[a][b] == setup[a][9 - b],
                forall|b: int| 0 <= b < j ==> #[trigger] result[i as int][b] == setup[i as int][9 - b],
        {
            result[i][j] = setup[i][9 - j];
        }
    }
    result
}

} // verus!
