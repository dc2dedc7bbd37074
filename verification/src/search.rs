use vstd::prelude::*;

use crate::grid::{has_value, in_grid, valid_setup, Coord, Setup};

verus! {

broadcast use vstd::array::group_array_axioms;

/// The first cell at or after column j in row i that holds v, scanning to
/// the right; None when the rest of the row does not hold v.
pub open spec fn find_in_row_from(s: Setup, v: u8, i: int, j: int) -> Option<(usize, usize)>
    decreases 10 - j,
{
    if !(0 <= i < 10 && 0 <= j < 10) {
        None
    } else if s[i][j] == v {
        Some((i as usize, j as usize))
    } else {
        find_in_row_from(s, v, i, j + 1)
    }
}

/// The first cell at or after row i that holds v, scanning in row-major
/// order; None when no such cell exists.
pub open spec fn find_from_row(s: Setup, v: u8, i: int) -> Option<(usize, usize)>
    decreases 10 - i,
{
    if !(0 <= i < 10) {
        None
    } else if find_in_row_from(s, v, i, 0) is Some {
        find_in_row_from(s, v, i, 0)
    } else {
        find_from_row(s, v, i + 1)
    }
}

/// The first cell of the board holding v, in row-major order.
pub open spec fn position_of(s: Setup, v: u8) -> Option<(usize, usize)> {
    find_from_row(s, v, 0)
}

proof fn lemma_find_in_row_characterize(s: Setup, v: u8, i: int, j: int)
    requires
        0 <= i < 10,
        0 <= j <= 10,
    ensures
        find_in_row_from(s, v, i, j) matches Some(p) ==> i == p.0 && j <= p.1 <= 9 && s[p.0 as int][p.1 as int] == v,
        find_in_row_from(s, v, i, j) is None ==> forall|b: int| j <= b <= 9 ==> s[i][b] != v,
    decreases 10 - j,
{
    if j < 10 && s[i][j] != v {
        lemma_find_in_row_characterize(s, v, i, j + 1);
    }
}

proof fn lemma_find_from_row_characterize(s: Setup, v: u8, i: int)
    requires
        0 <= i <= 10,
    ensures
        find_from_row(s, v, i) matches Some(p) ==> i <= p.0 <= 9 && p.1 <= 9 && s[p.0 as int][p.1 as int] == v,
        find_from_row(s, v, i) is None ==> forall|a: int, b: int| i <= a <= 9 && 0 <= b <= 9 ==> s[a][b] != v,
    decreases 10 - i,
{
    if i < 10 {
        lemma_find_in_row_characterize(s, v, i, 0);
        lemma_find_from_row_characterize(s, v, i + 1);
    }
}

/// A found position holds the value looked for; when nothing is found, no
/// cell of the board holds it.
pub proof fn lemma_position_of_characterize(s: Setup, v: u8)
    ensures
        position_of(s, v) matches Some(p) ==> in_grid(p.0 as int, p.1 as int) && s[p.0 as int][p.1 as int] == v,
        position_of(s, v) is None ==> forall|i: int, j: int| in_grid(i, j) ==> s[i][j] != v,
{
    lemma_find_from_row_characterize(s, v, 0);
}

/// On a valid board every segment number 1..=20 is found.
pub proof fn lemma_position_of_on_valid(s: Setup, v: u8)
    requires
        valid_setup(s),
        1 <= v <= 20,
    ensures
        position_of(s, v) is Some,
{
    lemma_position_of_characterize(s, v);
    assert(has_value(s, v as int));
    if position_of(s, v) is None {
        let (i, j) = choose|i: int, j: int| in_grid(i, j) && #[trigger] s[i][j] == v as int;
        assert(s[i][j] != v);
    }
}

/// Finding the grid position that holds a given segment value.
pub trait Searchable {
    /// The position `find_position` is expected to return.
    spec fn position_spec(&self, value: u8) -> Option<(usize, usize)>;

    /// The first (row, column) holding `value`, in row-major order, if any.
    fn find_position(&self, value: u8) -> (r: Option<(usize, usize)>)
        ensures
            r == self.position_spec(value),
    ;
}

impl Searchable for Setup {
    open spec fn position_spec(&self, value: u8) -> Option<(usize, usize)> {
        position_of(*self, value)
    }

    fn find_position(&self, value: u8) -> (r: Option<(usize, usize)>) {
        for i in 0..10
            invariant
                find_from_row(*self, value, 0) == find_from_row(*self, value, i as int),
        {
            for j in 0..10
                invariant
                    0 <= i < 10,
                    find_from_row(*self, value, 0) == find_from_row(*self, value, i as int),
                    find_in_row_from(*self, value, i as int, 0) == find_in_row_from(
                        *self,
                        value,
                        i as int,
                        j as int,
                    ),
            {
                if self[i][j] == value {
                    return Some((i, j));
                }
            }
        }
        None
    }
}

/// The hint positions for the segment values 1..=n, in increasing value
/// order; a value absent from the board contributes nothing.
pub open spec fn hints_upto(s: Setup, n: int) -> Seq<Coord>
    decreases n,
{
    if n <= 0 {
        Seq::empty()
    } else {
        hints_upto(s, n - 1) + match position_of(s, n as u8) {
            Some(p) => seq![Coord { row: p.0, col: p.1 }],
            None => Seq::empty(),
        }
    }
}

/// The positions of the first `limit` ship segments, in path order.
pub fn find_hints(setup: &Setup, limit: u8) -> (r: Vec<Coord>)
    ensures
        r@ == hints_upto(*setup, limit as int),
{
    let mut result: Vec<Coord> = Vec::new();
    let end: u16 = limit as u16 + 1;
    for n in 1..end
        invariant
            end == limit as u16 + 1,
            result@ == hints_upto(*setup, n - 1),
    {
        let v: u8 = n as u8;
        proof {
            assert(v as int == n as int);
        }
        if let Some(t) = setup.find_position(v) {
            result.push(Coord { row: t.0, col: t.1 });
        }
        proof {
            assert(result@ == hints_upto(*setup, n as int));
        }
    }
    result
}

} // verus!
