use vstd::prelude::*;

use crate::grid::{occupied, Coord, Setup};

verus! {

broadcast use vstd::array::group_array_axioms;

/// Every occupied cell of the board appears in the submitted coordinates.
pub open spec fn covers_occupied(coords: Seq<Coord>, s: Setup) -> bool {
    forall|i: int, j: int|
        #[trigger] occupied(s, i, j) ==> coords.contains(
            Coord { col: j as usize, row: i as usize },
        )
}

/// A submission wins exactly when it has 20 entries and covers every
/// occupied cell. With exactly 20 occupied cells per board, covering them
/// with 20 entries leaves no room for extras.
pub open spec fn solves_spec(coords: Seq<Coord>, s: Setup) -> bool {
    coords.len() == 20 && covers_occupied(coords, s)
}

/// A submitted solution: the list of coordinates claimed to be the
/// occupied cells of the board.
pub struct Check {
    pub coords: Vec<Coord>,
}

/// Submissions that can be checked against a board.
pub trait IsSolved {
    /// Whether this submission wins against `setup`.
    spec fn solved_by(&self, setup: Setup) -> bool;

    /// Check the submission against the board.
    fn solves(&self, setup: Setup) -> (r: bool)
        ensures
            r == self.solved_by(setup),
    ;
}

fn contains_coord(v: &Vec<Coord>, c: Coord) -> (r: bool)
    ensures
        r == v@.contains(c),
{
    for k in 0..v.len()
        invariant
            forall|m: int| 0 <= m < k ==> v@[m] != c,
    {
        if v[k] == c {
            return true;
        }
    }
    false
}

impl IsSolved for Check {
    open spec fn solved_by(&self, setup: Setup) -> bool {
        solves_spec(self.coords@, setup)
    }

    fn solves(&self, setup: Setup) -> (r: bool) {
        if self.coords.len() == 20 {
            for i in 0..10
                invariant
                    self.coords@.len() == 20,
                    forall|a: int, b: int|
                        #[trigger] occupied(setup, a, b) && a < i ==> self.coords@.contains(
                            Coord { col: b as usize, row: a as usize },
                        ),
            {
                for j in 0..10
                    invariant
                        0 <= i < 10,
                        self.coords@.len() == 20,
                        forall|a: int, b: int|
                            #[trigger] occupied(setup, a, b) && a < i ==> self.coords@.contains(
                                Coord { col: b as usize, row: a as usize },
                            ),
                        forall|b: int|
                            #[trigger] occupied(setup, i as int, b) && b < j
                                ==> self.coords@.contains(
                                Coord { col: b as usize, row: i as usize },
                            ),
                {
                    if setup[i][j] > 0 && !contains_coord(&self.coords, Coord { col: j, row: i }) {
                        proof {
                            assert(occupied(setup, i as int, j as int));
                            assert(!self.coords@.contains(
                                Coord { col: (j as int) as usize, row: (i as int) as usize },
                            ));
                        }
                        return false;
                    }
                }
            }
            true
        } else {
            false
        }
    }
}

/// A submission whose length is not 20 never wins, whatever it contains.
pub proof fn lemma_wrong_length_never_solves(coords: Seq<Coord>, s: Setup)
    requires
        coords.len() != 20,
    ensures
        !solves_spec(coords, s),
{
}

/// A 20-entry submission that covers every occupied cell wins.
pub proof fn lemma_full_cover_solves(coords: Seq<Coord>, s: Setup)
    requires
        coords.len() == 20,
        covers_occupied(coords, s),
    ensures
        solves_spec(coords, s),
{
}

/// A submission that misses even one occupied cell never wins.
pub proof fn lemma_missing_cell_never_solves(coords: Seq<Coord>, s: Setup, c: Coord)
    requires
        occupied(s, c.row as int, c.col as int),
        !coords.contains(c),
    ensures
        !solves_spec(coords, s),
{
    if covers_occupied(coords, s) {
        assert(coords.contains(Coord { col: c.col, row: c.row }));
        assert(c == (Coord { col: c.col, row: c.row }));
    }
}

/// Swapping one entry of a winning, duplicate-free submission for a
/// coordinate of an empty cell makes it lose: the replaced cell is then
/// covered nowhere else.
pub proof fn lemma_swapped_entry_never_solves(coords: Seq<Coord>, s: Setup, k: int, c: Coord)
    requires
        solves_spec(coords, s),
        forall|m: int, n: int| 0 <= m < n < coords.len() ==> coords[m] != coords[n],
        0 <= k < coords.len(),
        occupied(s, coords[k].row as int, coords[k].col as int),
        !occupied(s, c.row as int, c.col as int),
    ensures
        !solves_spec(coords.update(k, c), s),
{
    let swapped = coords.update(k, c);
    let lost = coords[k];
    assert(c != lost);
    if swapped.contains(lost) {
        let m = choose|m: int| 0 <= m < swapped.len() && swapped[m] == lost;
        assert(m != k);
        assert(coords[m] == lost);
        if m < k {
            assert(coords[m] != coords[k]);
        } else {
            assert(coords[k] != coords[m]);
        }
    }
    lemma_missing_cell_never_solves(swapped, s, lost);
}

} // verus!
