use vstd::prelude::*;

use crate::grid::{
    is_col_mirror, is_row_mirror, is_transpose, is_transpose_col_mirror, is_transpose_row_mirror,
    lemma_transpose_of_col_mirror, lemma_transpose_of_row_mirror, reverse_cols, reverse_rows,
    transpose, Setup,
};

verus! {

pub const GAME_0: Setup = [
    [00, 07, 06, 05, 00, 00, 00, 00, 00, 00],
    [00, 00, 00, 00, 00, 00, 00, 00, 00, 00],
    [08, 00, 00, 00, 00, 00, 00, 00, 00, 00],
    [09, 00, 00, 04, 03, 02, 01, 00, 00, 20],
    [10, 00, 00, 00, 00, 00, 00, 00, 00, 00],
    [00, 00, 00, 00, 00, 00, 00, 00, 00, 19],
    [11, 00, 00, 00, 00, 00, 00, 00, 00, 00],
    [12, 00, 00, 00, 00, 00, 00, 00, 00, 00],
    [00, 00, 00, 00, 00, 00, 00, 00, 00, 18],
    [00, 13, 14, 00, 15, 16, 00, 17, 00, 00],
];

pub const GAME_1: Setup = [
    [00, 00, 00, 00, 00, 04, 03, 02, 01, 00],
    [17, 00, 00, 00, 00, 00, 00, 00, 00, 00],
    [00, 00, 00, 00, 00, 05, 00, 00, 00, 00],
    [00, 00, 19, 00, 00, 06, 00, 00, 00, 00],
    [18, 00, 00, 00, 00, 07, 00, 00, 00, 15],
    [00, 00, 00, 00, 00, 00, 00, 00, 00, 16],
    [00, 00, 00, 08, 00, 20, 00, 00, 00, 00],
    [00, 00, 00, 09, 00, 00, 00, 11, 12, 00],
    [00, 00, 00, 10, 00, 00, 00, 00, 00, 00],
    [00, 00, 00, 00, 00, 00, 00, 13, 14, 00],
];

pub const GAME_2: Setup = [
    [00, 00, 00, 00, 00, 00, 00, 00, 20, 00],
    [00, 00, 13, 00, 00, 00, 00, 00, 00, 00],
    [00, 00, 14, 00, 00, 10, 00, 07, 00, 00],
    [00, 00, 00, 00, 00, 09, 00, 06, 00, 00],
    [00, 15, 00, 00, 00, 08, 00, 05, 00, 00],
    [00, 16, 00, 00, 00, 00, 00, 00, 00, 00],
    [00, 00, 00, 00, 01, 02, 03, 04, 00, 00],
    [00, 17, 00, 00, 00, 00, 00, 00, 00, 00],
    [00, 00, 00, 00, 00, 00, 00, 00, 00, 00],
    [00, 18, 00, 11, 12, 00, 00, 00, 19, 00],
];

pub const GAME_3: Setup = [
    [00, 00, 00, 00, 00, 00, 00, 00, 16, 00],
    [00, 00, 00, 00, 00, 00, 00, 00, 15, 00],
    [19, 00, 00, 00, 00, 00, 12, 00, 00, 00],
    [00, 00, 13, 14, 00, 00, 11, 00, 00, 00],
    [00, 00, 00, 00, 00, 00, 00, 00, 00, 08],
    [18, 00, 00, 00, 20, 00, 04, 00, 00, 09],
    [00, 00, 00, 00, 00, 00, 03, 00, 00, 10],
    [00, 00, 07, 06, 05, 00, 02, 00, 00, 00],
    [00, 00, 00, 00, 00, 00, 01, 00, 17, 00],
    [00, 00, 00, 00, 00, 00, 00, 00, 00, 00],
];

pub const GAME_4: Setup = [
    [00, 00, 00, 00, 00, 00, 00, 19, 00, 20],
    [00, 00, 01, 02, 03, 04, 00, 00, 00, 00],
    [00, 00, 00, 00, 00, 00, 00, 00, 00, 00],
    [00, 00, 00, 07, 06, 05, 00, 18, 00, 17],
    [00, 00, 00, 00, 00, 00, 00, 00, 00, 00],
    [08, 09, 10, 00, 00, 00, 00, 00, 00, 00],
    [00, 00, 00, 00, 00, 00, 00, 00, 00, 00],
    [00, 00, 00, 00, 00, 00, 00, 00, 00, 00],
    [00, 00, 11, 00, 00, 00, 13, 00, 00, 15],
    [00, 00, 12, 00, 00, 00, 14, 00, 00, 16],
];

pub const GAME_5: Setup = [
    [20, 00, 00, 00, 00, 00, 00, 00, 00, 19],
    [00, 00, 00, 00, 00, 00, 00, 00, 00, 00],
    [00, 01, 00, 05, 06, 07, 00, 00, 00, 00],
    [00, 02, 00, 00, 00, 00, 00, 00, 00, 00],
    [00, 03, 00, 00, 00, 00, 00, 00, 00, 00],
    [00, 04, 00, 00, 15, 16, 00, 00, 14, 00],
    [00, 00, 00, 00, 00, 00, 00, 00, 13, 00],
    [00, 00, 00, 17, 00, 00, 10, 00, 00, 00],
    [00, 18, 00, 00, 00, 00, 09, 00, 11, 00],
    [00, 00, 00, 00, 00, 00, 08, 00, 12, 00],
];

pub fn game_6() -> (r: Setup)
    ensures
        is_transpose(r, GAME_1),
{
    transpose(GAME_1)
}

pub fn game_7() -> (r: Setup)
    ensures
        is_transpose(r, GAME_2),
{
    transpose(GAME_2)
}

pub fn game_8() -> (r: Setup)
    ensures
        is_transpose(r, GAME_3),
{
    transpose(GAME_3)
}

pub fn game_9() -> (r: Setup)
    ensures
        is_transpose(r, GAME_4),
{
    transpose(GAME_4)
}

pub fn game_10() -> (r: Setup)
    ensures
        is_transpose(r, GAME_5),
{
    transpose(GAME_5)
}

pub fn game_11() -> (r: Setup)
    ensures
        is_row_mirror(r, GAME_1),
{
    reverse_rows(GAME_1)
}

pub fn game_12() -> (r: Setup)
    ensures
        is_row_mirror(r, GAME_2),
{
    reverse_rows(GAME_2)
}

pub fn game_13() -> (r: Setup)
    ensures
        is_row_mirror(r, GAME_3),
{
    reverse_rows(GAME_3)
}

pub fn game_14() -> (r: Setup)
    ensures
        is_row_mirror(r, GAME_4),
{
    reverse_rows(GAME_4)
}

pub fn game_15() -> (r: Setup)
    ensures
        is_row_mirror(r, GAME_5),
{
    reverse_rows(GAME_5)
}

pub fn game_16() -> (r: Setup)
    ensures
        is_transpose_row_mirror(r, GAME_1),
{
    let m = reverse_rows(GAME_1);
    let r = transpose(m);
    proof {
        lemma_transpose_of_row_mirror(GAME_1, m, r);
    }
    r
}

pub fn game_17() -> (r: Setup)
    ensures
        is_transpose_row_mirror(r, GAME_2),
{
    let m = reverse_rows(GAME_2);
    let r = transpose(m);
    proof {
        lemma_transpose_of_row_mirror(GAME_2, m, r);
    }
    r
}

pub fn game_18() -> (r: Setup)
    ensures
        is_transpose_row_mirror(r, GAME_3),
{
    let m = reverse_rows(GAME_3);
    let r = transpose(m);
    proof {
        lemma_transpose_of_row_mirror(GAME_3, m, r);
    }
    r
}

pub fn game_19() -> (r: Setup)
    ensures
        is_transpose_row_mirror(r, GAME_4),
{
    let m = reverse_rows(GAME_4);
    let r = transpose(m);
    proof {
        lemma_transpose_of_row_mirror(GAME_4, m, r);
    }
    r
}

pub fn game_20() -> (r: Setup)
    ensures
        is_transpose_row_mirror(r, GAME_5),
{
    let m = reverse_rows(GAME_5);
    let r = transpose(m);
    proof {
        lemma_transpose_of_row_mirror(GAME_5, m, r);
    }
    r
}

pub fn game_21() -> (r: Setup)
    ensures
        is_col_mirror(r, GAME_1),
{
    reverse_cols(GAME_1)
}

pub fn game_22() -> (r: Setup)
    ensures
        is_col_mirror(r, GAME_2),
{
    reverse_cols(GAME_2)
}

pub fn game_23() -> (r: Setup)
    ensures
        is_col_mirror(r, GAME_3),
{
    reverse_cols(GAME_3)
}

pub fn game_24() -> (r: Setup)
    ensures
        is_col_mirror(r, GAME_4),
{
    reverse_cols(GAME_4)
}

pub fn game_25() -> (r: Setup)
    ensures
        is_col_mirror(r, GAME_5),
{
    reverse_cols(GAME_5)
}

pub fn game_26() -> (r: Setup)
    ensures
        is_transpose_col_mirror(r, GAME_1),
{
    let m = reverse_cols(GAME_1);
    let r = transpose(m);
    proof {
        lemma_transpose_of_col_mirror(GAME_1, m, r);
    }
    r
}

pub fn game_27() -> (r: Setup)
    ensures
        is_transpose_col_mirror(r, GAME_2),
{
    let m = reverse_cols(GAME_2);
    let r = transpose(m);
    proof {
        lemma_transpose_of_col_mirror(GAME_2, m, r);
    }
    r
}

pub fn game_28() -> (r: Setup)
    ensures
        is_transpose_col_mirror(r, GAME_3),
{
    let m = reverse_cols(GAME_3);
    let r = transpose(m);
    proof {
        lemma_transpose_of_col_mirror(GAME_3, m, r);
    }
    r
}

pub fn game_29() -> (r: Setup)
    ensures
        is_transpose_col_mirror(r, GAME_4),
{
    let m = reverse_cols(GAME_4);
    let r = transpose(m);
    proof {
        lemma_transpose_of_col_mirror(GAME_4, m, r);
    }
    r
}

pub fn game_30() -> (r: Setup)
    ensures
        is_transpose_col_mirror(r, GAME_5),
{
    let m = reverse_cols(GAME_5);
    let r = transpose(m);
    proof {
        lemma_transpose_of_col_mirror(GAME_5, m, r);
    }
    r
}

} // verus!
