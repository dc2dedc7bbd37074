use battleship::boards::{GAME_0, GAME_1, GAME_2};
use battleship::catalog::{build_all, catalog_entries, catalog_size};
use battleship::grid::{reverse_cols, reverse_rows, transpose, Setup};
use battleship::occupancy::OccupiedCells;
use battleship::render::render_board;

fn check_single_game(setup: Setup) {
    let mut flat: Vec<u8> = Vec::with_capacity(100);
    for row in setup {
        flat.append(&mut row.to_vec());
    }
    assert_eq!(flat.len(), 100);

    let mut zeros: Vec<u8> = flat.clone().into_iter().filter(|e| *e == 0).collect();
    zeros.dedup();
    assert_eq!(zeros, vec![0]);

    let mut non_zero: Vec<u8> = flat.clone().into_iter().filter(|e| *e > 0).collect();
    non_zero.sort();
    let range: Vec<u8> = (1..=20).collect();
    assert_eq!(non_zero, range);

    // corners do not touch
    for i in 1..9 {
        for j in 1..9 {
            if setup[i][j] != 0 {
                assert_eq!(setup[i - 1][j - 1], 0);
                assert_eq!(setup[i - 1][j + 1], 0);
                assert_eq!(setup[i + 1][j - 1], 0);
                assert_eq!(setup[i + 1][j + 1], 0);
            }
        }
    }
}

#[test]
fn test_transpose() {
    let result: Setup = [
        [00, 00, 08, 09, 10, 00, 11, 12, 00, 00],
        [07, 00, 00, 00, 00, 00, 00, 00, 00, 13],
        [06, 00, 00, 00, 00, 00, 00, 00, 00, 14],
        [05, 00, 00, 04, 00, 00, 00, 00, 00, 00],
        [00, 00, 00, 03, 00, 00, 00, 00, 00, 15],
        [00, 00, 00, 02, 00, 00, 00, 00, 00, 16],
        [00, 00, 00, 01, 00, 00, 00, 00, 00, 00],
        [00, 00, 00, 00, 00, 00, 00, 00, 00, 17],
        [00, 00, 00, 00, 00, 00, 00, 00, 00, 00],
        [00, 00, 00, 20, 00, 19, 00, 00, 18, 00],
    ];
    assert_eq!(transpose(GAME_0), result);
}

#[test]
fn test_reverse_rows() {
    let result: Setup = [
        [00, 13, 14, 00, 15, 16, 00, 17, 00, 00],
        [00, 00, 00, 00, 00, 00, 00, 00, 00, 18],
        [12, 00, 00, 00, 00, 00, 00, 00, 00, 00],
        [11, 00, 00, 00, 00, 00, 00, 00, 00, 00],
        [00, 00, 00, 00, 00, 00, 00, 00, 00, 19],
        [10, 00, 00, 00, 00, 00, 00, 00, 00, 00],
        [09, 00, 00, 04, 03, 02, 01, 00, 00, 20],
        [08, 00, 00, 00, 00, 00, 00, 00, 00, 00],
        [00, 00, 00, 00, 00, 00, 00, 00, 00, 00],
        [00, 07, 06, 05, 00, 00, 00, 00, 00, 00],
    ];
    assert_eq!(reverse_rows(GAME_0), result);
}

#[test]
fn test_reverse_cols() {
    let result: Setup = [
        [00, 00, 00, 00, 00, 00, 05, 06, 07, 00],
        [00, 00, 00, 00, 00, 00, 00, 00, 00, 00],
        [00, 00, 00, 00, 00, 00, 00, 00, 00, 08],
        [20, 00, 00, 01, 02, 03, 04, 00, 00, 09],
        [00, 00, 00, 00, 00, 00, 00, 00, 00, 10],
        [19, 00, 00, 00, 00, 00, 00, 00, 00, 00],
        [00, 00, 00, 00, 00, 00, 00, 00, 00, 11],
        [00, 00, 00, 00, 00, 00, 00, 00, 00, 12],
        [18, 00, 00, 00, 00, 00, 00, 00, 00, 00],
        [00, 00, 17, 00, 16, 15, 00, 14, 13, 00],
    ];
    assert_eq!(reverse_cols(GAME_0), result);
}

#[test]
fn test_game_1() {
    check_single_game(GAME_1);
    check_single_game(GAME_2);
}

#[test]
fn test_quantity() {
    let setups = build_all();
    assert_eq!(catalog_size(&setups), 31);
}

#[test]
fn test_non_equal() {
    assert_eq!(GAME_0, GAME_0);
    assert_ne!(GAME_0, GAME_1);
    assert_eq!(reverse_rows(reverse_rows(GAME_0)), GAME_0);
    let setups = build_all();
    let entries = catalog_entries(&setups);
    assert_eq!(entries.len(), 31);
    for a in 0..entries.len() {
        for b in (a + 1)..entries.len() {
            assert_ne!(entries[a].1.setup, entries[b].1.setup);
        }
    }
}

#[test]
fn test_all_catalog_boards_valid() {
    let setups = build_all();
    let entries = catalog_entries(&setups);
    assert_eq!(entries.len(), 31);
    for entry in &entries {
        let setup = entry.1.setup;
        check_single_game(setup);
        let rows = setup.occupied_rows();
        let cols = setup.occupied_cols();
        let row_sum: u32 = rows.iter().map(|c| *c as u32).sum();
        let col_sum: u32 = cols.iter().map(|c| *c as u32).sum();
        assert_eq!(row_sum, 20);
        assert_eq!(col_sum, 20);
    }
}

#[test]
fn test_occupied_counts() {
    let rows = GAME_0.occupied_rows();
    assert_eq!(rows, [3, 0, 1, 6, 1, 1, 1, 1, 1, 5]);
    let cols = GAME_0.occupied_cols();
    assert_eq!(cols, [5, 2, 2, 2, 2, 2, 1, 1, 0, 3]);
}

#[test]
fn test_render_board() {
    let text = render_board(&GAME_0).unwrap();
    let expected = " 0123456789\n0 ###      \n1          \n2#         \n3#  ####  #\n4#         \n5         #\n6#         \n7#         \n8         #\n9 ## ## #  ";
    assert_eq!(text, expected);
}

#[test]
fn test_involutions() {
    assert_eq!(transpose(transpose(GAME_1)), GAME_1);
    assert_eq!(reverse_rows(reverse_rows(GAME_1)), GAME_1);
    assert_eq!(reverse_cols(reverse_cols(GAME_1)), GAME_1);
}
