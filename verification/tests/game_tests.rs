use battleship::catalog::{build_all, lookup, CreateFormat, HintFormat, ID_GAME_1, ID_GAME_2};
use battleship::grid::Coord;
use battleship::nonempty::{to_non_empty_list, NonEmptyList};
use battleship::occupancy::OccupiedCells;
use battleship::search::{find_hints, Searchable};
use battleship::solve::{Check, IsSolved};

fn game_1_coords() -> Vec<Coord> {
    vec![
        Coord { col: 0, row: 1 },
        Coord { col: 0, row: 4 },
        Coord { col: 2, row: 3 },
        Coord { col: 3, row: 6 },
        Coord { col: 3, row: 7 },
        Coord { col: 3, row: 8 },
        Coord { col: 5, row: 0 },
        Coord { col: 5, row: 2 },
        Coord { col: 5, row: 3 },
        Coord { col: 5, row: 4 },
        Coord { col: 5, row: 6 },
        Coord { col: 6, row: 0 },
        Coord { col: 7, row: 0 },
        Coord { col: 7, row: 7 },
        Coord { col: 7, row: 9 },
        Coord { col: 8, row: 0 },
        Coord { col: 8, row: 7 },
        Coord { col: 8, row: 9 },
        Coord { col: 9, row: 4 },
        Coord { col: 9, row: 5 },
    ]
}

#[test]
fn test_to_non_empty() {
    assert_eq!(to_non_empty_list::<u8>(&mut vec![]), None);
    assert_eq!(
        to_non_empty_list(&mut vec!['a']),
        Some(NonEmptyList {
            head: 'a',
            tail: None
        })
    );
    assert_eq!(
        to_non_empty_list(&mut vec![1, 2, 3]),
        Some(NonEmptyList {
            head: 1,
            tail: Some(Box::new(NonEmptyList {
                head: 2,
                tail: Some(Box::new(NonEmptyList {
                    head: 3,
                    tail: None
                }))
            }))
        })
    );
}

#[test]
fn test_to_non_empty_traversal() {
    let mut v = vec![4u8, 9, 2, 7];
    let list = to_non_empty_list(&mut v).unwrap();
    let mut walked: Vec<u8> = Vec::new();
    let mut node = &list;
    loop {
        walked.push(node.head);
        match &node.tail {
            Some(next) => node = next,
            None => break,
        }
    }
    assert_eq!(walked, vec![4, 9, 2, 7]);
}

#[test]
fn test_create_and_check() {
    let setups = build_all();
    let sf = lookup(&setups, ID_GAME_1).unwrap();
    assert!(matches!(sf.create_format, CreateFormat::List));
    assert!(matches!(sf.hint_format, HintFormat::Nested));

    let wrong = Check {
        coords: vec![Coord { col: 0, row: 0 }, Coord { col: 1, row: 1 }],
    };
    assert!(!wrong.solves(sf.setup));

    let full = Check {
        coords: game_1_coords(),
    };
    assert!(full.solves(sf.setup));
}

#[test]
fn test_solves_wrong_length() {
    let setups = build_all();
    let sf = lookup(&setups, ID_GAME_1).unwrap();

    let mut nineteen = game_1_coords();
    nineteen.pop();
    assert!(!Check { coords: nineteen }.solves(sf.setup));

    let mut twenty_one = game_1_coords();
    twenty_one.push(Coord { col: 9, row: 9 });
    assert!(!Check { coords: twenty_one }.solves(sf.setup));
}

#[test]
fn test_solves_swapped_coord() {
    let setups = build_all();
    let sf = lookup(&setups, ID_GAME_1).unwrap();
    let mut swapped = game_1_coords();
    // (9, 9) is not occupied on this board
    swapped[0] = Coord { col: 9, row: 9 };
    assert_eq!(swapped.len(), 20);
    assert!(!Check { coords: swapped }.solves(sf.setup));
}

#[test]
fn test_hints() {
    let setups = build_all();
    let sf = lookup(&setups, ID_GAME_2).unwrap();
    let hints = find_hints(&sf.setup, 3);
    assert_eq!(hints.len(), 3);
    assert_eq!(
        hints,
        vec![
            Coord { row: 6, col: 4 },
            Coord { row: 6, col: 5 },
            Coord { row: 6, col: 6 }
        ]
    );
}

#[test]
fn test_hints_limit_zero() {
    let setups = build_all();
    let sf = lookup(&setups, ID_GAME_2).unwrap();
    let hints = find_hints(&sf.setup, 0);
    assert!(hints.is_empty());
}

#[test]
fn test_create_nested() {
    let setups = build_all();
    let sf = lookup(&setups, ID_GAME_2).unwrap();
    assert!(matches!(sf.create_format, CreateFormat::Nested));
    let cols = to_non_empty_list(&mut sf.setup.occupied_cols().to_vec()).unwrap();
    let rows = to_non_empty_list(&mut sf.setup.occupied_rows().to_vec()).unwrap();
    assert_eq!(cols.head, 0);
    assert_eq!(rows.head, 1);
}

#[test]
fn test_hints_nested() {
    let setups = build_all();
    let sf = lookup(&setups, ID_GAME_1).unwrap();
    let mut hints = find_hints(&sf.setup, 3);
    let nested = to_non_empty_list(&mut hints);
    assert_eq!(
        nested,
        Some(NonEmptyList {
            head: Coord { row: 0, col: 8 },
            tail: Some(Box::new(NonEmptyList {
                head: Coord { row: 0, col: 7 },
                tail: Some(Box::new(NonEmptyList {
                    head: Coord { row: 0, col: 6 },
                    tail: None
                }))
            }))
        })
    );
}

#[test]
fn test_find_position() {
    let setups = build_all();
    let sf = lookup(&setups, ID_GAME_1).unwrap();
    assert_eq!(sf.setup.find_position(1), Some((0, 8)));
    assert_eq!(sf.setup.find_position(20), Some((6, 5)));
    assert_eq!(sf.setup.find_position(21), None);
}

#[test]
fn test_lookup_unknown() {
    let setups = build_all();
    assert!(lookup(&setups, 42).is_none());
}
