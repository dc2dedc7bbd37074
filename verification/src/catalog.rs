use vstd::prelude::*;

use crate::boards::{
    game_10, game_11, game_12, game_13, game_14, game_15, game_16, game_17, game_18, game_19,
    game_20, game_21, game_22, game_23, game_24, game_25, game_26, game_27, game_28, game_29,
    game_30, game_6, game_7, game_8, game_9, GAME_0, GAME_1, GAME_2, GAME_3, GAME_4, GAME_5,
};
use crate::grid::{
    is_col_mirror, is_row_mirror, is_transpose, is_transpose_col_mirror, is_transpose_row_mirror,
    Setup,
};

verus! {

broadcast use vstd::map::group_map_axioms, vstd::set::group_set_axioms, vstd::set_lib::group_set_lib_default;

/// Which shape the new-game response takes for a board.
#[derive(Clone, Copy, PartialEq, Eq, Structural, Debug)]
pub enum CreateFormat {
    List,
    Nested,
}

/// Which shape the hint response takes for a board.
#[derive(Clone, Copy, PartialEq, Eq, Structural, Debug)]
pub enum HintFormat {
    List,
    Nested,
}

/// A catalog entry: a board together with its response-format preferences.
#[derive(Clone, Copy, PartialEq, Debug)]
pub struct SetupFormat {
    pub create_format: CreateFormat,
    pub hint_format: HintFormat,
    pub setup: Setup,
}

/// The board catalog: an immutable mapping from 128-bit board identifiers
/// to boards with their format preferences.
pub type Setups = im::HashMap<u128, SetupFormat>;

#[verifier::external_type_specification]
#[verifier::external_body]
#[verifier::reject_recursive_types(K)]
#[verifier::reject_recursive_types(V)]
#[verifier::reject_recursive_types(S)]
pub struct ExImHashMap<K, V, S>(im::HashMap<K, V, S>);

/// The entries a catalog value holds.
pub uninterp spec fn setups_map(m: Setups) -> Map<u128, SetupFormat>;

/// The contents of a catalog that holds nothing.
pub open spec fn no_setups() -> Map<u128, SetupFormat> {
    Map::empty()
}

/// Relies on im::HashMap::new: a fresh map holds no entry.
#[verifier::external_body]
fn setups_new() -> (r: Setups)
    ensures
        setups_map(r) == no_setups(),
{
    im::HashMap::new()
}

/// Relies on im::HashMap::insert: the entry is added, overwriting any
/// previous entry under the same key.
#[verifier::external_body]
fn setups_insert(m: &mut Setups, k: u128, v: SetupFormat)
    ensures
        setups_map(*final(m)) == setups_map(*old(m)).insert(k, v),
{
    m.insert(k, v);
}

/// Relies on im::HashMap::get: the value stored under the key, if any.
#[verifier::external_body]
fn setups_get(m: &Setups, k: u128) -> (r: Option<SetupFormat>)
    ensures
        setups_map(*m).contains_key(k) ==> r == Some(setups_map(*m)[k]),
        !setups_map(*m).contains_key(k) ==> r is None,
{
    m.get(&k).copied()
}

/// Relies on im::HashMap::len: the number of entries.
#[verifier::external_body]
fn setups_len(m: &Setups) -> (r: usize)
    ensures
        r as int == setups_map(*m).dom().len(),
{
    m.len()
}

/// Relies on im::HashMap::iter: every entry appears exactly once, in an
/// order the crate leaves unspecified.
#[verifier::external_body]
fn setups_entry_list(m: &Setups) -> (r: Vec<(u128, SetupFormat)>)
    ensures
        r@.len() == setups_map(*m).dom().len(),
        forall|idx: int|
            0 <= idx < r@.len() ==> setups_map(*m).contains_pair(
                #[trigger] r@[idx].0,
                r@[idx].1,
            ),
        forall|a: int, b: int| 0 <= a < b < r@.len() ==> r@[a].0 != r@[b].0,
{
    m.iter().map(|(k, v)| (*k, *v)).collect()
}

pub const ID_GAME_0: u128 = 0x5109c2b17c4d4f569be2f6675c968331;
pub const ID_GAME_1: u128 = 0xdd8fb49072c8485baeea537b9be34e4b;
pub const ID_GAME_2: u128 = 0x37073150f43d460994ecdcbeffcb472a;
pub const ID_GAME_3: u128 = 0x3a7a8f44b22440ff9c5c58a1b60eab4b;
pub const ID_GAME_4: u128 = 0x81520eec47d643daa6922926a3dc2871;
pub const ID_GAME_5: u128 = 0x63dac12b2afa49e0b133edce3955b49a;
pub const ID_GAME_6: u128 = 0x399165ec72cc43f2ba416f19f89afcf3;
pub const ID_GAME_7: u128 = 0xd8ad5555cd704b519d7393272950178d;
pub const ID_GAME_8: u128 = 0x31f1c720e0e747e7be5ca94d32e1088d;
pub const ID_GAME_9: u128 = 0x37a5acdf6d9b4de1b4f16647fbb6feb0;
pub const ID_GAME_10: u128 = 0xa087ab92a5bd4e1fb61dda27c355279e;
pub const ID_GAME_11: u128 = 0xa470fa68cc2d429580b7411869b65ddb;
pub const ID_GAME_12: u128 = 0x685023f9ebcb499c96c85a88bfbfb14d;
pub const ID_GAME_13: u128 = 0xbb63cffdb5cc4803a03f40922646d0d4;
pub const ID_GAME_14: u128 = 0x0de28b51e8ef41d5a1e6131b51c4a638;
pub const ID_GAME_15: u128 = 0x06d6bab1ff174c9e8861e6ae4b227b86;
pub const ID_GAME_16: u128 = 0x2c89e73ec9c848daa11c55e61145ab19;
pub const ID_GAME_17: u128 = 0x4c182bafe244431f95825eed5345d89f;
pub const ID_GAME_18: u128 = 0x1c5abf4c1b8844469ac230c43cacba2a;
pub const ID_GAME_19: u128 = 0x9cfda689fee44a87b82b49dd379f3cad;
pub const ID_GAME_20: u128 = 0xb2f24476c8ae47bb9d8d432de66c5cfa;
pub const ID_GAME_21: u128 = 0x2eebb87bb86a4b368c1912a145131d02;
pub const ID_GAME_22: u128 = 0x90bdd6f153024ba087d70f84b9657bc7;
pub const ID_GAME_23: u128 = 0x726f27ee8d354e1b8e6052a3c283a0e4;
pub const ID_GAME_24: u128 = 0xb365cb2835784b70a0b54b2983ead286;
pub const ID_GAME_25: u128 = 0x3fcc9068e55e4054a0802d5994a40f62;
pub const ID_GAME_26: u128 = 0xe998c9388a22408494b202b01bcc8c12;
pub const ID_GAME_27: u128 = 0xd12d3fdfb8c147e28c133a1415bea7b8;
pub const ID_GAME_28: u128 = 0xd3993d51041d4c86aa69a6eb85c41e11;
pub const ID_GAME_29: u128 = 0x4a3df0e39e6d4baea2f402f23bad933f;
pub const ID_GAME_30: u128 = 0x2320ab5f72ff4dcf976af085401c70e0;

/// The identifiers of the 31 catalog boards.
pub open spec fn catalog_ids() -> Set<u128> {
    set![
        ID_GAME_0,
        ID_GAME_1,
        ID_GAME_2,
        ID_GAME_3,
        ID_GAME_4,
        ID_GAME_5,
        ID_GAME_6,
        ID_GAME_7,
        ID_GAME_8,
        ID_GAME_9,
        ID_GAME_10,
        ID_GAME_11,
        ID_GAME_12,
        ID_GAME_13,
        ID_GAME_14,
        ID_GAME_15,
        ID_GAME_16,
        ID_GAME_17,
        ID_GAME_18,
        ID_GAME_19,
        ID_GAME_20,
        ID_GAME_21,
        ID_GAME_22,
        ID_GAME_23,
        ID_GAME_24,
        ID_GAME_25,
        ID_GAME_26,
        ID_GAME_27,
        ID_GAME_28,
        ID_GAME_29,
        ID_GAME_30,
    ]
}

/// A catalog entry with the given format flags.
pub open spec fn entry_has_formats(e: SetupFormat, cf: CreateFormat, hf: HintFormat) -> bool {
    e.create_format == cf && e.hint_format == hf
}

/// What the built catalog holds: the six hand-authored boards and the 25
/// transform-derived variants, each under its identifier with its format
/// flags.
pub open spec fn catalog_ok(m: Map<u128, SetupFormat>) -> bool {
    &&& m.dom().finite()
    &&& m.dom() == catalog_ids()
    &&& entry_has_formats(m[ID_GAME_0], CreateFormat::Nested, HintFormat::Nested)
    &&& m[ID_GAME_0].setup == GAME_0
    &&& entry_has_formats(m[ID_GAME_1], CreateFormat::List, HintFormat::Nested)
    &&& m[ID_GAME_1].setup == GAME_1
    &&& entry_has_formats(m[ID_GAME_2], CreateFormat::Nested, HintFormat::List)
    &&& m[ID_GAME_2].setup == GAME_2
    &&& entry_has_formats(m[ID_GAME_3], CreateFormat::List, HintFormat::Nested)
    &&& m[ID_GAME_3].setup == GAME_3
    &&& entry_has_formats(m[ID_GAME_4], CreateFormat::Nested, HintFormat::List)
    &&& m[ID_GAME_4].setup == GAME_4
    &&& entry_has_formats(m[ID_GAME_5], CreateFormat::List, HintFormat::Nested)
    &&& m[ID_GAME_5].setup == GAME_5
    &&& entry_has_formats(m[ID_GAME_6], CreateFormat::Nested, HintFormat::List)
    &&& is_transpose(m[ID_GAME_6].setup, GAME_1)
    &&& entry_has_formats(m[ID_GAME_7], CreateFormat::List, HintFormat::Nested)
    &&& is_transpose(m[ID_GAME_7].setup, GAME_2)
    &&& entry_has_formats(m[ID_GAME_8], CreateFormat::Nested, HintFormat::List)
    &&& is_transpose(m[ID_GAME_8].setup, GAME_3)
    &&& entry_has_formats(m[ID_GAME_9], CreateFormat::List, HintFormat::Nested)
    &&& is_transpose(m[ID_GAME_9].setup, GAME_4)
    &&& entry_has_formats(m[ID_GAME_10], CreateFormat::Nested, HintFormat::List)
    &&& is_transpose(m[ID_GAME_10].setup, GAME_5)
    &&& entry_has_formats(m[ID_GAME_11], CreateFormat::List, HintFormat::Nested)
    &&& is_row_mirror(m[ID_GAME_11].setup, GAME_1)
    &&& entry_has_formats(m[ID_GAME_12], CreateFormat::Nested, HintFormat::List)
    &&& is_row_mirror(m[ID_GAME_12].setup, GAME_2)
    &&& entry_has_formats(m[ID_GAME_13], CreateFormat::List, HintFormat::Nested)
    &&& is_row_mirror(m[ID_GAME_13].setup, GAME_3)
    &&& entry_has_formats(m[ID_GAME_14], CreateFormat::Nested, HintFormat::List)
    &&& is_row_mirror(m[ID_GAME_14].setup, GAME_4)
    &&& entry_has_formats(m[ID_GAME_15], CreateFormat::List, HintFormat::Nested)
    &&& is_row_mirror(m[ID_GAME_15].setup, GAME_5)
    &&& entry_has_formats(m[ID_GAME_16], CreateFormat::Nested, HintFormat::List)
    &&& is_transpose_row_mirror(m[ID_GAME_16].setup, GAME_1)
    &&& entry_has_formats(m[ID_GAME_17], CreateFormat::List, HintFormat::Nested)
    &&& is_transpose_row_mirror(m[ID_GAME_17].setup, GAME_2)
    &&& entry_has_formats(m[ID_GAME_18], CreateFormat::Nested, HintFormat::List)
    &&& is_transpose_row_mirror(m[ID_GAME_18].setup, GAME_3)
    &&& entry_has_formats(m[ID_GAME_19], CreateFormat::List, HintFormat::Nested)
    &&& is_transpose_row_mirror(m[ID_GAME_19].setup, GAME_4)
    &&& entry_has_formats(m[ID_GAME_20], CreateFormat::Nested, HintFormat::List)
    &&& is_transpose_row_mirror(m[ID_GAME_20].setup, GAME_5)
    &&& entry_has_formats(m[ID_GAME_21], CreateFormat::List, HintFormat::Nested)
    &&& is_col_mirror(m[ID_GAME_21].setup, GAME_1)
    &&& entry_has_formats(m[ID_GAME_22], CreateFormat::Nested, HintFormat::List)
    &&& is_col_mirror(m[ID_GAME_22].setup, GAME_2)
    &&& entry_has_formats(m[ID_GAME_23], CreateFormat::List, HintFormat::Nested)
    &&& is_col_mirror(m[ID_GAME_23].setup, GAME_3)
    &&& entry_has_formats(m[ID_GAME_24], CreateFormat::Nested, HintFormat::List)
    &&& is_col_mirror(m[ID_GAME_24].setup, GAME_4)
    &&& entry_has_formats(m[ID_GAME_25], CreateFormat::List, HintFormat::Nested)
    &&& is_col_mirror(m[ID_GAME_25].setup, GAME_5)
    &&& entry_has_formats(m[ID_GAME_26], CreateFormat::Nested, HintFormat::List)
    &&& is_transpose_col_mirror(m[ID_GAME_26].setup, GAME_1)
    &&& entry_has_formats(m[ID_GAME_27], CreateFormat::List, HintFormat::Nested)
    &&& is_transpose_col_mirror(m[ID_GAME_27].setup, GAME_2)
    &&& entry_has_formats(m[ID_GAME_28], CreateFormat::Nested, HintFormat::List)
    &&& is_transpose_col_mirror(m[ID_GAME_28].setup, GAME_3)
    &&& entry_has_formats(m[ID_GAME_29], CreateFormat::List, HintFormat::Nested)
    &&& is_transpose_col_mirror(m[ID_GAME_29].setup, GAME_4)
    &&& entry_has_formats(m[ID_GAME_30], CreateFormat::Nested, HintFormat::List)
    &&& is_transpose_col_mirror(m[ID_GAME_30].setup, GAME_5)
}

/// Build the full catalog: each board under its identifier, with its
/// response-format preferences.
pub fn build_all() -> (r: Setups)
    ensures
        catalog_ok(setups_map(r)),
{
    let mut m = setups_new();
    setups_insert(
        &mut m,
        ID_GAME_0,
        SetupFormat {
            create_format: CreateFormat::Nested,
            hint_format: HintFormat::Nested,
            setup: GAME_0,
        },
    );
    setups_insert(
        &mut m,
        ID_GAME_1,
        SetupFormat {
            create_format: CreateFormat::List,
            hint_format: HintFormat::Nested,
            setup: GAME_1,
        },
    );
    setups_insert(
        &mut m,
        ID_GAME_2,
        SetupFormat {
            create_format: CreateFormat::Nested,
            hint_format: HintFormat::List,
            setup: GAME_2,
        },
    );
    setups_insert(
        &mut m,
        ID_GAME_3,
        SetupFormat {
            create_format: CreateFormat::List,
            hint_format: HintFormat::Nested,
            setup: GAME_3,
        },
    );
    setups_insert(
        &mut m,
        ID_GAME_4,
        SetupFormat {
            create_format: CreateFormat::Nested,
            hint_format: HintFormat::List,
            setup: GAME_4,
        },
    );
    setups_insert(
        &mut m,
        ID_GAME_5,
        SetupFormat {
            create_format: CreateFormat::List,
            hint_format: HintFormat::Nested,
            setup: GAME_5,
        },
    );
    setups_insert(
        &mut m,
        ID_GAME_6,
        SetupFormat {
            create_format: CreateFormat::Nested,
            hint_format: HintFormat::List,
            setup: game_6(),
        },
    );
    setups_insert(
        &mut m,
        ID_GAME_7,
        SetupFormat {
            create_format: CreateFormat::List,
            hint_format: HintFormat::Nested,
            setup: game_7(),
        },
    );
    setups_insert(
        &mut m,
        ID_GAME_8,
        SetupFormat {
            create_format: CreateFormat::Nested,
            hint_format: HintFormat::List,
            setup: game_8(),
        },
    );
    setups_insert(
        &mut m,
        ID_GAME_9,
        SetupFormat {
            create_format: CreateFormat::List,
            hint_format: HintFormat::Nested,
            setup: game_9(),
        },
    );
    setups_insert(
        &mut m,
        ID_GAME_10,
        SetupFormat {
            create_format: CreateFormat::Nested,
            hint_format: HintFormat::List,
            setup: game_10(),
        },
    );
    setups_insert(
        &mut m,
        ID_GAME_11,
        SetupFormat {
            create_format: CreateFormat::List,
            hint_format: HintFormat::Nested,
            setup: game_11(),
        },
    );
    setups_insert(
        &mut m,
        ID_GAME_12,
        SetupFormat {
            create_format: CreateFormat::Nested,
            hint_format: HintFormat::List,
            setup: game_12(),
        },
    );
    setups_insert(
        &mut m,
        ID_GAME_13,
        SetupFormat {
            create_format: CreateFormat::List,
            hint_format: HintFormat::Nested,
            setup: game_13(),
        },
    );
    setups_insert(
        &mut m,
        ID_GAME_14,
        SetupFormat {
            create_format: CreateFormat::Nested,
            hint_format: HintFormat::List,
            setup: game_14(),
        },
    );
    setups_insert(
        &mut m,
        ID_GAME_15,
        SetupFormat {
            create_format: CreateFormat::List,
            hint_format: HintFormat::Nested,
            setup: game_15(),
        },
    );
    setups_insert(
        &mut m,
        ID_GAME_16,
        SetupFormat {
            create_format: CreateFormat::Nested,
            hint_format: HintFormat::List,
            setup: game_16(),
        },
    );
    setups_insert(
        &mut m,
        ID_GAME_17,
        SetupFormat {
            create_format: CreateFormat::List,
            hint_format: HintFormat::Nested,
            setup: game_17(),
        },
    );
    setups_insert(
        &mut m,
        ID_GAME_18,
        SetupFormat {
            create_format: CreateFormat::Nested,
            hint_format: HintFormat::List,
            setup: game_18(),
        },
    );
    setups_insert(
        &mut m,
        ID_GAME_19,
        SetupFormat {
            create_format: CreateFormat::List,
            hint_format: HintFormat::Nested,
            setup: game_19(),
        },
    );
    setups_insert(
        &mut m,
        ID_GAME_20,
        SetupFormat {
            create_format: CreateFormat::Nested,
            hint_format: HintFormat::List,
            setup: game_20(),
        },
    );
    setups_insert(
        &mut m,
        ID_GAME_21,
        SetupFormat {
            create_format: CreateFormat::List,
            hint_format: HintFormat::Nested,
            setup: game_21(),
        },
    );
    setups_insert(
        &mut m,
        ID_GAME_22,
        SetupFormat {
            create_format: CreateFormat::Nested,
            hint_format: HintFormat::List,
            setup: game_22(),
        },
    );
    setups_insert(
        &mut m,
        ID_GAME_23,
        SetupFormat {
            create_format: CreateFormat::List,
            hint_format: HintFormat::Nested,
            setup: game_23(),
        },
    );
    setups_insert(
        &mut m,
        ID_GAME_24,
        SetupFormat {
            create_format: CreateFormat::Nested,
            hint_format: HintFormat::List,
            setup: game_24(),
        },
    );
    setups_insert(
        &mut m,
        ID_GAME_25,
        SetupFormat {
            create_format: CreateFormat::List,
            hint_format: HintFormat::Nested,
            setup: game_25(),
        },
    );
    setups_insert(
        &mut m,
        ID_GAME_26,
        SetupFormat {
            create_format: CreateFormat::Nested,
            hint_format: HintFormat::List,
            setup: game_26(),
        },
    );
    setups_insert(
        &mut m,
        ID_GAME_27,
        SetupFormat {
            create_format: CreateFormat::List,
            hint_format: HintFormat::Nested,
            setup: game_27(),
        },
    );
    setups_insert(
        &mut m,
        ID_GAME_28,
        SetupFormat {
            create_format: CreateFormat::Nested,
            hint_format: HintFormat::List,
            setup: game_28(),
        },
    );
    setups_insert(
        &mut m,
        ID_GAME_29,
        SetupFormat {
            create_format: CreateFormat::List,
            hint_format: HintFormat::Nested,
            setup: game_29(),
        },
    );
    setups_insert(
        &mut m,
        ID_GAME_30,
        SetupFormat {
            create_format: CreateFormat::Nested,
            hint_format: HintFormat::List,
            setup: game_30(),
        },
    );
    proof {
        assert(setups_map(m).dom() =~= catalog_ids());
    }
    m
}

proof fn lemma_board_0_differs(m: Map<u128, SetupFormat>)
    requires
        catalog_ok(m),
    ensures
        m[ID_GAME_0].setup != m[ID_GAME_1].setup,
        m[ID_GAME_0].setup != m[ID_GAME_2].setup,
        m[ID_GAME_0].setup != m[ID_GAME_3].setup,
        m[ID_GAME_0].setup != m[ID_GAME_4].setup,
        m[ID_GAME_0].setup != m[ID_GAME_5].setup,
        m[ID_GAME_0].setup != m[ID_GAME_6].setup,
        m[ID_GAME_0].setup != m[ID_GAME_7].setup,
        m[ID_GAME_0].setup != m[ID_GAME_8].setup,
        m[ID_GAME_0].setup != m[ID_GAME_9].setup,
        m[ID_GAME_0].setup != m[ID_GAME_10].setup,
        m[ID_GAME_0].setup != m[ID_GAME_11].setup,
        m[ID_GAME_0].setup != m[ID_GAME_12].setup,
        m[ID_GAME_0].setup != m[ID_GAME_13].setup,
        m[ID_GAME_0].setup != m[ID_GAME_14].setup,
        m[ID_GAME_0].setup != m[ID_GAME_15].setup,
        m[ID_GAME_0].setup != m[ID_GAME_16].setup,
        m[ID_GAME_0].setup != m[ID_GAME_17].setup,
        m[ID_GAME_0].setup != m[ID_GAME_18].setup,
        m[ID_GAME_0].setup != m[ID_GAME_19].setup,
        m[ID_GAME_0].setup != m[ID_GAME_20].setup,
        m[ID_GAME_0].setup != m[ID_GAME_21].setup,
        m[ID_GAME_0].setup != m[ID_GAME_22].setup,
        m[ID_GAME_0].setup != m[ID_GAME_23].setup,
        m[ID_GAME_0].setup != m[ID_GAME_24].setup,
        m[ID_GAME_0].setup != m[ID_GAME_25].setup,
        m[ID_GAME_0].setup != m[ID_GAME_26].setup,
        m[ID_GAME_0].setup != m[ID_GAME_27].setup,
        m[ID_GAME_0].setup != m[ID_GAME_28].setup,
        m[ID_GAME_0].setup != m[ID_GAME_29].setup,
        m[ID_GAME_0].setup != m[ID_GAME_30].setup,
{
    assert(m[ID_GAME_0].setup[0][1] == 7);
    assert(m[ID_GAME_1].setup[0][1] == 0);
    assert(m[ID_GAME_2].setup[0][1] == 0);
    assert(m[ID_GAME_3].setup[0][1] == 0);
    assert(m[ID_GAME_4].setup[0][1] == 0);
    assert(m[ID_GAME_0].setup[0][0] == 0);
    assert(m[ID_GAME_5].setup[0][0] == 20);
    assert(m[ID_GAME_6].setup[0][1] == 17);
    assert(m[ID_GAME_7].setup[0][1] == 0);
    assert(m[ID_GAME_8].setup[0][1] == 0);
    assert(m[ID_GAME_9].setup[0][1] == 0);
    assert(m[ID_GAME_10].setup[0][0] == 20);
    assert(m[ID_GAME_11].setup[0][1] == 0);
    assert(m[ID_GAME_12].setup[0][1] == 18);
    assert(m[ID_GAME_13].setup[0][1] == 0);
    assert(m[ID_GAME_14].setup[0][1] == 0);
    assert(m[ID_GAME_15].setup[0][1] == 0);
    assert(m[ID_GAME_16].setup[0][1] == 0);
    assert(m[ID_GAME_17].setup[0][1] == 0);
    assert(m[ID_GAME_18].setup[0][1] == 0);
    assert(m[ID_GAME_19].setup[0][1] == 0);
    assert(m[ID_GAME_20].setup[0][1] == 0);
    assert(m[ID_GAME_21].setup[0][1] == 1);
    assert(m[ID_GAME_22].setup[0][1] == 20);
    assert(m[ID_GAME_23].setup[0][1] == 16);
    assert(m[ID_GAME_24].setup[0][0] == 20);
    assert(m[ID_GAME_25].setup[0][0] == 19);
    assert(m[ID_GAME_26].setup[0][1] == 0);
    assert(m[ID_GAME_27].setup[0][1] == 0);
    assert(m[ID_GAME_28].setup[0][1] == 0);
    assert(m[ID_GAME_29].setup[0][0] == 20);
    assert(m[ID_GAME_30].setup[0][0] == 19);
}

proof fn lemma_board_1_differs(m: Map<u128, SetupFormat>)
    requires
        catalog_ok(m),
    ensures
        m[ID_GAME_1].setup != m[ID_GAME_2].setup,
        m[ID_GAME_1].setup != m[ID_GAME_3].setup,
        m[ID_GAME_1].setup != m[ID_GAME_4].setup,
        m[ID_GAME_1].setup != m[ID_GAME_5].setup,
        m[ID_GAME_1].setup != m[ID_GAME_6].setup,
        m[ID_GAME_1].setup != m[ID_GAME_7].setup,
        m[ID_GAME_1].setup != m[ID_GAME_8].setup,
        m[ID_GAME_1].setup != m[ID_GAME_9].setup,
        m[ID_GAME_1].setup != m[ID_GAME_10].setup,
        m[ID_GAME_1].setup != m[ID_GAME_11].setup,
        m[ID_GAME_1].setup != m[ID_GAME_12].setup,
        m[ID_GAME_1].setup != m[ID_GAME_13].setup,
        m[ID_GAME_1].setup != m[ID_GAME_14].setup,
        m[ID_GAME_1].setup != m[ID_GAME_15].setup,
        m[ID_GAME_1].setup != m[ID_GAME_16].setup,
        m[ID_GAME_1].setup != m[ID_GAME_17].setup,
        m[ID_GAME_1].setup != m[ID_GAME_18].setup,
        m[ID_GAME_1].setup != m[ID_GAME_19].setup,
        m[ID_GAME_1].setup != m[ID_GAME_20].setup,
        m[ID_GAME_1].setup != m[ID_GAME_21].setup,
        m[ID_GAME_1].setup != m[ID_GAME_22].setup,
        m[ID_GAME_1].setup != m[ID_GAME_23].setup,
        m[ID_GAME_1].setup != m[ID_GAME_24].setup,
        m[ID_GAME_1].setup != m[ID_GAME_25].setup,
        m[ID_GAME_1].setup != m[ID_GAME_26].setup,
        m[ID_GAME_1].setup != m[ID_GAME_27].setup,
        m[ID_GAME_1].setup != m[ID_GAME_28].setup,
        m[ID_GAME_1].setup != m[ID_GAME_29].setup,
        m[ID_GAME_1].setup != m[ID_GAME_30].setup,
{
    assert(m[ID_GAME_1].setup[0][5] == 4);
    assert(m[ID_GAME_2].setup[0][5] == 0);
    assert(m[ID_GAME_3].setup[0][5] == 0);
    assert(m[ID_GAME_4].setup[0][5] == 0);
    assert(m[ID_GAME_1].setup[0][0] == 0);
    assert(m[ID_GAME_5].setup[0][0] == 20);
    assert(m[ID_GAME_1].setup[0][1] == 0);
    assert(m[ID_GAME_6].setup[0][1] == 17);
    assert(m[ID_GAME_7].setup[0][5] == 0);
    assert(m[ID_GAME_1].setup[0][2] == 0);
    assert(m[ID_GAME_8].setup[0][2] == 19);
    assert(m[ID_GAME_9].setup[0][5] == 8);
    assert(m[ID_GAME_10].setup[0][0] == 20);
    assert(m[ID_GAME_11].setup[0][5] == 0);
    assert(m[ID_GAME_12].setup[0][1] == 18);
    assert(m[ID_GAME_13].setup[0][5] == 0);
    assert(m[ID_GAME_14].setup[0][2] == 12);
    assert(m[ID_GAME_15].setup[0][5] == 0);
    assert(m[ID_GAME_16].setup[0][5] == 18);
    assert(m[ID_GAME_17].setup[0][5] == 0);
    assert(m[ID_GAME_1].setup[0][4] == 0);
    assert(m[ID_GAME_18].setup[0][4] == 18);
    assert(m[ID_GAME_19].setup[0][4] == 8);
    assert(m[ID_GAME_20].setup[0][5] == 0);
    assert(m[ID_GAME_21].setup[0][1] == 1);
    assert(m[ID_GAME_22].setup[0][1] == 20);
    assert(m[ID_GAME_23].setup[0][1] == 16);
    assert(m[ID_GAME_24].setup[0][0] == 20);
    assert(m[ID_GAME_25].setup[0][0] == 19);
    assert(m[ID_GAME_26].setup[0][4] == 15);
    assert(m[ID_GAME_27].setup[0][5] == 0);
    assert(m[ID_GAME_28].setup[0][4] == 8);
    assert(m[ID_GAME_29].setup[0][0] == 20);
    assert(m[ID_GAME_30].setup[0][0] == 19);
}

proof fn lemma_board_2_differs(m: Map<u128, SetupFormat>)
    requires
        catalog_ok(m),
    ensures
        m[ID_GAME_2].setup != m[ID_GAME_3].setup,
        m[ID_GAME_2].setup != m[ID_GAME_4].setup,
        m[ID_GAME_2].setup != m[ID_GAME_5].setup,
        m[ID_GAME_2].setup != m[ID_GAME_6].setup,
        m[ID_GAME_2].setup != m[ID_GAME_7].setup,
        m[ID_GAME_2].setup != m[ID_GAME_8].setup,
        m[ID_GAME_2].setup != m[ID_GAME_9].setup,
        m[ID_GAME_2].setup != m[ID_GAME_10].setup,
        m[ID_GAME_2].setup != m[ID_GAME_11].setup,
        m[ID_GAME_2].setup != m[ID_GAME_12].setup,
        m[ID_GAME_2].setup != m[ID_GAME_13].setup,
        m[ID_GAME_2].setup != m[ID_GAME_14].setup,
        m[ID_GAME_2].setup != m[ID_GAME_15].setup,
        m[ID_GAME_2].setup != m[ID_GAME_16].setup,
        m[ID_GAME_2].setup != m[ID_GAME_17].setup,
        m[ID_GAME_2].setup != m[ID_GAME_18].setup,
        m[ID_GAME_2].setup != m[ID_GAME_19].setup,
        m[ID_GAME_2].setup != m[ID_GAME_20].setup,
        m[ID_GAME_2].setup != m[ID_GAME_21].setup,
        m[ID_GAME_2].setup != m[ID_GAME_22].setup,
        m[ID_GAME_2].setup != m[ID_GAME_23].setup,
        m[ID_GAME_2].setup != m[ID_GAME_24].setup,
        m[ID_GAME_2].setup != m[ID_GAME_25].setup,
        m[ID_GAME_2].setup != m[ID_GAME_26].setup,
        m[ID_GAME_2].setup != m[ID_GAME_27].setup,
        m[ID_GAME_2].setup != m[ID_GAME_28].setup,
        m[ID_GAME_2].setup != m[ID_GAME_29].setup,
        m[ID_GAME_2].setup != m[ID_GAME_30].setup,
{
    assert(m[ID_GAME_2].setup[0][8] == 20);
    assert(m[ID_GAME_3].setup[0][8] == 16);
    assert(m[ID_GAME_2].setup[0][7] == 0);
    assert(m[ID_GAME_4].setup[0][7] == 19);
    assert(m[ID_GAME_2].setup[0][0] == 0);
    assert(m[ID_GAME_5].setup[0][0] == 20);
    assert(m[ID_GAME_2].setup[0][1] == 0);
    assert(m[ID_GAME_6].setup[0][1] == 17);
    assert(m[ID_GAME_7].setup[0][8] == 0);
    assert(m[ID_GAME_2].setup[0][2] == 0);
    assert(m[ID_GAME_8].setup[0][2] == 19);
    assert(m[ID_GAME_2].setup[0][5] == 0);
    assert(m[ID_GAME_9].setup[0][5] == 8);
    assert(m[ID_GAME_10].setup[0][0] == 20);
    assert(m[ID_GAME_11].setup[0][7] == 13);
    assert(m[ID_GAME_12].setup[0][1] == 18);
    assert(m[ID_GAME_13].setup[0][8] == 0);
    assert(m[ID_GAME_14].setup[0][2] == 12);
    assert(m[ID_GAME_2].setup[0][6] == 0);
    assert(m[ID_GAME_15].setup[0][6] == 8);
    assert(m[ID_GAME_16].setup[0][5] == 18);
    assert(m[ID_GAME_17].setup[0][8] == 0);
    assert(m[ID_GAME_2].setup[0][4] == 0);
    assert(m[ID_GAME_18].setup[0][4] == 18);
    assert(m[ID_GAME_19].setup[0][4] == 8);
    assert(m[ID_GAME_20].setup[0][8] == 0);
    assert(m[ID_GAME_21].setup[0][1] == 1);
    assert(m[ID_GAME_22].setup[0][1] == 20);
    assert(m[ID_GAME_23].setup[0][1] == 16);
    assert(m[ID_GAME_24].setup[0][0] == 20);
    assert(m[ID_GAME_25].setup[0][0] == 19);
    assert(m[ID_GAME_26].setup[0][4] == 15);
    assert(m[ID_GAME_27].setup[0][8] == 0);
    assert(m[ID_GAME_28].setup[0][4] == 8);
    assert(m[ID_GAME_29].setup[0][0] == 20);
    assert(m[ID_GAME_30].setup[0][0] == 19);
}

proof fn lemma_board_3_differs(m: Map<u128, SetupFormat>)
    requires
        catalog_ok(m),
    ensures
        m[ID_GAME_3].setup != m[ID_GAME_4].setup,
        m[ID_GAME_3].setup != m[ID_GAME_5].setup,
        m[ID_GAME_3].setup != m[ID_GAME_6].setup,
        m[ID_GAME_3].setup != m[ID_GAME_7].setup,
        m[ID_GAME_3].setup != m[ID_GAME_8].setup,
        m[ID_GAME_3].setup != m[ID_GAME_9].setup,
        m[ID_GAME_3].setup != m[ID_GAME_10].setup,
        m[ID_GAME_3].setup != m[ID_GAME_11].setup,
        m[ID_GAME_3].setup != m[ID_GAME_12].setup,
        m[ID_GAME_3].setup != m[ID_GAME_13].setup,
        m[ID_GAME_3].setup != m[ID_GAME_14].setup,
        m[ID_GAME_3].setup != m[ID_GAME_15].setup,
        m[ID_GAME_3].setup != m[ID_GAME_16].setup,
        m[ID_GAME_3].setup != m[ID_GAME_17].setup,
        m[ID_GAME_3].setup != m[ID_GAME_18].setup,
        m[ID_GAME_3].setup != m[ID_GAME_19].setup,
        m[ID_GAME_3].setup != m[ID_GAME_20].setup,
        m[ID_GAME_3].setup != m[ID_GAME_21].setup,
        m[ID_GAME_3].setup != m[ID_GAME_22].setup,
        m[ID_GAME_3].setup != m[ID_GAME_23].setup,
        m[ID_GAME_3].setup != m[ID_GAME_24].setup,
        m[ID_GAME_3].setup != m[ID_GAME_25].setup,
        m[ID_GAME_3].setup != m[ID_GAME_26].setup,
        m[ID_GAME_3].setup != m[ID_GAME_27].setup,
        m[ID_GAME_3].setup != m[ID_GAME_28].setup,
        m[ID_GAME_3].setup != m[ID_GAME_29].setup,
        m[ID_GAME_3].setup != m[ID_GAME_30].setup,
{
    assert(m[ID_GAME_3].setup[0][7] == 0);
    assert(m[ID_GAME_4].setup[0][7] == 19);
    assert(m[ID_GAME_3].setup[0][0] == 0);
    assert(m[ID_GAME_5].setup[0][0] == 20);
    assert(m[ID_GAME_3].setup[0][1] == 0);
    assert(m[ID_GAME_6].setup[0][1] == 17);
    assert(m[ID_GAME_3].setup[0][8] == 16);
    assert(m[ID_GAME_7].setup[0][8] == 0);
    assert(m[ID_GAME_3].setup[0][2] == 0);
    assert(m[ID_GAME_8].setup[0][2] == 19);
    assert(m[ID_GAME_3].setup[0][5] == 0);
    assert(m[ID_GAME_9].setup[0][5] == 8);
    assert(m[ID_GAME_10].setup[0][0] == 20);
    assert(m[ID_GAME_11].setup[0][7] == 13);
    assert(m[ID_GAME_12].setup[0][1] == 18);
    assert(m[ID_GAME_13].setup[0][8] == 0);
    assert(m[ID_GAME_14].setup[0][2] == 12);
    assert(m[ID_GAME_3].setup[0][6] == 0);
    assert(m[ID_GAME_15].setup[0][6] == 8);
    assert(m[ID_GAME_16].setup[0][5] == 18);
    assert(m[ID_GAME_17].setup[0][8] == 0);
    assert(m[ID_GAME_3].setup[0][4] == 0);
    assert(m[ID_GAME_18].setup[0][4] == 18);
    assert(m[ID_GAME_19].setup[0][4] == 8);
    assert(m[ID_GAME_20].setup[0][8] == 0);
    assert(m[ID_GAME_21].setup[0][1] == 1);
    assert(m[ID_GAME_22].setup[0][1] == 20);
    assert(m[ID_GAME_23].setup[0][1] == 16);
    assert(m[ID_GAME_24].setup[0][0] == 20);
    assert(m[ID_GAME_25].setup[0][0] == 19);
    assert(m[ID_GAME_26].setup[0][4] == 15);
    assert(m[ID_GAME_27].setup[0][8] == 0);
    assert(m[ID_GAME_28].setup[0][4] == 8);
    assert(m[ID_GAME_29].setup[0][0] == 20);
    assert(m[ID_GAME_30].setup[0][0] == 19);
}

proof fn lemma_board_4_differs(m: Map<u128, SetupFormat>)
    requires
        catalog_ok(m),
    ensures
        m[ID_GAME_4].setup != m[ID_GAME_5].setup,
        m[ID_GAME_4].setup != m[ID_GAME_6].setup,
        m[ID_GAME_4].setup != m[ID_GAME_7].setup,
        m[ID_GAME_4].setup != m[ID_GAME_8].setup,
        m[ID_GAME_4].setup != m[ID_GAME_9].setup,
        m[ID_GAME_4].setup != m[ID_GAME_10].setup,
        m[ID_GAME_4].setup != m[ID_GAME_11].setup,
        m[ID_GAME_4].setup != m[ID_GAME_12].setup,
        m[ID_GAME_4].setup != m[ID_GAME_13].setup,
        m[ID_GAME_4].setup != m[ID_GAME_14].setup,
        m[ID_GAME_4].setup != m[ID_GAME_15].setup,
        m[ID_GAME_4].setup != m[ID_GAME_16].setup,
        m[ID_GAME_4].setup != m[ID_GAME_17].setup,
        m[ID_GAME_4].setup != m[ID_GAME_18].setup,
        m[ID_GAME_4].setup != m[ID_GAME_19].setup,
        m[ID_GAME_4].setup != m[ID_GAME_20].setup,
        m[ID_GAME_4].setup != m[ID_GAME_21].setup,
        m[ID_GAME_4].setup != m[ID_GAME_22].setup,
        m[ID_GAME_4].setup != m[ID_GAME_23].setup,
        m[ID_GAME_4].setup != m[ID_GAME_24].setup,
        m[ID_GAME_4].setup != m[ID_GAME_25].setup,
        m[ID_GAME_4].setup != m[ID_GAME_26].setup,
        m[ID_GAME_4].setup != m[ID_GAME_27].setup,
        m[ID_GAME_4].setup != m[ID_GAME_28].setup,
        m[ID_GAME_4].setup != m[ID_GAME_29].setup,
        m[ID_GAME_4].setup != m[ID_GAME_30].setup,
{
    assert(m[ID_GAME_4].setup[0][0] == 0);
    assert(m[ID_GAME_5].setup[0][0] == 20);
    assert(m[ID_GAME_4].setup[0][1] == 0);
    assert(m[ID_GAME_6].setup[0][1] == 17);
    assert(m[ID_GAME_4].setup[0][7] == 19);
    assert(m[ID_GAME_7].setup[0][7] == 0);
    assert(m[ID_GAME_4].setup[0][2] == 0);
    assert(m[ID_GAME_8].setup[0][2] == 19);
    assert(m[ID_GAME_4].setup[0][5] == 0);
    assert(m[ID_GAME_9].setup[0][5] == 8);
    assert(m[ID_GAME_10].setup[0][0] == 20);
    assert(m[ID_GAME_11].setup[0][7] == 13);
    assert(m[ID_GAME_12].setup[0][1] == 18);
    assert(m[ID_GAME_13].setup[0][7] == 0);
    assert(m[ID_GAME_14].setup[0][2] == 12);
    assert(m[ID_GAME_4].setup[0][6] == 0);
    assert(m[ID_GAME_15].setup[0][6] == 8);
    assert(m[ID_GAME_16].setup[0][5] == 18);
    assert(m[ID_GAME_17].setup[0][7] == 0);
    assert(m[ID_GAME_4].setup[0][4] == 0);
    assert(m[ID_GAME_18].setup[0][4] == 18);
    assert(m[ID_GAME_19].setup[0][4] == 8);
    assert(m[ID_GAME_20].setup[0][7] == 0);
    assert(m[ID_GAME_21].setup[0][1] == 1);
    assert(m[ID_GAME_22].setup[0][1] == 20);
    assert(m[ID_GAME_23].setup[0][1] == 16);
    assert(m[ID_GAME_24].setup[0][0] == 20);
    assert(m[ID_GAME_25].setup[0][0] == 19);
    assert(m[ID_GAME_26].setup[0][4] == 15);
    assert(m[ID_GAME_27].setup[0][7] == 0);
    assert(m[ID_GAME_28].setup[0][4] == 8);
    assert(m[ID_GAME_29].setup[0][0] == 20);
    assert(m[ID_GAME_30].setup[0][0] == 19);
}

proof fn lemma_board_5_differs(m: Map<u128, SetupFormat>)
    requires
        catalog_ok(m),
    ensures
        m[ID_GAME_5].setup != m[ID_GAME_6].setup,
        m[ID_GAME_5].setup != m[ID_GAME_7].setup,
        m[ID_GAME_5].setup != m[ID_GAME_8].setup,
        m[ID_GAME_5].setup != m[ID_GAME_9].setup,
        m[ID_GAME_5].setup != m[ID_GAME_10].setup,
        m[ID_GAME_5].setup != m[ID_GAME_11].setup,
        m[ID_GAME_5].setup != m[ID_GAME_12].setup,
        m[ID_GAME_5].setup != m[ID_GAME_13].setup,
        m[ID_GAME_5].setup != m[ID_GAME_14].setup,
        m[ID_GAME_5].setup != m[ID_GAME_15].setup,
        m[ID_GAME_5].setup != m[ID_GAME_16].setup,
        m[ID_GAME_5].setup != m[ID_GAME_17].setup,
        m[ID_GAME_5].setup != m[ID_GAME_18].setup,
        m[ID_GAME_5].setup != m[ID_GAME_19].setup,
        m[ID_GAME_5].setup != m[ID_GAME_20].setup,
        m[ID_GAME_5].setup != m[ID_GAME_21].setup,
        m[ID_GAME_5].setup != m[ID_GAME_22].setup,
        m[ID_GAME_5].setup != m[ID_GAME_23].setup,
        m[ID_GAME_5].setup != m[ID_GAME_24].setup,
        m[ID_GAME_5].setup != m[ID_GAME_25].setup,
        m[ID_GAME_5].setup != m[ID_GAME_26].setup,
        m[ID_GAME_5].setup != m[ID_GAME_27].setup,
        m[ID_GAME_5].setup != m[ID_GAME_28].setup,
        m[ID_GAME_5].setup != m[ID_GAME_29].setup,
        m[ID_GAME_5].setup != m[ID_GAME_30].setup,
{
    assert(m[ID_GAME_5].setup[0][0] == 20);
    assert(m[ID_GAME_6].setup[0][0] == 0);
    assert(m[ID_GAME_7].setup[0][0] == 0);
    assert(m[ID_GAME_8].setup[0][0] == 0);
    assert(m[ID_GAME_9].setup[0][0] == 0);
    assert(m[ID_GAME_5].setup[0][9] == 19);
    assert(m[ID_GAME_10].setup[0][9] == 0);
    assert(m[ID_GAME_11].setup[0][0] == 0);
    assert(m[ID_GAME_12].setup[0][0] == 0);
    assert(m[ID_GAME_13].setup[0][0] == 0);
    assert(m[ID_GAME_14].setup[0][0] == 0);
    assert(m[ID_GAME_15].setup[0][0] == 0);
    assert(m[ID_GAME_16].setup[0][0] == 0);
    assert(m[ID_GAME_17].setup[0][0] == 0);
    assert(m[ID_GAME_18].setup[0][0] == 0);
    assert(m[ID_GAME_19].setup[0][0] == 0);
    assert(m[ID_GAME_20].setup[0][0] == 0);
    assert(m[ID_GAME_21].setup[0][0] == 0);
    assert(m[ID_GAME_22].setup[0][0] == 0);
    assert(m[ID_GAME_23].setup[0][0] == 0);
    assert(m[ID_GAME_5].setup[0][2] == 0);
    assert(m[ID_GAME_24].setup[0][2] == 19);
    assert(m[ID_GAME_25].setup[0][0] == 19);
    assert(m[ID_GAME_26].setup[0][0] == 0);
    assert(m[ID_GAME_27].setup[0][0] == 0);
    assert(m[ID_GAME_28].setup[0][0] == 0);
    assert(m[ID_GAME_5].setup[0][3] == 0);
    assert(m[ID_GAME_29].setup[0][3] == 17);
    assert(m[ID_GAME_30].setup[0][0] == 19);
}

proof fn lemma_board_6_differs(m: Map<u128, SetupFormat>)
    requires
        catalog_ok(m),
    ensures
        m[ID_GAME_6].setup != m[ID_GAME_7].setup,
        m[ID_GAME_6].setup != m[ID_GAME_8].setup,
        m[ID_GAME_6].setup != m[ID_GAME_9].setup,
        m[ID_GAME_6].setup != m[ID_GAME_10].setup,
        m[ID_GAME_6].setup != m[ID_GAME_11].setup,
        m[ID_GAME_6].setup != m[ID_GAME_12].setup,
        m[ID_GAME_6].setup != m[ID_GAME_13].setup,
        m[ID_GAME_6].setup != m[ID_GAME_14].setup,
        m[ID_GAME_6].setup != m[ID_GAME_15].setup,
        m[ID_GAME_6].setup != m[ID_GAME_16].setup,
        m[ID_GAME_6].setup != m[ID_GAME_17].setup,
        m[ID_GAME_6].setup != m[ID_GAME_18].setup,
        m[ID_GAME_6].setup != m[ID_GAME_19].setup,
        m[ID_GAME_6].setup != m[ID_GAME_20].setup,
        m[ID_GAME_6].setup != m[ID_GAME_21].setup,
        m[ID_GAME_6].setup != m[ID_GAME_22].setup,
        m[ID_GAME_6].setup != m[ID_GAME_23].setup,
        m[ID_GAME_6].setup != m[ID_GAME_24].setup,
        m[ID_GAME_6].setup != m[ID_GAME_25].setup,
        m[ID_GAME_6].setup != m[ID_GAME_26].setup,
        m[ID_GAME_6].setup != m[ID_GAME_27].setup,
        m[ID_GAME_6].setup != m[ID_GAME_28].setup,
        m[ID_GAME_6].setup != m[ID_GAME_29].setup,
        m[ID_GAME_6].setup != m[ID_GAME_30].setup,
{
    assert(m[ID_GAME_6].setup[0][1] == 17);
    assert(m[ID_GAME_7].setup[0][1] == 0);
    assert(m[ID_GAME_8].setup[0][1] == 0);
    assert(m[ID_GAME_9].setup[0][1] == 0);
    assert(m[ID_GAME_6].setup[0][0] == 0);
    assert(m[ID_GAME_10].setup[0][0] == 20);
    assert(m[ID_GAME_11].setup[0][1] == 0);
    assert(m[ID_GAME_12].setup[0][1] == 18);
    assert(m[ID_GAME_13].setup[0][1] == 0);
    assert(m[ID_GAME_14].setup[0][1] == 0);
    assert(m[ID_GAME_15].setup[0][1] == 0);
    assert(m[ID_GAME_16].setup[0][1] == 0);
    assert(m[ID_GAME_17].setup[0][1] == 0);
    assert(m[ID_GAME_18].setup[0][1] == 0);
    assert(m[ID_GAME_19].setup[0][1] == 0);
    assert(m[ID_GAME_20].setup[0][1] == 0);
    assert(m[ID_GAME_21].setup[0][1] == 1);
    assert(m[ID_GAME_22].setup[0][1] == 20);
    assert(m[ID_GAME_23].setup[0][1] == 16);
    assert(m[ID_GAME_24].setup[0][0] == 20);
    assert(m[ID_GAME_25].setup[0][0] == 19);
    assert(m[ID_GAME_26].setup[0][1] == 0);
    assert(m[ID_GAME_27].setup[0][1] == 0);
    assert(m[ID_GAME_28].setup[0][1] == 0);
    assert(m[ID_GAME_29].setup[0][0] == 20);
    assert(m[ID_GAME_30].setup[0][0] == 19);
}

proof fn lemma_board_7_differs(m: Map<u128, SetupFormat>)
    requires
        catalog_ok(m),
    ensures
        m[ID_GAME_7].setup != m[ID_GAME_8].setup,
        m[ID_GAME_7].setup != m[ID_GAME_9].setup,
        m[ID_GAME_7].setup != m[ID_GAME_10].setup,
        m[ID_GAME_7].setup != m[ID_GAME_11].setup,
        m[ID_GAME_7].setup != m[ID_GAME_12].setup,
        m[ID_GAME_7].setup != m[ID_GAME_13].setup,
        m[ID_GAME_7].setup != m[ID_GAME_14].setup,
        m[ID_GAME_7].setup != m[ID_GAME_15].setup,
        m[ID_GAME_7].setup != m[ID_GAME_16].setup,
        m[ID_GAME_7].setup != m[ID_GAME_17].setup,
        m[ID_GAME_7].setup != m[ID_GAME_18].setup,
        m[ID_GAME_7].setup != m[ID_GAME_19].setup,
        m[ID_GAME_7].setup != m[ID_GAME_20].setup,
        m[ID_GAME_7].setup != m[ID_GAME_21].setup,
        m[ID_GAME_7].setup != m[ID_GAME_22].setup,
        m[ID_GAME_7].setup != m[ID_GAME_23].setup,
        m[ID_GAME_7].setup != m[ID_GAME_24].setup,
        m[ID_GAME_7].setup != m[ID_GAME_25].setup,
        m[ID_GAME_7].setup != m[ID_GAME_26].setup,
        m[ID_GAME_7].setup != m[ID_GAME_27].setup,
        m[ID_GAME_7].setup != m[ID_GAME_28].setup,
        m[ID_GAME_7].setup != m[ID_GAME_29].setup,
        m[ID_GAME_7].setup != m[ID_GAME_30].setup,
{
    assert(m[ID_GAME_7].setup[0][2] == 0);
    assert(m[ID_GAME_8].setup[0][2] == 19);
    assert(m[ID_GAME_7].setup[0][5] == 0);
    assert(m[ID_GAME_9].setup[0][5] == 8);
    assert(m[ID_GAME_7].setup[0][0] == 0);
    assert(m[ID_GAME_10].setup[0][0] == 20);
    assert(m[ID_GAME_7].setup[0][7] == 0);
    assert(m[ID_GAME_11].setup[0][7] == 13);
    assert(m[ID_GAME_7].setup[0][1] == 0);
    assert(m[ID_GAME_12].setup[0][1] == 18);
    assert(m[ID_GAME_7].setup[1][4] == 15);
    assert(m[ID_GAME_13].setup[1][4] == 0);
    assert(m[ID_GAME_14].setup[0][2] == 12);
    assert(m[ID_GAME_7].setup[0][6] == 0);
    assert(m[ID_GAME_15].setup[0][6] == 8);
    assert(m[ID_GAME_16].setup[0][5] == 18);
    assert(m[ID_GAME_7].setup[1][0] == 0);
    assert(m[ID_GAME_17].setup[1][0] == 18);
    assert(m[ID_GAME_7].setup[0][4] == 0);
    assert(m[ID_GAME_18].setup[0][4] == 18);
    assert(m[ID_GAME_19].setup[0][4] == 8);
    assert(m[ID_GAME_7].setup[0][9] == 0);
    assert(m[ID_GAME_20].setup[0][9] == 20);
    assert(m[ID_GAME_21].setup[0][1] == 1);
    assert(m[ID_GAME_22].setup[0][1] == 20);
    assert(m[ID_GAME_23].setup[0][1] == 16);
    assert(m[ID_GAME_24].setup[0][0] == 20);
    assert(m[ID_GAME_25].setup[0][0] == 19);
    assert(m[ID_GAME_26].setup[0][4] == 15);
    assert(m[ID_GAME_27].setup[1][0] == 20);
    assert(m[ID_GAME_28].setup[0][4] == 8);
    assert(m[ID_GAME_29].setup[0][0] == 20);
    assert(m[ID_GAME_30].setup[0][0] == 19);
}

proof fn lemma_board_8_differs(m: Map<u128, SetupFormat>)
    requires
        catalog_ok(m),
    ensures
        m[ID_GAME_8].setup != m[ID_GAME_9].setup,
        m[ID_GAME_8].setup != m[ID_GAME_10].setup,
        m[ID_GAME_8].setup != m[ID_GAME_11].setup,
        m[ID_GAME_8].setup != m[ID_GAME_12].setup,
        m[ID_GAME_8].setup != m[ID_GAME_13].setup,
        m[ID_GAME_8].setup != m[ID_GAME_14].setup,
        m[ID_GAME_8].setup != m[ID_GAME_15].setup,
        m[ID_GAME_8].setup != m[ID_GAME_16].setup,
        m[ID_GAME_8].setup != m[ID_GAME_17].setup,
        m[ID_GAME_8].setup != m[ID_GAME_18].setup,
        m[ID_GAME_8].setup != m[ID_GAME_19].setup,
        m[ID_GAME_8].setup != m[ID_GAME_20].setup,
        m[ID_GAME_8].setup != m[ID_GAME_21].setup,
        m[ID_GAME_8].setup != m[ID_GAME_22].setup,
        m[ID_GAME_8].setup != m[ID_GAME_23].setup,
        m[ID_GAME_8].setup != m[ID_GAME_24].setup,
        m[ID_GAME_8].setup != m[ID_GAME_25].setup,
        m[ID_GAME_8].setup != m[ID_GAME_26].setup,
        m[ID_GAME_8].setup != m[ID_GAME_27].setup,
        m[ID_GAME_8].setup != m[ID_GAME_28].setup,
        m[ID_GAME_8].setup != m[ID_GAME_29].setup,
        m[ID_GAME_8].setup != m[ID_GAME_30].setup,
{
    assert(m[ID_GAME_8].setup[0][2] == 19);
    assert(m[ID_GAME_9].setup[0][2] == 0);
    assert(m[ID_GAME_8].setup[0][0] == 0);
    assert(m[ID_GAME_10].setup[0][0] == 20);
    assert(m[ID_GAME_11].setup[0][2] == 0);
    assert(m[ID_GAME_8].setup[0][1] == 0);
    assert(m[ID_GAME_12].setup[0][1] == 18);
    assert(m[ID_GAME_13].setup[0][2] == 0);
    assert(m[ID_GAME_14].setup[0][2] == 12);
    assert(m[ID_GAME_15].setup[0][2] == 0);
    assert(m[ID_GAME_16].setup[0][2] == 0);
    assert(m[ID_GAME_17].setup[0][2] == 0);
    assert(m[ID_GAME_18].setup[0][2] == 0);
    assert(m[ID_GAME_19].setup[0][2] == 0);
    assert(m[ID_GAME_20].setup[0][2] == 0);
    assert(m[ID_GAME_21].setup[0][1] == 1);
    assert(m[ID_GAME_22].setup[0][1] == 20);
    assert(m[ID_GAME_23].setup[0][1] == 16);
    assert(m[ID_GAME_24].setup[0][0] == 20);
    assert(m[ID_GAME_25].setup[0][0] == 19);
    assert(m[ID_GAME_26].setup[0][2] == 0);
    assert(m[ID_GAME_27].setup[0][2] == 0);
    assert(m[ID_GAME_28].setup[0][2] == 0);
    assert(m[ID_GAME_29].setup[0][0] == 20);
    assert(m[ID_GAME_30].setup[0][0] == 19);
}

proof fn lemma_board_9_differs(m: Map<u128, SetupFormat>)
    requires
        catalog_ok(m),
    ensures
        m[ID_GAME_9].setup != m[ID_GAME_10].setup,
        m[ID_GAME_9].setup != m[ID_GAME_11].setup,
        m[ID_GAME_9].setup != m[ID_GAME_12].setup,
        m[ID_GAME_9].setup != m[ID_GAME_13].setup,
        m[ID_GAME_9].setup != m[ID_GAME_14].setup,
        m[ID_GAME_9].setup != m[ID_GAME_15].setup,
        m[ID_GAME_9].setup != m[ID_GAME_16].setup,
        m[ID_GAME_9].setup != m[ID_GAME_17].setup,
        m[ID_GAME_9].setup != m[ID_GAME_18].setup,
        m[ID_GAME_9].setup != m[ID_GAME_19].setup,
        m[ID_GAME_9].setup != m[ID_GAME_20].setup,
        m[ID_GAME_9].setup != m[ID_GAME_21].setup,
        m[ID_GAME_9].setup != m[ID_GAME_22].setup,
        m[ID_GAME_9].setup != m[ID_GAME_23].setup,
        m[ID_GAME_9].setup != m[ID_GAME_24].setup,
        m[ID_GAME_9].setup != m[ID_GAME_25].setup,
        m[ID_GAME_9].setup != m[ID_GAME_26].setup,
        m[ID_GAME_9].setup != m[ID_GAME_27].setup,
        m[ID_GAME_9].setup != m[ID_GAME_28].setup,
        m[ID_GAME_9].setup != m[ID_GAME_29].setup,
        m[ID_GAME_9].setup != m[ID_GAME_30].setup,
{
    assert(m[ID_GAME_9].setup[0][0] == 0);
    assert(m[ID_GAME_10].setup[0][0] == 20);
    assert(m[ID_GAME_9].setup[0][5] == 8);
    assert(m[ID_GAME_11].setup[0][5] == 0);
    assert(m[ID_GAME_9].setup[0][1] == 0);
    assert(m[ID_GAME_12].setup[0][1] == 18);
    assert(m[ID_GAME_13].setup[0][5] == 0);
    assert(m[ID_GAME_9].setup[0][2] == 0);
    assert(m[ID_GAME_14].setup[0][2] == 12);
    assert(m[ID_GAME_15].setup[0][5] == 0);
    assert(m[ID_GAME_16].setup[0][5] == 18);
    assert(m[ID_GAME_17].setup[0][5] == 0);
    assert(m[ID_GAME_9].setup[0][4] == 0);
    assert(m[ID_GAME_18].setup[0][4] == 18);
    assert(m[ID_GAME_19].setup[0][4] == 8);
    assert(m[ID_GAME_20].setup[0][5] == 0);
    assert(m[ID_GAME_21].setup[0][1] == 1);
    assert(m[ID_GAME_22].setup[0][1] == 20);
    assert(m[ID_GAME_23].setup[0][1] == 16);
    assert(m[ID_GAME_24].setup[0][0] == 20);
    assert(m[ID_GAME_25].setup[0][0] == 19);
    assert(m[ID_GAME_26].setup[0][4] == 15);
    assert(m[ID_GAME_27].setup[0][5] == 0);
    assert(m[ID_GAME_28].setup[0][4] == 8);
    assert(m[ID_GAME_29].setup[0][0] == 20);
    assert(m[ID_GAME_30].setup[0][0] == 19);
}

proof fn lemma_board_10_differs(m: Map<u128, SetupFormat>)
    requires
        catalog_ok(m),
    ensures
        m[ID_GAME_10].setup != m[ID_GAME_11].setup,
        m[ID_GAME_10].setup != m[ID_GAME_12].setup,
        m[ID_GAME_10].setup != m[ID_GAME_13].setup,
        m[ID_GAME_10].setup != m[ID_GAME_14].setup,
        m[ID_GAME_10].setup != m[ID_GAME_15].setup,
        m[ID_GAME_10].setup != m[ID_GAME_16].setup,
        m[ID_GAME_10].setup != m[ID_GAME_17].setup,
        m[ID_GAME_10].setup != m[ID_GAME_18].setup,
        m[ID_GAME_10].setup != m[ID_GAME_19].setup,
        m[ID_GAME_10].setup != m[ID_GAME_20].setup,
        m[ID_GAME_10].setup != m[ID_GAME_21].setup,
        m[ID_GAME_10].setup != m[ID_GAME_22].setup,
        m[ID_GAME_10].setup != m[ID_GAME_23].setup,
        m[ID_GAME_10].setup != m[ID_GAME_24].setup,
        m[ID_GAME_10].setup != m[ID_GAME_25].setup,
        m[ID_GAME_10].setup != m[ID_GAME_26].setup,
        m[ID_GAME_10].setup != m[ID_GAME_27].setup,
        m[ID_GAME_10].setup != m[ID_GAME_28].setup,
        m[ID_GAME_10].setup != m[ID_GAME_29].setup,
        m[ID_GAME_10].setup != m[ID_GAME_30].setup,
{
    assert(m[ID_GAME_10].setup[0][0] == 20);
    assert(m[ID_GAME_11].setup[0][0] == 0);
    assert(m[ID_GAME_12].setup[0][0] == 0);
    assert(m[ID_GAME_13].setup[0][0] == 0);
    assert(m[ID_GAME_14].setup[0][0] == 0);
    assert(m[ID_GAME_15].setup[0][0] == 0);
    assert(m[ID_GAME_16].setup[0][0] == 0);
    assert(m[ID_GAME_17].setup[0][0] == 0);
    assert(m[ID_GAME_18].setup[0][0] == 0);
    assert(m[ID_GAME_19].setup[0][0] == 0);
    assert(m[ID_GAME_20].setup[0][0] == 0);
    assert(m[ID_GAME_21].setup[0][0] == 0);
    assert(m[ID_GAME_22].setup[0][0] == 0);
    assert(m[ID_GAME_23].setup[0][0] == 0);
    assert(m[ID_GAME_10].setup[0][2] == 0);
    assert(m[ID_GAME_24].setup[0][2] == 19);
    assert(m[ID_GAME_25].setup[0][0] == 19);
    assert(m[ID_GAME_26].setup[0][0] == 0);
    assert(m[ID_GAME_27].setup[0][0] == 0);
    assert(m[ID_GAME_28].setup[0][0] == 0);
    assert(m[ID_GAME_10].setup[0][3] == 0);
    assert(m[ID_GAME_29].setup[0][3] == 17);
    assert(m[ID_GAME_30].setup[0][0] == 19);
}

proof fn lemma_board_11_differs(m: Map<u128, SetupFormat>)
    requires
        catalog_ok(m),
    ensures
        m[ID_GAME_11].setup != m[ID_GAME_12].setup,
        m[ID_GAME_11].setup != m[ID_GAME_13].setup,
        m[ID_GAME_11].setup != m[ID_GAME_14].setup,
        m[ID_GAME_11].setup != m[ID_GAME_15].setup,
        m[ID_GAME_11].setup != m[ID_GAME_16].setup,
        m[ID_GAME_11].setup != m[ID_GAME_17].setup,
        m[ID_GAME_11].setup != m[ID_GAME_18].setup,
        m[ID_GAME_11].setup != m[ID_GAME_19].setup,
        m[ID_GAME_11].setup != m[ID_GAME_20].setup,
        m[ID_GAME_11].setup != m[ID_GAME_21].setup,
        m[ID_GAME_11].setup != m[ID_GAME_22].setup,
        m[ID_GAME_11].setup != m[ID_GAME_23].setup,
        m[ID_GAME_11].setup != m[ID_GAME_24].setup,
        m[ID_GAME_11].setup != m[ID_GAME_25].setup,
        m[ID_GAME_11].setup != m[ID_GAME_26].setup,
        m[ID_GAME_11].setup != m[ID_GAME_27].setup,
        m[ID_GAME_11].setup != m[ID_GAME_28].setup,
        m[ID_GAME_11].setup != m[ID_GAME_29].setup,
        m[ID_GAME_11].setup != m[ID_GAME_30].setup,
{
    assert(m[ID_GAME_11].setup[0][1] == 0);
    assert(m[ID_GAME_12].setup[0][1] == 18);
    assert(m[ID_GAME_11].setup[0][7] == 13);
    assert(m[ID_GAME_13].setup[0][7] == 0);
    assert(m[ID_GAME_11].setup[0][2] == 0);
    assert(m[ID_GAME_14].setup[0][2] == 12);
    assert(m[ID_GAME_11].setup[0][6] == 0);
    assert(m[ID_GAME_15].setup[0][6] == 8);
    assert(m[ID_GAME_11].setup[0][5] == 0);
    assert(m[ID_GAME_16].setup[0][5] == 18);
    assert(m[ID_GAME_17].setup[0][7] == 0);
    assert(m[ID_GAME_11].setup[0][4] == 0);
    assert(m[ID_GAME_18].setup[0][4] == 18);
    assert(m[ID_GAME_19].setup[0][4] == 8);
    assert(m[ID_GAME_20].setup[0][7] == 0);
    assert(m[ID_GAME_21].setup[0][1] == 1);
    assert(m[ID_GAME_22].setup[0][1] == 20);
    assert(m[ID_GAME_23].setup[0][1] == 16);
    assert(m[ID_GAME_11].setup[0][0] == 0);
    assert(m[ID_GAME_24].setup[0][0] == 20);
    assert(m[ID_GAME_25].setup[0][0] == 19);
    assert(m[ID_GAME_26].setup[0][4] == 15);
    assert(m[ID_GAME_27].setup[0][7] == 0);
    assert(m[ID_GAME_28].setup[0][4] == 8);
    assert(m[ID_GAME_29].setup[0][0] == 20);
    assert(m[ID_GAME_30].setup[0][0] == 19);
}

proof fn lemma_board_12_differs(m: Map<u128, SetupFormat>)
    requires
        catalog_ok(m),
    ensures
        m[ID_GAME_12].setup != m[ID_GAME_13].setup,
        m[ID_GAME_12].setup != m[ID_GAME_14].setup,
        m[ID_GAME_12].setup != m[ID_GAME_15].setup,
        m[ID_GAME_12].setup != m[ID_GAME_16].setup,
        m[ID_GAME_12].setup != m[ID_GAME_17].setup,
        m[ID_GAME_12].setup != m[ID_GAME_18].setup,
        m[ID_GAME_12].setup != m[ID_GAME_19].setup,
        m[ID_GAME_12].setup != m[ID_GAME_20].setup,
        m[ID_GAME_12].setup != m[ID_GAME_21].setup,
        m[ID_GAME_12].setup != m[ID_GAME_22].setup,
        m[ID_GAME_12].setup != m[ID_GAME_23].setup,
        m[ID_GAME_12].setup != m[ID_GAME_24].setup,
        m[ID_GAME_12].setup != m[ID_GAME_25].setup,
        m[ID_GAME_12].setup != m[ID_GAME_26].setup,
        m[ID_GAME_12].setup != m[ID_GAME_27].setup,
        m[ID_GAME_12].setup != m[ID_GAME_28].setup,
        m[ID_GAME_12].setup != m[ID_GAME_29].setup,
        m[ID_GAME_12].setup != m[ID_GAME_30].setup,
{
    assert(m[ID_GAME_12].setup[0][1] == 18);
    assert(m[ID_GAME_13].setup[0][1] == 0);
    assert(m[ID_GAME_14].setup[0][1] == 0);
    assert(m[ID_GAME_15].setup[0][1] == 0);
    assert(m[ID_GAME_16].setup[0][1] == 0);
    assert(m[ID_GAME_17].setup[0][1] == 0);
    assert(m[ID_GAME_18].setup[0][1] == 0);
    assert(m[ID_GAME_19].setup[0][1] == 0);
    assert(m[ID_GAME_20].setup[0][1] == 0);
    assert(m[ID_GAME_21].setup[0][1] == 1);
    assert(m[ID_GAME_22].setup[0][1] == 20);
    assert(m[ID_GAME_23].setup[0][1] == 16);
    assert(m[ID_GAME_12].setup[0][0] == 0);
    assert(m[ID_GAME_24].setup[0][0] == 20);
    assert(m[ID_GAME_25].setup[0][0] == 19);
    assert(m[ID_GAME_26].setup[0][1] == 0);
    assert(m[ID_GAME_27].setup[0][1] == 0);
    assert(m[ID_GAME_28].setup[0][1] == 0);
    assert(m[ID_GAME_29].setup[0][0] == 20);
    assert(m[ID_GAME_30].setup[0][0] == 19);
}

proof fn lemma_board_13_differs(m: Map<u128, SetupFormat>)
    requires
        catalog_ok(m),
    ensures
        m[ID_GAME_13].setup != m[ID_GAME_14].setup,
        m[ID_GAME_13].setup != m[ID_GAME_15].setup,
        m[ID_GAME_13].setup != m[ID_GAME_16].setup,
        m[ID_GAME_13].setup != m[ID_GAME_17].setup,
        m[ID_GAME_13].setup != m[ID_GAME_18].setup,
        m[ID_GAME_13].setup != m[ID_GAME_19].setup,
        m[ID_GAME_13].setup != m[ID_GAME_20].setup,
        m[ID_GAME_13].setup != m[ID_GAME_21].setup,
        m[ID_GAME_13].setup != m[ID_GAME_22].setup,
        m[ID_GAME_13].setup != m[ID_GAME_23].setup,
        m[ID_GAME_13].setup != m[ID_GAME_24].setup,
        m[ID_GAME_13].setup != m[ID_GAME_25].setup,
        m[ID_GAME_13].setup != m[ID_GAME_26].setup,
        m[ID_GAME_13].setup != m[ID_GAME_27].setup,
        m[ID_GAME_13].setup != m[ID_GAME_28].setup,
        m[ID_GAME_13].setup != m[ID_GAME_29].setup,
        m[ID_GAME_13].setup != m[ID_GAME_30].setup,
{
    assert(m[ID_GAME_13].setup[0][2] == 0);
    assert(m[ID_GAME_14].setup[0][2] == 12);
    assert(m[ID_GAME_13].setup[0][6] == 0);
    assert(m[ID_GAME_15].setup[0][6] == 8);
    assert(m[ID_GAME_13].setup[0][5] == 0);
    assert(m[ID_GAME_16].setup[0][5] == 18);
    assert(m[ID_GAME_13].setup[1][0] == 0);
    assert(m[ID_GAME_17].setup[1][0] == 18);
    assert(m[ID_GAME_13].setup[0][4] == 0);
    assert(m[ID_GAME_18].setup[0][4] == 18);
    assert(m[ID_GAME_19].setup[0][4] == 8);
    assert(m[ID_GAME_13].setup[0][9] == 0);
    assert(m[ID_GAME_20].setup[0][9] == 20);
    assert(m[ID_GAME_13].setup[0][1] == 0);
    assert(m[ID_GAME_21].setup[0][1] == 1);
    assert(m[ID_GAME_22].setup[0][1] == 20);
    assert(m[ID_GAME_23].setup[0][1] == 16);
    assert(m[ID_GAME_13].setup[0][0] == 0);
    assert(m[ID_GAME_24].setup[0][0] == 20);
    assert(m[ID_GAME_25].setup[0][0] == 19);
    assert(m[ID_GAME_26].setup[0][4] == 15);
    assert(m[ID_GAME_27].setup[1][0] == 20);
    assert(m[ID_GAME_28].setup[0][4] == 8);
    assert(m[ID_GAME_29].setup[0][0] == 20);
    assert(m[ID_GAME_30].setup[0][0] == 19);
}

proof fn lemma_board_14_differs(m: Map<u128, SetupFormat>)
    requires
        catalog_ok(m),
    ensures
        m[ID_GAME_14].setup != m[ID_GAME_15].setup,
        m[ID_GAME_14].setup != m[ID_GAME_16].setup,
        m[ID_GAME_14].setup != m[ID_GAME_17].setup,
        m[ID_GAME_14].setup != m[ID_GAME_18].setup,
        m[ID_GAME_14].setup != m[ID_GAME_19].setup,
        m[ID_GAME_14].setup != m[ID_GAME_20].setup,
        m[ID_GAME_14].setup != m[ID_GAME_21].setup,
        m[ID_GAME_14].setup != m[ID_GAME_22].setup,
        m[ID_GAME_14].setup != m[ID_GAME_23].setup,
        m[ID_GAME_14].setup != m[ID_GAME_24].setup,
        m[ID_GAME_14].setup != m[ID_GAME_25].setup,
        m[ID_GAME_14].setup != m[ID_GAME_26].setup,
        m[ID_GAME_14].setup != m[ID_GAME_27].setup,
        m[ID_GAME_14].setup != m[ID_GAME_28].setup,
        m[ID_GAME_14].setup != m[ID_GAME_29].setup,
        m[ID_GAME_14].setup != m[ID_GAME_30].setup,
{
    assert(m[ID_GAME_14].setup[0][2] == 12);
    assert(m[ID_GAME_15].setup[0][2] == 0);
    assert(m[ID_GAME_16].setup[0][2] == 0);
    assert(m[ID_GAME_17].setup[0][2] == 0);
    assert(m[ID_GAME_18].setup[0][2] == 0);
    assert(m[ID_GAME_19].setup[0][2] == 0);
    assert(m[ID_GAME_20].setup[0][2] == 0);
    assert(m[ID_GAME_14].setup[0][1] == 0);
    assert(m[ID_GAME_21].setup[0][1] == 1);
    assert(m[ID_GAME_22].setup[0][1] == 20);
    assert(m[ID_GAME_23].setup[0][1] == 16);
    assert(m[ID_GAME_14].setup[0][0] == 0);
    assert(m[ID_GAME_24].setup[0][0] == 20);
    assert(m[ID_GAME_25].setup[0][0] == 19);
    assert(m[ID_GAME_26].setup[0][2] == 0);
    assert(m[ID_GAME_27].setup[0][2] == 0);
    assert(m[ID_GAME_28].setup[0][2] == 0);
    assert(m[ID_GAME_29].setup[0][0] == 20);
    assert(m[ID_GAME_30].setup[0][0] == 19);
}

proof fn lemma_board_15_differs(m: Map<u128, SetupFormat>)
    requires
        catalog_ok(m),
    ensures
        m[ID_GAME_15].setup != m[ID_GAME_16].setup,
        m[ID_GAME_15].setup != m[ID_GAME_17].setup,
        m[ID_GAME_15].setup != m[ID_GAME_18].setup,
        m[ID_GAME_15].setup != m[ID_GAME_19].setup,
        m[ID_GAME_15].setup != m[ID_GAME_20].setup,
        m[ID_GAME_15].setup != m[ID_GAME_21].setup,
        m[ID_GAME_15].setup != m[ID_GAME_22].setup,
        m[ID_GAME_15].setup != m[ID_GAME_23].setup,
        m[ID_GAME_15].setup != m[ID_GAME_24].setup,
        m[ID_GAME_15].setup != m[ID_GAME_25].setup,
        m[ID_GAME_15].setup != m[ID_GAME_26].setup,
        m[ID_GAME_15].setup != m[ID_GAME_27].setup,
        m[ID_GAME_15].setup != m[ID_GAME_28].setup,
        m[ID_GAME_15].setup != m[ID_GAME_29].setup,
        m[ID_GAME_15].setup != m[ID_GAME_30].setup,
{
    assert(m[ID_GAME_15].setup[0][5] == 0);
    assert(m[ID_GAME_16].setup[0][5] == 18);
    assert(m[ID_GAME_15].setup[0][6] == 8);
    assert(m[ID_GAME_17].setup[0][6] == 0);
    assert(m[ID_GAME_15].setup[0][4] == 0);
    assert(m[ID_GAME_18].setup[0][4] == 18);
    assert(m[ID_GAME_19].setup[0][4] == 8);
    assert(m[ID_GAME_20].setup[0][6] == 0);
    assert(m[ID_GAME_15].setup[0][1] == 0);
    assert(m[ID_GAME_21].setup[0][1] == 1);
    assert(m[ID_GAME_22].setup[0][1] == 20);
    assert(m[ID_GAME_23].setup[0][1] == 16);
    assert(m[ID_GAME_15].setup[0][0] == 0);
    assert(m[ID_GAME_24].setup[0][0] == 20);
    assert(m[ID_GAME_25].setup[0][0] == 19);
    assert(m[ID_GAME_26].setup[0][4] == 15);
    assert(m[ID_GAME_27].setup[0][6] == 0);
    assert(m[ID_GAME_28].setup[0][4] == 8);
    assert(m[ID_GAME_29].setup[0][0] == 20);
    assert(m[ID_GAME_30].setup[0][0] == 19);
}

proof fn lemma_board_16_differs(m: Map<u128, SetupFormat>)
    requires
        catalog_ok(m),
    ensures
        m[ID_GAME_16].setup != m[ID_GAME_17].setup,
        m[ID_GAME_16].setup != m[ID_GAME_18].setup,
        m[ID_GAME_16].setup != m[ID_GAME_19].setup,
        m[ID_GAME_16].setup != m[ID_GAME_20].setup,
        m[ID_GAME_16].setup != m[ID_GAME_21].setup,
        m[ID_GAME_16].setup != m[ID_GAME_22].setup,
        m[ID_GAME_16].setup != m[ID_GAME_23].setup,
        m[ID_GAME_16].setup != m[ID_GAME_24].setup,
        m[ID_GAME_16].setup != m[ID_GAME_25].setup,
        m[ID_GAME_16].setup != m[ID_GAME_26].setup,
        m[ID_GAME_16].setup != m[ID_GAME_27].setup,
        m[ID_GAME_16].setup != m[ID_GAME_28].setup,
        m[ID_GAME_16].setup != m[ID_GAME_29].setup,
        m[ID_GAME_16].setup != m[ID_GAME_30].setup,
{
    assert(m[ID_GAME_16].setup[0][5] == 18);
    assert(m[ID_GAME_17].setup[0][5] == 0);
    assert(m[ID_GAME_16].setup[0][4] == 0);
    assert(m[ID_GAME_18].setup[0][4] == 18);
    assert(m[ID_GAME_19].setup[0][4] == 8);
    assert(m[ID_GAME_20].setup[0][5] == 0);
    assert(m[ID_GAME_16].setup[0][1] == 0);
    assert(m[ID_GAME_21].setup[0][1] == 1);
    assert(m[ID_GAME_22].setup[0][1] == 20);
    assert(m[ID_GAME_23].setup[0][1] == 16);
    assert(m[ID_GAME_16].setup[0][0] == 0);
    assert(m[ID_GAME_24].setup[0][0] == 20);
    assert(m[ID_GAME_25].setup[0][0] == 19);
    assert(m[ID_GAME_26].setup[0][4] == 15);
    assert(m[ID_GAME_27].setup[0][5] == 0);
    assert(m[ID_GAME_28].setup[0][4] == 8);
    assert(m[ID_GAME_29].setup[0][0] == 20);
    assert(m[ID_GAME_30].setup[0][0] == 19);
}

proof fn lemma_board_17_differs(m: Map<u128, SetupFormat>)
    requires
        catalog_ok(m),
    ensures
        m[ID_GAME_17].setup != m[ID_GAME_18].setup,
        m[ID_GAME_17].setup != m[ID_GAME_19].setup,
        m[ID_GAME_17].setup != m[ID_GAME_20].setup,
        m[ID_GAME_17].setup != m[ID_GAME_21].setup,
        m[ID_GAME_17].setup != m[ID_GAME_22].setup,
        m[ID_GAME_17].setup != m[ID_GAME_23].setup,
        m[ID_GAME_17].setup != m[ID_GAME_24].setup,
        m[ID_GAME_17].setup != m[ID_GAME_25].setup,
        m[ID_GAME_17].setup != m[ID_GAME_26].setup,
        m[ID_GAME_17].setup != m[ID_GAME_27].setup,
        m[ID_GAME_17].setup != m[ID_GAME_28].setup,
        m[ID_GAME_17].setup != m[ID_GAME_29].setup,
        m[ID_GAME_17].setup != m[ID_GAME_30].setup,
{
    assert(m[ID_GAME_17].setup[0][4] == 0);
    assert(m[ID_GAME_18].setup[0][4] == 18);
    assert(m[ID_GAME_19].setup[0][4] == 8);
    assert(m[ID_GAME_17].setup[0][9] == 0);
    assert(m[ID_GAME_20].setup[0][9] == 20);
    assert(m[ID_GAME_17].setup[0][1] == 0);
    assert(m[ID_GAME_21].setup[0][1] == 1);
    assert(m[ID_GAME_22].setup[0][1] == 20);
    assert(m[ID_GAME_23].setup[0][1] == 16);
    assert(m[ID_GAME_17].setup[0][0] == 0);
    assert(m[ID_GAME_24].setup[0][0] == 20);
    assert(m[ID_GAME_25].setup[0][0] == 19);
    assert(m[ID_GAME_26].setup[0][4] == 15);
    assert(m[ID_GAME_17].setup[1][0] == 18);
    assert(m[ID_GAME_27].setup[1][0] == 20);
    assert(m[ID_GAME_28].setup[0][4] == 8);
    assert(m[ID_GAME_29].setup[0][0] == 20);
    assert(m[ID_GAME_30].setup[0][0] == 19);
}

proof fn lemma_board_18_differs(m: Map<u128, SetupFormat>)
    requires
        catalog_ok(m),
    ensures
        m[ID_GAME_18].setup != m[ID_GAME_19].setup,
        m[ID_GAME_18].setup != m[ID_GAME_20].setup,
        m[ID_GAME_18].setup != m[ID_GAME_21].setup,
        m[ID_GAME_18].setup != m[ID_GAME_22].setup,
        m[ID_GAME_18].setup != m[ID_GAME_23].setup,
        m[ID_GAME_18].setup != m[ID_GAME_24].setup,
        m[ID_GAME_18].setup != m[ID_GAME_25].setup,
        m[ID_GAME_18].setup != m[ID_GAME_26].setup,
        m[ID_GAME_18].setup != m[ID_GAME_27].setup,
        m[ID_GAME_18].setup != m[ID_GAME_28].setup,
        m[ID_GAME_18].setup != m[ID_GAME_29].setup,
        m[ID_GAME_18].setup != m[ID_GAME_30].setup,
{
    assert(m[ID_GAME_18].setup[0][4] == 18);
    assert(m[ID_GAME_19].setup[0][4] == 8);
    assert(m[ID_GAME_20].setup[0][4] == 0);
    assert(m[ID_GAME_18].setup[0][1] == 0);
    assert(m[ID_GAME_21].setup[0][1] == 1);
    assert(m[ID_GAME_22].setup[0][1] == 20);
    assert(m[ID_GAME_23].setup[0][1] == 16);
    assert(m[ID_GAME_18].setup[0][0] == 0);
    assert(m[ID_GAME_24].setup[0][0] == 20);
    assert(m[ID_GAME_25].setup[0][0] == 19);
    assert(m[ID_GAME_26].setup[0][4] == 15);
    assert(m[ID_GAME_27].setup[0][4] == 0);
    assert(m[ID_GAME_28].setup[0][4] == 8);
    assert(m[ID_GAME_29].setup[0][0] == 20);
    assert(m[ID_GAME_30].setup[0][0] == 19);
}

proof fn lemma_board_19_differs(m: Map<u128, SetupFormat>)
    requires
        catalog_ok(m),
    ensures
        m[ID_GAME_19].setup != m[ID_GAME_20].setup,
        m[ID_GAME_19].setup != m[ID_GAME_21].setup,
        m[ID_GAME_19].setup != m[ID_GAME_22].setup,
        m[ID_GAME_19].setup != m[ID_GAME_23].setup,
        m[ID_GAME_19].setup != m[ID_GAME_24].setup,
        m[ID_GAME_19].setup != m[ID_GAME_25].setup,
        m[ID_GAME_19].setup != m[ID_GAME_26].setup,
        m[ID_GAME_19].setup != m[ID_GAME_27].setup,
        m[ID_GAME_19].setup != m[ID_GAME_28].setup,
        m[ID_GAME_19].setup != m[ID_GAME_29].setup,
        m[ID_GAME_19].setup != m[ID_GAME_30].setup,
{
    assert(m[ID_GAME_19].setup[0][4] == 8);
    assert(m[ID_GAME_20].setup[0][4] == 0);
    assert(m[ID_GAME_19].setup[0][1] == 0);
    assert(m[ID_GAME_21].setup[0][1] == 1);
    assert(m[ID_GAME_22].setup[0][1] == 20);
    assert(m[ID_GAME_23].setup[0][1] == 16);
    assert(m[ID_GAME_19].setup[0][0] == 0);
    assert(m[ID_GAME_24].setup[0][0] == 20);
    assert(m[ID_GAME_25].setup[0][0] == 19);
    assert(m[ID_GAME_26].setup[0][4] == 15);
    assert(m[ID_GAME_27].setup[0][4] == 0);
    assert(m[ID_GAME_19].setup[0][5] == 0);
    assert(m[ID_GAME_28].setup[0][5] == 9);
    assert(m[ID_GAME_29].setup[0][0] == 20);
    assert(m[ID_GAME_30].setup[0][0] == 19);
}

proof fn lemma_board_20_differs(m: Map<u128, SetupFormat>)
    requires
        catalog_ok(m),
    ensures
        m[ID_GAME_20].setup != m[ID_GAME_21].setup,
        m[ID_GAME_20].setup != m[ID_GAME_22].setup,
        m[ID_GAME_20].setup != m[ID_GAME_23].setup,
        m[ID_GAME_20].setup != m[ID_GAME_24].setup,
        m[ID_GAME_20].setup != m[ID_GAME_25].setup,
        m[ID_GAME_20].setup != m[ID_GAME_26].setup,
        m[ID_GAME_20].setup != m[ID_GAME_27].setup,
        m[ID_GAME_20].setup != m[ID_GAME_28].setup,
        m[ID_GAME_20].setup != m[ID_GAME_29].setup,
        m[ID_GAME_20].setup != m[ID_GAME_30].setup,
{
    assert(m[ID_GAME_20].setup[0][1] == 0);
    assert(m[ID_GAME_21].setup[0][1] == 1);
    assert(m[ID_GAME_22].setup[0][1] == 20);
    assert(m[ID_GAME_23].setup[0][1] == 16);
    assert(m[ID_GAME_20].setup[0][0] == 0);
    assert(m[ID_GAME_24].setup[0][0] == 20);
    assert(m[ID_GAME_25].setup[0][0] == 19);
    assert(m[ID_GAME_20].setup[0][4] == 0);
    assert(m[ID_GAME_26].setup[0][4] == 15);
    assert(m[ID_GAME_20].setup[0][9] == 20);
    assert(m[ID_GAME_27].setup[0][9] == 0);
    assert(m[ID_GAME_28].setup[0][4] == 8);
    assert(m[ID_GAME_29].setup[0][0] == 20);
    assert(m[ID_GAME_30].setup[0][0] == 19);
}

proof fn lemma_board_21_differs(m: Map<u128, SetupFormat>)
    requires
        catalog_ok(m),
    ensures
        m[ID_GAME_21].setup != m[ID_GAME_22].setup,
        m[ID_GAME_21].setup != m[ID_GAME_23].setup,
        m[ID_GAME_21].setup != m[ID_GAME_24].setup,
        m[ID_GAME_21].setup != m[ID_GAME_25].setup,
        m[ID_GAME_21].setup != m[ID_GAME_26].setup,
        m[ID_GAME_21].setup != m[ID_GAME_27].setup,
        m[ID_GAME_21].setup != m[ID_GAME_28].setup,
        m[ID_GAME_21].setup != m[ID_GAME_29].setup,
        m[ID_GAME_21].setup != m[ID_GAME_30].setup,
{
    assert(m[ID_GAME_21].setup[0][1] == 1);
    assert(m[ID_GAME_22].setup[0][1] == 20);
    assert(m[ID_GAME_23].setup[0][1] == 16);
    assert(m[ID_GAME_21].setup[0][0] == 0);
    assert(m[ID_GAME_24].setup[0][0] == 20);
    assert(m[ID_GAME_25].setup[0][0] == 19);
    assert(m[ID_GAME_26].setup[0][1] == 0);
    assert(m[ID_GAME_27].setup[0][1] == 0);
    assert(m[ID_GAME_28].setup[0][1] == 0);
    assert(m[ID_GAME_29].setup[0][0] == 20);
    assert(m[ID_GAME_30].setup[0][0] == 19);
}

proof fn lemma_board_22_differs(m: Map<u128, SetupFormat>)
    requires
        catalog_ok(m),
    ensures
        m[ID_GAME_22].setup != m[ID_GAME_23].setup,
        m[ID_GAME_22].setup != m[ID_GAME_24].setup,
        m[ID_GAME_22].setup != m[ID_GAME_25].setup,
        m[ID_GAME_22].setup != m[ID_GAME_26].setup,
        m[ID_GAME_22].setup != m[ID_GAME_27].setup,
        m[ID_GAME_22].setup != m[ID_GAME_28].setup,
        m[ID_GAME_22].setup != m[ID_GAME_29].setup,
        m[ID_GAME_22].setup != m[ID_GAME_30].setup,
{
    assert(m[ID_GAME_22].setup[0][1] == 20);
    assert(m[ID_GAME_23].setup[0][1] == 16);
    assert(m[ID_GAME_22].setup[0][0] == 0);
    assert(m[ID_GAME_24].setup[0][0] == 20);
    assert(m[ID_GAME_25].setup[0][0] == 19);
    assert(m[ID_GAME_26].setup[0][1] == 0);
    assert(m[ID_GAME_27].setup[0][1] == 0);
    assert(m[ID_GAME_28].setup[0][1] == 0);
    assert(m[ID_GAME_29].setup[0][0] == 20);
    assert(m[ID_GAME_30].setup[0][0] == 19);
}

proof fn lemma_board_23_differs(m: Map<u128, SetupFormat>)
    requires
        catalog_ok(m),
    ensures
        m[ID_GAME_23].setup != m[ID_GAME_24].setup,
        m[ID_GAME_23].setup != m[ID_GAME_25].setup,
        m[ID_GAME_23].setup != m[ID_GAME_26].setup,
        m[ID_GAME_23].setup != m[ID_GAME_27].setup,
        m[ID_GAME_23].setup != m[ID_GAME_28].setup,
        m[ID_GAME_23].setup != m[ID_GAME_29].setup,
        m[ID_GAME_23].setup != m[ID_GAME_30].setup,
{
    assert(m[ID_GAME_23].setup[0][0] == 0);
    assert(m[ID_GAME_24].setup[0][0] == 20);
    assert(m[ID_GAME_25].setup[0][0] == 19);
    assert(m[ID_GAME_23].setup[0][1] == 16);
    assert(m[ID_GAME_26].setup[0][1] == 0);
    assert(m[ID_GAME_27].setup[0][1] == 0);
    assert(m[ID_GAME_28].setup[0][1] == 0);
    assert(m[ID_GAME_29].setup[0][0] == 20);
    assert(m[ID_GAME_30].setup[0][0] == 19);
}

proof fn lemma_board_24_differs(m: Map<u128, SetupFormat>)
    requires
        catalog_ok(m),
    ensures
        m[ID_GAME_24].setup != m[ID_GAME_25].setup,
        m[ID_GAME_24].setup != m[ID_GAME_26].setup,
        m[ID_GAME_24].setup != m[ID_GAME_27].setup,
        m[ID_GAME_24].setup != m[ID_GAME_28].setup,
        m[ID_GAME_24].setup != m[ID_GAME_29].setup,
        m[ID_GAME_24].setup != m[ID_GAME_30].setup,
{
    assert(m[ID_GAME_24].setup[0][0] == 20);
    assert(m[ID_GAME_25].setup[0][0] == 19);
    assert(m[ID_GAME_26].setup[0][0] == 0);
    assert(m[ID_GAME_27].setup[0][0] == 0);
    assert(m[ID_GAME_28].setup[0][0] == 0);
    assert(m[ID_GAME_24].setup[0][2] == 19);
    assert(m[ID_GAME_29].setup[0][2] == 0);
    assert(m[ID_GAME_30].setup[0][0] == 19);
}

proof fn lemma_board_25_differs(m: Map<u128, SetupFormat>)
    requires
        catalog_ok(m),
    ensures
        m[ID_GAME_25].setup != m[ID_GAME_26].setup,
        m[ID_GAME_25].setup != m[ID_GAME_27].setup,
        m[ID_GAME_25].setup != m[ID_GAME_28].setup,
        m[ID_GAME_25].setup != m[ID_GAME_29].setup,
        m[ID_GAME_25].setup != m[ID_GAME_30].setup,
{
    assert(m[ID_GAME_25].setup[0][0] == 19);
    assert(m[ID_GAME_26].setup[0][0] == 0);
    assert(m[ID_GAME_27].setup[0][0] == 0);
    assert(m[ID_GAME_28].setup[0][0] == 0);
    assert(m[ID_GAME_29].setup[0][0] == 20);
    assert(m[ID_GAME_25].setup[0][9] == 20);
    assert(m[ID_GAME_30].setup[0][9] == 0);
}

proof fn lemma_board_26_differs(m: Map<u128, SetupFormat>)
    requires
        catalog_ok(m),
    ensures
        m[ID_GAME_26].setup != m[ID_GAME_27].setup,
        m[ID_GAME_26].setup != m[ID_GAME_28].setup,
        m[ID_GAME_26].setup != m[ID_GAME_29].setup,
        m[ID_GAME_26].setup != m[ID_GAME_30].setup,
{
    assert(m[ID_GAME_26].setup[0][4] == 15);
    assert(m[ID_GAME_27].setup[0][4] == 0);
    assert(m[ID_GAME_28].setup[0][4] == 8);
    assert(m[ID_GAME_26].setup[0][0] == 0);
    assert(m[ID_GAME_29].setup[0][0] == 20);
    assert(m[ID_GAME_30].setup[0][0] == 19);
}

proof fn lemma_board_27_differs(m: Map<u128, SetupFormat>)
    requires
        catalog_ok(m),
    ensures
        m[ID_GAME_27].setup != m[ID_GAME_28].setup,
        m[ID_GAME_27].setup != m[ID_GAME_29].setup,
        m[ID_GAME_27].setup != m[ID_GAME_30].setup,
{
    assert(m[ID_GAME_27].setup[0][4] == 0);
    assert(m[ID_GAME_28].setup[0][4] == 8);
    assert(m[ID_GAME_27].setup[0][0] == 0);
    assert(m[ID_GAME_29].setup[0][0] == 20);
    assert(m[ID_GAME_30].setup[0][0] == 19);
}

proof fn lemma_board_28_differs(m: Map<u128, SetupFormat>)
    requires
        catalog_ok(m),
    ensures
        m[ID_GAME_28].setup != m[ID_GAME_29].setup,
        m[ID_GAME_28].setup != m[ID_GAME_30].setup,
{
    assert(m[ID_GAME_28].setup[0][0] == 0);
    assert(m[ID_GAME_29].setup[0][0] == 20);
    assert(m[ID_GAME_30].setup[0][0] == 19);
}

proof fn lemma_board_29_differs(m: Map<u128, SetupFormat>)
    requires
        catalog_ok(m),
    ensures
        m[ID_GAME_29].setup != m[ID_GAME_30].setup,
{
    assert(m[ID_GAME_29].setup[0][0] == 20);
    assert(m[ID_GAME_30].setup[0][0] == 19);
}

/// No two catalog entries hold the same board: any two entries stored
/// under different identifiers differ in at least one cell.
pub proof fn lemma_catalog_boards_distinct(m: Map<u128, SetupFormat>, a: u128, b: u128)
    requires
        catalog_ok(m),
        m.dom().contains(a),
        m.dom().contains(b),
        a != b,
    ensures
        m[a].setup != m[b].setup,
{
    lemma_board_0_differs(m);
    lemma_board_1_differs(m);
    lemma_board_2_differs(m);
    lemma_board_3_differs(m);
    lemma_board_4_differs(m);
    lemma_board_5_differs(m);
    lemma_board_6_differs(m);
    lemma_board_7_differs(m);
    lemma_board_8_differs(m);
    lemma_board_9_differs(m);
    lemma_board_10_differs(m);
    lemma_board_11_differs(m);
    lemma_board_12_differs(m);
    lemma_board_13_differs(m);
    lemma_board_14_differs(m);
    lemma_board_15_differs(m);
    lemma_board_16_differs(m);
    lemma_board_17_differs(m);
    lemma_board_18_differs(m);
    lemma_board_19_differs(m);
    lemma_board_20_differs(m);
    lemma_board_21_differs(m);
    lemma_board_22_differs(m);
    lemma_board_23_differs(m);
    lemma_board_24_differs(m);
    lemma_board_25_differs(m);
    lemma_board_26_differs(m);
    lemma_board_27_differs(m);
    lemma_board_28_differs(m);
    lemma_board_29_differs(m);
}

/// The only access point into the catalog: the entry stored under the
/// identifier, or nothing when the identifier names no board.
pub fn lookup(setups: &Setups, id: u128) -> (r: Option<SetupFormat>)
    ensures
        setups_map(*setups).contains_key(id) ==> r == Some(setups_map(*setups)[id]),
        !setups_map(*setups).contains_key(id) ==> r is None,
{
    setups_get(setups, id)
}

/// The number of boards in the catalog.
pub fn catalog_size(setups: &Setups) -> (n: usize)
    ensures
        n as int == setups_map(*setups).dom().len(),
{
    setups_len(setups)
}

/// The catalog's entries as a list, each entry exactly once; the order is
/// not specified.
pub fn catalog_entries(setups: &Setups) -> (r: Vec<(u128, SetupFormat)>)
    ensures
        r@.len() == setups_map(*setups).dom().len(),
        forall|idx: int|
            0 <= idx < r@.len() ==> setups_map(*setups).contains_pair(
                #[trigger] r@[idx].0,
                r@[idx].1,
            ),
        forall|a: int, b: int| 0 <= a < b < r@.len() ==> r@[a].0 != r@[b].0,
{
    setups_entry_list(setups)
}

} // verus!
