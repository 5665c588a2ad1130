//! A hash index over the key bindings.
//!
//! The index is built once from an input table and answers, for any key, the
//! same as a search of the table in rank order would.

use std::collections::HashMap;
use vstd::prelude::*;
use crate::bindings::{InputMap, LogicalInput};
use crate::keys::{lemma_code_is_injective, lemma_code_round_trip, Key};

verus! {

broadcast use vstd::std_specs::hash::group_hash_axioms;

/// The number of logical inputs.
pub const INPUTS: usize = 21;

/// The input of a rank.
pub open spec fn input_ranked(rank: int) -> LogicalInput {
    if rank == 0 {
        LogicalInput::Start
    } else if rank == 1 {
        LogicalInput::A
    } else if rank == 2 {
        LogicalInput::B
    } else if rank == 3 {
        LogicalInput::X
    } else if rank == 4 {
        LogicalInput::Y
    } else if rank == 5 {
        LogicalInput::Z
    } else if rank == 6 {
        LogicalInput::L
    } else if rank == 7 {
        LogicalInput::R
    } else if rank == 8 {
        LogicalInput::ShieldMedium
    } else if rank == 9 {
        LogicalInput::ShieldLight
    } else if rank == 10 {
        LogicalInput::Up
    } else if rank == 11 {
        LogicalInput::Down
    } else if rank == 12 {
        LogicalInput::Left
    } else if rank == 13 {
        LogicalInput::Right
    } else if rank == 14 {
        LogicalInput::CUp
    } else if rank == 15 {
        LogicalInput::CDown
    } else if rank == 16 {
        LogicalInput::CLeft
    } else if rank == 17 {
        LogicalInput::CRight
    } else if rank == 18 {
        LogicalInput::ModX
    } else if rank == 19 {
        LogicalInput::ModY
    } else {
        LogicalInput::Debug
    }
}

/// Every input has a rank below `INPUTS` and is the input of its rank.
pub proof fn lemma_rank_round_trip(input: LogicalInput)
    ensures
        input.rank() < INPUTS,
        input_ranked(input.rank() as int) == input,
{
}

/// The input of a rank has that rank.
pub proof fn lemma_ranked_has_rank(rank: int)
    requires
        0 <= rank < INPUTS,
    ensures
        input_ranked(rank).rank() == rank,
{
}

/// The input of a rank.
fn ranked(rank: usize) -> (input: LogicalInput)
    requires
        rank < INPUTS,
    ensures
        input == input_ranked(rank as int),
{
    match rank {
        0 => LogicalInput::Start,
        1 => LogicalInput::A,
        2 => LogicalInput::B,
        3 => LogicalInput::X,
        4 => LogicalInput::Y,
        5 => LogicalInput::Z,
        6 => LogicalInput::L,
        7 => LogicalInput::R,
        8 => LogicalInput::ShieldMedium,
        9 => LogicalInput::ShieldLight,
        10 => LogicalInput::Up,
        11 => LogicalInput::Down,
        12 => LogicalInput::Left,
        13 => LogicalInput::Right,
        14 => LogicalInput::CUp,
        15 => LogicalInput::CDown,
        16 => LogicalInput::CLeft,
        17 => LogicalInput::CRight,
        18 => LogicalInput::ModX,
        19 => LogicalInput::ModY,
        _ => LogicalInput::Debug,
    }
}

/// The first input bound to `key` among those of rank `floor` and above.
pub open spec fn first_from(map: InputMap, key: Key, floor: int) -> Option<LogicalInput>
    decreases INPUTS - floor,
{
    if floor >= INPUTS || floor < 0 {
        None
    } else if map.bound_key(input_ranked(floor)) == key {
        Some(input_ranked(floor))
    } else {
        first_from(map, key, floor + 1)
    }
}

proof fn lemma_first_from(map: InputMap, key: Key, floor: int)
    requires
        0 <= floor <= INPUTS,
    ensures
        match first_from(map, key, floor) {
            Some(input) => {
                &&& map.bound_key(input) == key
                &&& input.rank() >= floor
                &&& forall|other: LogicalInput|
                    floor <= other.rank() < input.rank() ==> #[trigger] map.bound_key(other) != key
            },
            None => forall|other: LogicalInput|
                other.rank() >= floor ==> #[trigger] map.bound_key(other) != key,
        },
    decreases INPUTS - floor,
{
    if floor < INPUTS {
        lemma_ranked_has_rank(floor);
        lemma_first_from(map, key, floor + 1);
        if map.bound_key(input_ranked(floor)) != key {
            assert forall|other: LogicalInput| other.rank() == floor implies #[trigger] map.bound_key(
                other,
            ) != key by {
                lemma_rank_round_trip(other);
            }
        }
    } else {
        assert forall|other: LogicalInput| other.rank() >= floor implies #[trigger] map.bound_key(
            other,
        ) != key by {
            lemma_rank_round_trip(other);
        }
    }
}

/// Searching the whole table in rank order finds the input that the key
/// drives.
pub proof fn lemma_first_is_driven(map: InputMap, key: Key)
    ensures
        first_from(map, key, 0) == map.input_of(key),
{
    lemma_first_from(map, key, 0);
    match first_from(map, key, 0) {
        Some(input) => {
            assert(map.drives(key, input));
            map.lemma_driven_input_is_unique(key, input);
        },
        None => {
            assert(map.unbound(key));
        },
    }
}

/// The index: the table it was built from, and a hash map from the number of
/// each bound key to the input that the key drives.
pub struct KeyIndex {
    source: InputMap,
    table: HashMap<u64, LogicalInput>,
}

/// `table` answers for every key what a search of `source` from `floor`
/// answers.
spec fn agrees(table: Map<u64, LogicalInput>, source: InputMap, floor: int) -> bool {
    forall|key: Key|
        match first_from(source, key, floor) {
            Some(input) => table.contains_key(#[trigger] key.code_of() as u64) && table[key.code_of() as u64]
                == input,
            None => !table.contains_key(key.code_of() as u64),
        }
}

impl KeyIndex {
    #[verifier::type_invariant]
    spec fn inv(self) -> bool {
        agrees(self.table@, self.source, 0)
    }

    /// The table that the index was built from.
    pub closed spec fn bindings(self) -> InputMap {
        self.source
    }

    /// Builds the index of `source`. Where a key is bound to several inputs,
    /// the input of the lowest rank has it, as in the table itself.
    pub fn new(source: InputMap) -> (index: KeyIndex)
        ensures
            index.bindings() == source,
    {
        let mut table: HashMap<u64, LogicalInput> = HashMap::new();
        let mut floor: usize = INPUTS;
        while floor > 0
            invariant
                floor <= INPUTS,
                agrees(table@, source, floor as int),
            decreases floor,
        {
            floor = floor - 1;
            let input = ranked(floor);
            let key = source.key_of(input);
            let ghost before = table@;
            table.insert(key.code(), input);
            assert forall|other: Key|
                match first_from(source, other, floor as int) {
                    Some(found) => table@.contains_key(#[trigger] other.code_of() as u64) && table@[other.code_of() as u64]
                        == found,
                    None => !table@.contains_key(other.code_of() as u64),
                } by {
                lemma_code_round_trip(other);
                lemma_code_round_trip(key);
                if other.code_of() == key.code_of() {
                    lemma_code_is_injective(other, key);
                }
                assert(first_from(source, other, floor as int) == if other == key {
                    Some(input)
                } else {
                    first_from(source, other, floor + 1)
                });
            }
        }
        KeyIndex { source, table }
    }

    /// The table that the index was built from.
    pub fn source(&self) -> (source: InputMap)
        ensures
            source == self.bindings(),
    {
        self.source
    }

    /// Finds the input that `key` drives. A key that is bound to nothing gives
    /// `None`.
    pub fn lookup(&self, key: Key) -> (found: Option<LogicalInput>)
        ensures
            found == self.bindings().input_of(key),
    {
        proof {
            use_type_invariant(self);
            lemma_first_is_driven(self.source, key);
            lemma_code_round_trip(key);
        }
        let code: u64 = key.code();
        match self.table.get(&code) {
            Some(input) => Some(*input),
            None => None,
        }
    }
}

} // verus!
