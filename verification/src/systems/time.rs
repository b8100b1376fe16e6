use crate::game_constants::{level_time, spec_level_time, NUM_LEVELS};
use crate::resources::Level;
use vstd::prelude::*;

verus! {

/// The fall interval of a level, in milliseconds: the table's entry for
/// the level, and the last entry for every level past the table's end.
pub open spec fn spec_fall_interval(level: Level) -> int {
    if level.value < NUM_LEVELS {
        spec_level_time(level.value as int)
    } else {
        spec_level_time(NUM_LEVELS - 1)
    }
}

/// The interval between two steps of gravity at the given level, in
/// milliseconds.
pub fn update_gravity_speed(level: &Level) -> (ms: usize)
    ensures
        ms == spec_fall_interval(*level),
{
    let level_index = level.value as usize;
    if level_index < NUM_LEVELS {
        level_time(level_index)
    } else {
        level_time(NUM_LEVELS - 1)
    }
}

} // verus!
