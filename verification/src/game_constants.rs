use vstd::prelude::*;

verus! {

/// Number of columns of the board.
pub const NUM_BLOCKS_X: usize = 10;

/// Number of rows of the board.
pub const NUM_BLOCKS_Y: usize = 18;

/// Number of levels that have a fall interval of their own.
pub const NUM_LEVELS: usize = 10;

/// Points awarded for each cleared row.
pub const POINTS_PER_LINE: u32 = 100;

/// Cleared rows that complete a level.
pub const LINES_PER_LEVEL: u32 = 10;

/// The fall interval of each level, in milliseconds.
pub open spec fn spec_level_time(index: int) -> int {
    if index == 0 {
        3000
    } else if index == 1 {
        850
    } else if index == 2 {
        700
    } else if index == 3 {
        600
    } else if index == 4 {
        500
    } else if index == 5 {
        400
    } else if index == 6 {
        300
    } else if index == 7 {
        250
    } else if index == 8 {
        221
    } else {
        190
    }
}

/// The fall interval, in milliseconds, of the level with the given index,
/// which must be one of the `NUM_LEVELS` defined levels.
pub fn level_time(index: usize) -> (ms: usize)
    requires
        index < NUM_LEVELS,
    ensures
        ms == spec_level_time(index as int),
{
    match index {
        0 => 3000,
        1 => 850,
        2 => 700,
        3 => 600,
        4 => 500,
        5 => 400,
        6 => 300,
        7 => 250,
        8 => 221,
        _ => 190,
    }
}

} // verus!
