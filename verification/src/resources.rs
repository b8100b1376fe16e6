use vstd::prelude::*;

verus! {

/// The player's score.
#[derive(Debug, Clone, Copy, PartialEq, Eq, Structural)]
pub struct Score {
    pub value: u32,
}

/// The current level and the rows cleared since it began.
#[derive(Debug, Clone, Copy, PartialEq, Eq, Structural)]
pub struct Level {
    pub value: u32,
    pub lines_cleared_in_level: u32,
}

impl Default for Score {
    fn default() -> (score: Score)
        ensures
            score.value == 0,
    {
        Score { value: 0 }
    }
}

impl Default for Level {
    fn default() -> (level: Level)
        ensures
            level.value == 0,
            level.lines_cleared_in_level == 0,
    {
        Level { value: 0, lines_cleared_in_level: 0 }
    }
}

} // verus!
