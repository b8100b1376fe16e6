use vstd::prelude::*;

verus! {

/// The colours a cell can be painted in.
#[derive(Debug, Clone, Copy, PartialEq, Eq, Structural)]
pub enum GameColor {
    Gray,
    Orange,
    Blue,
    Green,
    Red,
    Purple,
    Cyan,
    Yellow,
}

impl Default for GameColor {
    fn default() -> (color: GameColor)
        ensures
            color == GameColor::Gray,
    {
        GameColor::Gray
    }
}

} // verus!
